//! Head-on conflict detection: which pairs of trains run toward each other
//! in one section, and how soon they meet.
//!
//! Distances come from outside as whole millimetres; speeds are thousandths
//! of a km/h. A distance of `d` mm closed at `c` thousandths of a km/h takes
//! `3.6 * d / c` seconds, so "sooner than `s` seconds" is the exact integer
//! test `36 * d < 10 * s * c`.

use vstd::prelude::*;
use crate::time::{Timestamp, clamp_i64};
use crate::models::{Milli, views};
use crate::models::train::{Train, TrainView};
use crate::runtime::current_time;
use crate::services::{Service, ServiceResult};
use crate::services::train_service::{TrainService, TrainConflict, TrainConflictView,
    ConflictType, ConflictSeverity};

verus! {

/// Trains that meet sooner than this many seconds are in conflict.
pub const CONFLICT_HORIZON_SECONDS: u64 = 300;

/// A conflict sooner than this many seconds is critical.
pub const CRITICAL_WITHIN_SECONDS: u64 = 60;

/// A conflict sooner than this many seconds is at least high.
pub const HIGH_WITHIN_SECONDS: u64 = 180;

/// Two trains run toward each other: same section, opposite directions, both
/// moving.
pub open spec fn heading_toward(a: TrainView, b: TrainView) -> bool {
    &&& a.current_section == b.current_section
    &&& a.direction != b.direction
    &&& a.speed_kmh.thousandths > 0
    &&& b.speed_kmh.thousandths > 0
}

/// The speed at which two trains close, in thousandths of a km/h.
pub open spec fn closing_speed(a: TrainView, b: TrainView) -> int {
    a.speed_kmh.thousandths + b.speed_kmh.thousandths
}

/// Whether `distance_mm` is closed in less than `seconds` at the speed
/// `closing`. A closing speed of zero never closes any distance.
pub open spec fn meets_within(distance_mm: int, closing: int, seconds: int) -> bool {
    closing > 0 && distance_mm * 36 < seconds * 10 * closing
}

/// Whole microseconds until `distance_mm` is closed at the speed `closing`.
pub open spec fn time_to_conflict_micros(distance_mm: int, closing: int) -> int
    recommends
        closing > 0,
{
    distance_mm * 3_600_000 / closing
}

/// The grade of a conflict by the time left: critical under one minute, high
/// under three, medium otherwise.
pub open spec fn conflict_severity(distance_mm: int, closing: int) -> ConflictSeverity {
    if meets_within(distance_mm, closing, CRITICAL_WITHIN_SECONDS as int) {
        ConflictSeverity::Critical
    } else if meets_within(distance_mm, closing, HIGH_WITHIN_SECONDS as int) {
        ConflictSeverity::High
    } else {
        ConflictSeverity::Medium
    }
}

/// Whether two trains `distance_mm` apart are in conflict.
pub open spec fn in_conflict(a: TrainView, b: TrainView, distance_mm: int) -> bool {
    heading_toward(a, b) && meets_within(
        distance_mm,
        closing_speed(a, b),
        CONFLICT_HORIZON_SECONDS as int,
    )
}

/// The record of a conflict between `a` and `b`, `distance_mm` apart.
pub open spec fn conflict_record(a: TrainView, b: TrainView, distance_mm: u64, now: Timestamp)
    -> TrainConflictView {
    TrainConflictView {
        id: a.id + "-"@ + b.id,
        train_a_id: a.id,
        train_b_id: b.id,
        section_id: a.current_section,
        conflict_type: ConflictType::HeadOn,
        severity: conflict_severity(distance_mm as int, closing_speed(a, b)),
        estimated_time_to_conflict: time_to_conflict_micros(
            distance_mm as int,
            closing_speed(a, b),
        ) as u64,
        distance_meters: distance_mm,
        relative_speed_kmh: Milli { thousandths: clamp_i64(closing_speed(a, b)) as i64 },
        detected_at: now,
    }
}

/// The conflict between `a` and `b`, if they are in one.
pub open spec fn head_on_conflict(a: TrainView, b: TrainView, distance_mm: u64, now: Timestamp)
    -> Option<TrainConflictView> {
    if in_conflict(a, b, distance_mm as int) {
        Some(conflict_record(a, b, distance_mm, now))
    } else {
        None
    }
}

/// The pairs `(i, j)` with `i < j < upto` whose trains run toward each other,
/// by rising `j`.
pub open spec fn partners_of(trains: Seq<TrainView>, i: int, upto: int) -> Seq<(int, int)>
    decreases upto - i,
{
    if upto <= i + 1 {
        Seq::empty()
    } else {
        let earlier = partners_of(trains, i, upto - 1);
        if heading_toward(trains[i], trains[upto - 1]) {
            earlier.push((i, upto - 1))
        } else {
            earlier
        }
    }
}

/// The candidate pairs whose first train stands before `rows`, by rising
/// first and then second index.
pub open spec fn candidates_before(trains: Seq<TrainView>, rows: int) -> Seq<(int, int)>
    decreases rows,
{
    if rows <= 0 {
        Seq::empty()
    } else {
        candidates_before(trains, rows - 1) + partners_of(trains, rows - 1, trains.len() as int)
    }
}

/// Every unordered pair of the fleet whose trains run toward each other.
pub open spec fn candidate_pairs(trains: Seq<TrainView>) -> Seq<(int, int)> {
    candidates_before(trains, trains.len() as int)
}

/// A candidate pair with the distance that was measured between its trains.
#[derive(Clone, Copy, Debug, PartialEq, Eq, Structural)]
pub struct MeasuredGap {
    pub first: usize,
    pub second: usize,
    pub distance_mm: u64,
}

/// The pairs that a list of measurements speaks of.
pub open spec fn measured_pairs(gaps: Seq<MeasuredGap>) -> Seq<(int, int)> {
    gaps.map_values(|g: MeasuredGap| (g.first as int, g.second as int))
}

/// The index pairs of a list, as integers.
pub open spec fn index_pairs(pairs: Seq<(usize, usize)>) -> Seq<(int, int)> {
    pairs.map_values(|p: (usize, usize)| (p.0 as int, p.1 as int))
}

/// The conflicts among measured pairs, in the order of the measurements.
pub open spec fn conflicts_from(trains: Seq<TrainView>, gaps: Seq<MeasuredGap>, now: Timestamp)
    -> Seq<TrainConflictView>
    decreases gaps.len(),
{
    if gaps.len() == 0 {
        Seq::empty()
    } else {
        let earlier = conflicts_from(trains, gaps.drop_last(), now);
        let gap = gaps.last();
        match head_on_conflict(
            trains[gap.first as int],
            trains[gap.second as int],
            gap.distance_mm,
            now,
        ) {
            Some(conflict) => earlier.push(conflict),
            None => earlier,
        }
    }
}

/// Every partner pair of row `i` lies inside the fleet, second after first.
pub proof fn lemma_partners_in_range(trains: Seq<TrainView>, i: int, upto: int)
    requires
        0 <= i,
        upto <= trains.len(),
    ensures
        forall|k: int|
            #![trigger partners_of(trains, i, upto)[k]]
            0 <= k < partners_of(trains, i, upto).len() ==> partners_of(trains, i, upto)[k].0 == i
                && i < partners_of(trains, i, upto)[k].1 < upto && heading_toward(
                trains[i],
                trains[partners_of(trains, i, upto)[k].1],
            ),
    decreases upto - i,
{
    if upto > i + 1 {
        lemma_partners_in_range(trains, i, upto - 1);
        let earlier = partners_of(trains, i, upto - 1);
        assert forall|k: int| 0 <= k < partners_of(trains, i, upto).len() implies partners_of(
            trains,
            i,
            upto,
        )[k].0 == i && i < (#[trigger] partners_of(trains, i, upto)[k]).1 < upto && heading_toward(
            trains[i],
            trains[partners_of(trains, i, upto)[k].1],
        ) by {
            if k < earlier.len() {
                assert(partners_of(trains, i, upto)[k] == earlier[k]);
            }
        }
    }
}

/// Every candidate pair lies inside the fleet, second after first, and its
/// trains run toward each other.
pub proof fn lemma_candidates_in_range(trains: Seq<TrainView>, rows: int)
    requires
        rows <= trains.len(),
    ensures
        forall|k: int|
            #![trigger candidates_before(trains, rows)[k]]
            0 <= k < candidates_before(trains, rows).len() ==> 0 <= candidates_before(
                trains,
                rows,
            )[k].0 < candidates_before(trains, rows)[k].1 < trains.len() && candidates_before(
                trains,
                rows,
            )[k].0 < rows && heading_toward(
                trains[candidates_before(trains, rows)[k].0],
                trains[candidates_before(trains, rows)[k].1],
            ),
    decreases rows,
{
    if rows > 0 {
        lemma_candidates_in_range(trains, rows - 1);
        lemma_partners_in_range(trains, rows - 1, trains.len() as int);
        let before = candidates_before(trains, rows - 1);
        let row = partners_of(trains, rows - 1, trains.len() as int);
        assert forall|k: int| 0 <= k < candidates_before(trains, rows).len() implies 0 <= (
        #[trigger] candidates_before(trains, rows)[k]).0 < candidates_before(trains, rows)[k].1
            < trains.len() && candidates_before(trains, rows)[k].0 < rows && heading_toward(
            trains[candidates_before(trains, rows)[k].0],
            trains[candidates_before(trains, rows)[k].1],
        ) by {
            if k < before.len() {
                assert(candidates_before(trains, rows)[k] == before[k]);
            } else {
                assert(candidates_before(trains, rows)[k] == row[k - before.len()]);
            }
        }
    }
}

/// Every pair of trains that run toward each other is a candidate.
pub proof fn lemma_candidates_complete(trains: Seq<TrainView>, i: int, j: int)
    requires
        0 <= i < j < trains.len(),
        heading_toward(trains[i], trains[j]),
    ensures
        candidate_pairs(trains).contains((i, j)),
{
    lemma_partner_listed(trains, i, j, trains.len() as int);
    lemma_row_listed(trains, i, trains.len() as int, (i, j));
}

proof fn lemma_partner_listed(trains: Seq<TrainView>, i: int, j: int, upto: int)
    requires
        0 <= i < j < upto,
        heading_toward(trains[i], trains[j]),
    ensures
        partners_of(trains, i, upto).contains((i, j)),
    decreases upto - j,
{
    if upto - 1 == j {
        let earlier = partners_of(trains, i, upto - 1);
        assert(earlier.push((i, j))[earlier.len() as int] == (i, j));
    } else {
        lemma_partner_listed(trains, i, j, upto - 1);
        let earlier = partners_of(trains, i, upto - 1);
        let k = choose|k: int| 0 <= k < earlier.len() && earlier[k] == (i, j);
        if heading_toward(trains[i], trains[upto - 1]) {
            assert(earlier.push((i, upto - 1))[k] == (i, j));
        }
    }
}

proof fn lemma_row_listed(trains: Seq<TrainView>, i: int, rows: int, pair: (int, int))
    requires
        0 <= i < rows,
        partners_of(trains, i, trains.len() as int).contains(pair),
    ensures
        candidates_before(trains, rows).contains(pair),
    decreases rows,
{
    let before = candidates_before(trains, rows - 1);
    let row = partners_of(trains, rows - 1, trains.len() as int);
    if rows - 1 == i {
        let k = choose|k: int| 0 <= k < row.len() && row[k] == pair;
        assert((before + row)[before.len() + k] == pair);
    } else {
        lemma_row_listed(trains, i, rows - 1, pair);
        let k = choose|k: int| 0 <= k < before.len() && before[k] == pair;
        assert((before + row)[k] == pair);
    }
}

/// The time stored with a conflict agrees with the test that raised it:
/// a distance is closed in less than `seconds` exactly when the whole
/// microseconds until the trains meet are fewer than `seconds` million.
pub proof fn lemma_meets_within_matches_time(distance_mm: int, closing: int, seconds: int)
    requires
        distance_mm >= 0,
        closing > 0,
        seconds >= 0,
    ensures
        meets_within(distance_mm, closing, seconds) <==> time_to_conflict_micros(
            distance_mm,
            closing,
        ) < seconds * 1_000_000,
        time_to_conflict_micros(distance_mm, closing) >= 0,
{
    let n = distance_mm * 3_600_000;
    let q = n / closing;
    assert(q * closing <= n < (q + 1) * closing && q >= 0) by (nonlinear_arith)
        requires
            n >= 0,
            closing > 0,
            q == n / closing,
    ;
    let bound = seconds * 1_000_000;
    assert(distance_mm * 36 < seconds * 10 * closing <==> n < bound * closing) by (nonlinear_arith)
        requires
            n == distance_mm * 3_600_000,
            bound == seconds * 1_000_000,
    ;
    if q < bound {
        assert(n < bound * closing) by (nonlinear_arith)
            requires
                n < (q + 1) * closing,
                q + 1 <= bound,
                closing > 0,
        ;
    } else {
        assert(n >= bound * closing) by (nonlinear_arith)
            requires
                q * closing <= n,
                q >= bound,
                closing > 0,
        ;
    }
}

/// Trains at the same spot that run toward each other meet at once, and the
/// conflict is critical, whatever their speeds.
pub proof fn lemma_zero_distance_is_critical(a: TrainView, b: TrainView, now: Timestamp)
    requires
        heading_toward(a, b),
    ensures
        head_on_conflict(a, b, 0, now) is Some,
        head_on_conflict(a, b, 0, now).unwrap().severity == ConflictSeverity::Critical,
        head_on_conflict(a, b, 0, now).unwrap().estimated_time_to_conflict == 0,
{
    let c = closing_speed(a, b);
    assert(0 < 60 * 10 * c && 0 < 300 * 10 * c) by (nonlinear_arith)
        requires
            c > 0,
    ;
    assert(0int * 3_600_000 / c == 0) by (nonlinear_arith)
        requires
            c > 0,
    ;
}

/// The horizon is exclusive: two trains that run toward each other are in
/// conflict exactly when they meet in strictly less than three hundred
/// seconds, and a conflict is graded by the same strict bounds.
pub proof fn lemma_conflict_horizon(a: TrainView, b: TrainView, distance_mm: u64, now: Timestamp)
    requires
        heading_toward(a, b),
    ensures
        head_on_conflict(a, b, distance_mm, now) is Some <==> 36 * distance_mm < 3000
            * closing_speed(a, b),
        head_on_conflict(a, b, distance_mm, now) is Some <==> time_to_conflict_micros(
            distance_mm as int,
            closing_speed(a, b),
        ) < 300_000_000,
        head_on_conflict(a, b, distance_mm, now) matches Some(c) ==> (c.severity
            == ConflictSeverity::Critical <==> c.estimated_time_to_conflict < 60_000_000) && (
        c.severity == ConflictSeverity::High <==> 60_000_000 <= c.estimated_time_to_conflict
            < 180_000_000) && (c.severity == ConflictSeverity::Medium <==> 180_000_000
            <= c.estimated_time_to_conflict < 300_000_000),
{
    let c = closing_speed(a, b);
    lemma_meets_within_matches_time(distance_mm as int, c, 300);
    lemma_meets_within_matches_time(distance_mm as int, c, 180);
    lemma_meets_within_matches_time(distance_mm as int, c, 60);
    assert(300int * 10 * c == 3000 * c) by (nonlinear_arith);
    assert(distance_mm * 36 == 36 * distance_mm) by (nonlinear_arith);
}

impl TrainService {
    /// The conflict between two trains `distance_mm` apart, if they run
    /// toward each other and meet within the horizon.
    pub fn assess_conflict(a: &Train, b: &Train, distance_mm: u64, now: Timestamp) -> (conflict:
        Option<TrainConflict>)
        ensures
            match conflict {
                Some(c) => head_on_conflict(a@, b@, distance_mm, now) == Some(c@),
                None => head_on_conflict(a@, b@, distance_mm, now) is None,
            },
    {
        if !(a.current_section == b.current_section && a.direction != b.direction
            && a.speed_kmh.thousandths > 0 && b.speed_kmh.thousandths > 0) {
            return None;
        }
        let closing: u128 = (a.speed_kmh.thousandths as i128 + b.speed_kmh.thousandths as i128) as u128;
        let scaled: u128 = distance_mm as u128 * 36;
        assert(closing == closing_speed(a@, b@));
        if !(scaled < 3000 * closing) {
            return None;
        }
        proof {
            lemma_conflict_horizon(a@, b@, distance_mm, now);
        }
        let severity = if scaled < 600 * closing {
            ConflictSeverity::Critical
        } else if scaled < 1800 * closing {
            ConflictSeverity::High
        } else {
            ConflictSeverity::Medium
        };
        let micros: u128 = distance_mm as u128 * 3_600_000 / closing;
        let relative: i64 = if closing > i64::MAX as u128 {
            i64::MAX
        } else {
            closing as i64
        };
        let mut id = a.id.clone();
        id.append("-");
        id.append(b.id.as_str());
        Some(
            TrainConflict {
                id,
                train_a_id: a.id.clone(),
                train_b_id: b.id.clone(),
                section_id: a.current_section.clone(),
                conflict_type: ConflictType::HeadOn,
                severity,
                estimated_time_to_conflict: micros as u64,
                distance_meters: distance_mm,
                relative_speed_kmh: Milli { thousandths: relative },
                detected_at: now,
            },
        )
    }

    /// Every unordered pair of the fleet whose trains share a section, run in
    /// opposite directions and both move: the pairs whose distance decides
    /// whether they are in conflict.
    pub fn conflict_candidates(&self, trains: &Vec<Train>) -> (pairs: Vec<(usize, usize)>)
        ensures
            index_pairs(pairs@) == candidate_pairs(views(trains@)),
    {
        let ghost fleet = views(trains@);
        let n = trains.len();
        let mut pairs: Vec<(usize, usize)> = Vec::new();
        let mut i: usize = 0;
        assert(index_pairs(pairs@) =~= candidates_before(fleet, 0));
        while i < n
            invariant
                0 <= i <= n,
                n == trains.len(),
                fleet == views(trains@),
                index_pairs(pairs@) == candidates_before(fleet, i as int),
            decreases n - i,
        {
            let mut j: usize = i + 1;
            let ghost before = index_pairs(pairs@);
            assert(index_pairs(pairs@) =~= before + partners_of(fleet, i as int, j as int));
            while j < n
                invariant
                    i < j <= n,
                    n == trains.len(),
                    fleet == views(trains@),
                    before == candidates_before(fleet, i as int),
                    index_pairs(pairs@) == before + partners_of(fleet, i as int, j as int),
                decreases n - j,
            {
                let a = &trains[i];
                let b = &trains[j];
                let ghost listed = index_pairs(pairs@);
                assert(fleet[i as int] == a@ && fleet[j as int] == b@);
                if a.current_section == b.current_section && a.direction != b.direction
                    && a.speed_kmh.thousandths > 0 && b.speed_kmh.thousandths > 0 {
                    pairs.push((i, j));
                    assert(index_pairs(pairs@) =~= listed.push((i as int, j as int)));
                }
                assert(partners_of(fleet, i as int, j as int + 1) == if heading_toward(
                    fleet[i as int],
                    fleet[j as int],
                ) {
                    partners_of(fleet, i as int, j as int).push((i as int, j as int))
                } else {
                    partners_of(fleet, i as int, j as int)
                });
                assert(index_pairs(pairs@) =~= before + partners_of(
                    fleet,
                    i as int,
                    j as int + 1,
                ));
                j += 1;
            }
            assert(n as int <= i + 1 ==> partners_of(fleet, i as int, n as int)
                =~= Seq::<(int, int)>::empty());
            i += 1;
        }
        pairs
    }

    /// The conflicts of the fleet at the instant `now`, given the distance
    /// measured for each candidate pair: one record for each pair that meets
    /// within the horizon, in the order of the pairs.
    pub fn conflicts_at(&self, trains: &Vec<Train>, gaps: &Vec<MeasuredGap>, now: Timestamp)
        -> (conflicts: Vec<TrainConflict>)
        requires
            measured_pairs(gaps@) == candidate_pairs(views(trains@)),
        ensures
            views(conflicts@) == conflicts_from(views(trains@), gaps@, now),
    {
        let ghost fleet = views(trains@);
        let mut conflicts: Vec<TrainConflict> = Vec::new();
        let mut k: usize = 0;
        assert(gaps@.take(0) =~= Seq::<MeasuredGap>::empty());
        assert(views(conflicts@) =~= Seq::<TrainConflictView>::empty());
        while k < gaps.len()
            invariant
                0 <= k <= gaps.len(),
                fleet == views(trains@),
                measured_pairs(gaps@) == candidate_pairs(fleet),
                views(conflicts@) == conflicts_from(fleet, gaps@.take(k as int), now),
            decreases gaps.len() - k,
        {
            let gap = gaps[k];
            proof {
                lemma_candidates_in_range(fleet, fleet.len() as int);
                assert(measured_pairs(gaps@)[k as int] == (gap.first as int, gap.second as int));
                assert(candidate_pairs(fleet)[k as int] == (gap.first as int, gap.second as int));
                assert(fleet[gap.first as int] == trains@[gap.first as int]@);
                assert(fleet[gap.second as int] == trains@[gap.second as int]@);
                assert(gaps@.take(k as int + 1).drop_last() =~= gaps@.take(k as int));
            }
            let found = TrainService::assess_conflict(
                &trains[gap.first],
                &trains[gap.second],
                gap.distance_mm,
                now,
            );
            let ghost before = views(conflicts@);
            match found {
                Some(conflict) => {
                    conflicts.push(conflict);
                    assert(views(conflicts@) =~= before.push(conflict@));
                },
                None => {},
            }
            k += 1;
        }
        assert(gaps@.take(gaps.len() as int) =~= gaps@);
        conflicts
    }

    /// The conflicts of the fleet at `now` where the measurements are those
    /// of the candidate pairs, one for each pair and in their order; none
    /// where the measurements speak of other pairs.
    pub fn measured_conflicts(&self, trains: &Vec<Train>, gaps: &Vec<MeasuredGap>, now: Timestamp) -> (conflicts:
        Option<Vec<TrainConflict>>)
        ensures
            conflicts is Some <==> measured_pairs(gaps@) == candidate_pairs(views(trains@)),
            conflicts matches Some(list) ==> views(list@) == conflicts_from(
                views(trains@),
                gaps@,
                now,
            ),
    {
        let pairs = self.conflict_candidates(trains);
        let ghost wanted = candidate_pairs(views(trains@));
        let ghost given = measured_pairs(gaps@);
        if pairs.len() != gaps.len() {
            assert(index_pairs(pairs@).len() == pairs@.len());
            assert(given.len() == gaps@.len());
            return None;
        }
        let mut k: usize = 0;
        while k < gaps.len()
            invariant
                0 <= k <= gaps@.len(),
                pairs@.len() == gaps@.len(),
                wanted == index_pairs(pairs@),
                wanted == candidate_pairs(views(trains@)),
                given == measured_pairs(gaps@),
                forall|m: int| 0 <= m < k ==> given[m] == wanted[m],
            decreases gaps.len() - k,
        {
            if gaps[k].first != pairs[k].0 || gaps[k].second != pairs[k].1 {
                assert(given[k as int] == (gaps@[k as int].first as int, gaps@[k as int].second as int));
                assert(wanted[k as int] == (pairs@[k as int].0 as int, pairs@[k as int].1 as int));
                assert(given[k as int] != wanted[k as int]);
                return None;
            }
            assert(given[k as int] == (gaps@[k as int].first as int, gaps@[k as int].second as int));
            assert(wanted[k as int] == (pairs@[k as int].0 as int, pairs@[k as int].1 as int));
            k += 1;
        }
        assert(given =~= wanted);
        Some(self.conflicts_at(trains, gaps, now))
    }

    /// The conflicts of the fleet at the current instant.
    pub fn detect_train_conflicts(&self, trains: &Vec<Train>, gaps: &Vec<MeasuredGap>) -> (conflicts:
        Vec<TrainConflict>)
        requires
            measured_pairs(gaps@) == candidate_pairs(views(trains@)),
        ensures
            exists|now: Timestamp|
                views(conflicts@) == conflicts_from(views(trains@), gaps@, now),
    {
        let now = current_time();
        self.conflicts_at(trains, gaps, now)
    }
}

/// The service that is to detect conflicts section by section.
#[derive(Debug)]
pub struct ConflictDetectionService {}

impl ConflictDetectionService {
    pub fn new() -> (service: ConflictDetectionService) {
        ConflictDetectionService {  }
    }

    /// Detection by section is not yet offered: the answer is always empty.
    pub fn detect_conflicts(&self, section_id: &str) -> (conflicts: ServiceResult<
        Vec<crate::models::events::ConflictEvent>,
    >)
        ensures
            conflicts matches Ok(list) && list@.len() == 0,
    {
        Ok(Vec::new())
    }
}

impl Service for ConflictDetectionService {
    fn name(&self) -> (name: &'static str)
        ensures
            name@ == "ConflictDetectionService"@,
    {
        "ConflictDetectionService"
    }
}

} // verus!
