//! Filtered, sorted and limited listings of a fleet, the history of one
//! train, and the density of the sections.

use vstd::prelude::*;
use crate::time::Timestamp;
use crate::text::is_text;
use crate::models::{Milli, GeoPoint, TrainPriority, views};
use crate::models::events::{TrainEvent, text_of};
use crate::models::train::{Train, TrainView, TrainStatus};
use crate::runtime::current_time;
use crate::services::train_service::TrainService;
use crate::services::fleet::{Criteria, CriteriaView, selected};
use crate::time::clamp_i64;
use crate::services::ordering::{stable_order, arranged, order_by_key, widened, places,
    well_ordered, listed_before, lemma_stable_order};
use crate::services::analytics::mean_of;
use crate::services::analytics::{PerformanceAnalytics, SectionCount, count_in_section, mean,
    tallies_sections, counted_sections};

verus! {

/// Which trains a listing holds, in which order, and how many at most.
#[derive(Debug)]
pub struct TrainFilters {
    pub status: Option<TrainStatus>,
    pub priority: Option<TrainPriority>,
    pub section_id: Option<String>,
    pub delayed_only: bool,
    pub min_speed: Option<Milli>,
    pub max_speed: Option<Milli>,
    pub sort_by: Option<String>,
    pub limit: Option<usize>,
}

pub struct TrainFiltersView {
    pub status: Option<TrainStatus>,
    pub priority: Option<TrainPriority>,
    pub section_id: Option<Seq<char>>,
    pub delayed_only: bool,
    pub min_speed: Option<Milli>,
    pub max_speed: Option<Milli>,
    pub sort_by: Option<Seq<char>>,
    pub limit: Option<usize>,
}

impl View for TrainFilters {
    type V = TrainFiltersView;

    open spec fn view(&self) -> TrainFiltersView {
        TrainFiltersView {
            status: self.status,
            priority: self.priority,
            section_id: text_of(self.section_id),
            delayed_only: self.delayed_only,
            min_speed: self.min_speed,
            max_speed: self.max_speed,
            sort_by: text_of(self.sort_by),
            limit: self.limit,
        }
    }
}

impl Clone for TrainFilters {
    fn clone(&self) -> (copy: Self)
        ensures
            copy@ == self@,
    {
        TrainFilters {
            status: self.status,
            priority: self.priority,
            section_id: match &self.section_id {
                Some(s) => Some(s.clone()),
                None => None,
            },
            delayed_only: self.delayed_only,
            min_speed: self.min_speed,
            max_speed: self.max_speed,
            sort_by: match &self.sort_by {
                Some(s) => Some(s.clone()),
                None => None,
            },
            limit: self.limit,
        }
    }
}

impl TrainFiltersView {
    /// The criteria that the filters stand for. "Delayed only" asks for a
    /// delay of at least one minute.
    pub open spec fn criteria(self) -> CriteriaView {
        CriteriaView {
            status: self.status,
            active_only: false,
            priority: self.priority,
            section_id: self.section_id,
            min_delay: if self.delayed_only {
                Some(1i32)
            } else {
                None
            },
            min_speed: self.min_speed,
            max_speed: self.max_speed,
        }
    }
}

/// The key by which a listing is sorted, smaller keys first: "delay",
/// "speed" and "updated_at" list the largest value first, "priority" the
/// class of highest precedence, any other word the lowest train number.
pub open spec fn sort_key(train: TrainView, sort_by: Seq<char>) -> int {
    if sort_by == "delay"@ {
        -(train.delay_minutes as int)
    } else if sort_by == "speed"@ {
        -(train.speed_kmh.thousandths as int)
    } else if sort_by == "priority"@ {
        train.priority.spec_value() as int
    } else if sort_by == "updated_at"@ {
        -(train.updated_at.millis as int)
    } else {
        train.train_number as int
    }
}

pub open spec fn sort_keys(trains: Seq<TrainView>, sort_by: Seq<char>) -> Seq<int> {
    trains.map_values(|t: TrainView| sort_key(t, sort_by))
}

/// A fleet sorted by the named key, trains with equal keys keeping their
/// order; unsorted where no key is named.
pub open spec fn sorted_by(trains: Seq<TrainView>, sort_by: Option<Seq<char>>) -> Seq<TrainView> {
    match sort_by {
        Some(word) => arranged(
            trains,
            stable_order(sort_keys(trains, word), trains.len() as int),
        ),
        None => trains,
    }
}

/// The first `limit` trains of a list, or all of them.
pub open spec fn limited(trains: Seq<TrainView>, limit: Option<usize>) -> Seq<TrainView> {
    match limit {
        Some(n) => if n < trains.len() {
            trains.take(n as int)
        } else {
            trains
        },
        None => trains,
    }
}

/// The listing that the filters ask for.
pub open spec fn listing(trains: Seq<TrainView>, filters: TrainFiltersView) -> Seq<TrainView> {
    limited(sorted_by(selected(trains, filters.criteria()), filters.sort_by), filters.limit)
}

/// A listing with the figures of the trains that passed the filters.
#[derive(Debug)]
pub struct TrainAnalyticsResponse {
    pub trains: Vec<Train>,
    pub analytics: PerformanceAnalytics,
    pub total_count: usize,
    pub filters_applied: TrainFilters,
    pub timestamp: Timestamp,
}

#[derive(Clone, Copy, Debug, PartialEq, Eq, Structural)]
pub struct SpeedDataPoint {
    pub timestamp: Timestamp,
    pub speed_kmh: Milli,
}

#[derive(Debug)]
pub struct DelayDataPoint {
    pub timestamp: Timestamp,
    pub delay_minutes: i32,
    pub reason: Option<String>,
}

#[derive(Debug)]
pub struct PositionDataPoint {
    pub timestamp: Timestamp,
    pub position: GeoPoint,
    pub section_id: Option<String>,
}

/// What is known of the past of one train.
#[derive(Debug)]
pub struct TrainPerformanceHistory {
    pub train_id: String,
    pub period_hours: u32,
    pub speed_history: Vec<SpeedDataPoint>,
    pub delay_history: Vec<DelayDataPoint>,
    pub position_history: Vec<PositionDataPoint>,
    pub generated_at: Timestamp,
}

/// The speeds that a list of events notes, in order.
pub open spec fn speed_points(events: Seq<TrainEvent>) -> Seq<SpeedDataPoint>
    decreases events.len(),
{
    if events.len() == 0 {
        Seq::empty()
    } else {
        let earlier = speed_points(events.drop_last());
        match events.last().metadata.speed_kmh {
            Some(speed) => earlier.push(
                SpeedDataPoint { timestamp: events.last().timestamp, speed_kmh: speed },
            ),
            None => earlier,
        }
    }
}

/// The delays that a list of events notes, in order: instant, minutes,
/// reason.
pub open spec fn delay_points(events: Seq<TrainEvent>) -> Seq<(Timestamp, i32, Option<Seq<char>>)>
    decreases events.len(),
{
    if events.len() == 0 {
        Seq::empty()
    } else {
        let earlier = delay_points(events.drop_last());
        match events.last().metadata.delay_minutes {
            Some(delay) => earlier.push(
                (events.last().timestamp, delay, text_of(events.last().metadata.reason)),
            ),
            None => earlier,
        }
    }
}

/// The positions of a list of events, one for each: instant, position,
/// section.
pub open spec fn position_points(events: Seq<TrainEvent>) -> Seq<
    (Timestamp, GeoPoint, Option<Seq<char>>),
> {
    events.map_values(|e: TrainEvent| (e.timestamp, e.location, text_of(e.section_id)))
}

pub open spec fn delay_point_views(points: Seq<DelayDataPoint>) -> Seq<
    (Timestamp, i32, Option<Seq<char>>),
> {
    points.map_values(|p: DelayDataPoint| (p.timestamp, p.delay_minutes, text_of(p.reason)))
}

pub open spec fn position_point_views(points: Seq<PositionDataPoint>) -> Seq<
    (Timestamp, GeoPoint, Option<Seq<char>>),
> {
    points.map_values(|p: PositionDataPoint| (p.timestamp, p.position, text_of(p.section_id)))
}

/// How full a section is.
#[derive(Debug)]
pub struct SectionDensity {
    pub section_id: String,
    pub train_count: usize,
    pub capacity: usize,
    pub utilization_percentage: Milli,
    pub is_congested: bool,
    pub average_speed: Milli,
}

/// The number of trains that every section is taken to hold at most.
pub const SECTION_CAPACITY: usize = 10;

/// A section is congested above this utilization, in thousandths of a
/// percent.
pub const CONGESTION_THRESHOLD: i64 = 80_000;

/// The speeds of the trains of one section added up.
pub open spec fn sum_speeds_in_section(trains: Seq<TrainView>, section: Seq<char>) -> int
    decreases trains.len(),
{
    if trains.len() == 0 {
        0
    } else {
        sum_speeds_in_section(trains.drop_last(), section) + if trains.last().current_section
            == section {
            trains.last().speed_kmh.thousandths as int
        } else {
            0
        }
    }
}

impl SectionDensity {
    /// Whether this is the density of its section in the fleet `trains`.
    pub open spec fn describes(&self, trains: Seq<TrainView>) -> bool {
        &&& self.train_count == count_in_section(trains, self.section_id@)
        &&& self.capacity == SECTION_CAPACITY
        &&& self.utilization_percentage.thousandths == clamp_i64(self.train_count * 10_000)
        &&& self.is_congested == (self.train_count > 8)
        &&& self.average_speed == mean(
            sum_speeds_in_section(trains, self.section_id@),
            self.train_count as int,
        )
    }
}

fn key_of(train: &Train, sort_by: &String) -> (key: i128)
    ensures
        key == sort_key(train@, sort_by@),
{
    if is_text(sort_by, "delay") {
        -(train.delay_minutes as i128)
    } else if is_text(sort_by, "speed") {
        -(train.speed_kmh.thousandths as i128)
    } else if is_text(sort_by, "priority") {
        train.priority.value() as i128
    } else if is_text(sort_by, "updated_at") {
        -(train.updated_at.millis as i128)
    } else {
        train.train_number as i128
    }
}

impl TrainFilters {
    /// The criteria that the filters stand for.
    pub fn criteria(&self) -> (criteria: Criteria)
        ensures
            criteria@ == self@.criteria(),
    {
        Criteria {
            status: self.status,
            active_only: false,
            priority: self.priority,
            section_id: match &self.section_id {
                Some(s) => Some(s.clone()),
                None => None,
            },
            min_delay: if self.delayed_only {
                Some(1)
            } else {
                None
            },
            min_speed: self.min_speed,
            max_speed: self.max_speed,
        }
    }
}

impl TrainService {
    /// The fleet sorted by the key that `sort_by` names, trains with equal
    /// keys keeping their order.
    pub fn sort_trains(trains: &Vec<Train>, sort_by: &String) -> (sorted: Vec<Train>)
        ensures
            views(sorted@) == sorted_by(views(trains@), Some(sort_by@)),
            sorted@.len() == trains@.len(),
    {
        let ghost fleet = views(trains@);
        let ghost wanted = sort_keys(fleet, sort_by@);
        let mut keys: Vec<i128> = Vec::new();
        let mut i: usize = 0;
        while i < trains.len()
            invariant
                0 <= i <= trains.len(),
                fleet == views(trains@),
                wanted == sort_keys(fleet, sort_by@),
                widened(keys@) == wanted.take(i as int),
            decreases trains.len() - i,
        {
            let ghost listed = widened(keys@);
            let key = key_of(&trains[i], sort_by);
            keys.push(key);
            assert(widened(keys@) =~= listed.push(key as int));
            assert(wanted.take(i as int + 1) =~= wanted.take(i as int).push(wanted[i as int]));
            i += 1;
        }
        assert(wanted.take(trains.len() as int) =~= wanted);
        let order = order_by_key(&keys);
        let ghost target = arranged(fleet, places(order@));
        let mut sorted: Vec<Train> = Vec::new();
        let mut a: usize = 0;
        while a < order.len()
            invariant
                0 <= a <= order.len(),
                order@.len() == trains@.len(),
                fleet == views(trains@),
                target == arranged(fleet, places(order@)),
                forall|k: int| 0 <= k < order@.len() ==> #[trigger] order@[k] < trains@.len(),
                views(sorted@) == target.take(a as int),
            decreases order.len() - a,
        {
            let ghost listed = views(sorted@);
            sorted.push(trains[order[a]].clone());
            assert(target[a as int] == fleet[order@[a as int] as int]);
            assert(views(sorted@) =~= listed.push(target[a as int]));
            assert(target.take(a as int + 1) =~= target.take(a as int).push(target[a as int]));
            a += 1;
        }
        assert(target.take(order.len() as int) =~= target);
        sorted
    }

    /// The listing that `filters` ask for, with the figures of the trains
    /// that passed the filters, taken at `now`.
    pub fn analytics_at(&self, trains: &Vec<Train>, filters: &TrainFilters, now: Timestamp) -> (response:
        TrainAnalyticsResponse)
        ensures
            views(response.trains@) == listing(views(trains@), filters@),
            response.analytics.describes(selected(views(trains@), filters@.criteria()), now),
            response.total_count == response.trains@.len(),
            response.filters_applied@ == filters@,
            response.timestamp == now,
    {
        let criteria = filters.criteria();
        let chosen = TrainService::select(trains, &criteria);
        let analytics = self.performance_at(&chosen, now);
        let mut listed = match &filters.sort_by {
            Some(word) => TrainService::sort_trains(&chosen, word),
            None => chosen,
        };
        match filters.limit {
            Some(n) => {
                listed.truncate(n);
                assert(views(listed@) =~= limited(
                    sorted_by(selected(views(trains@), filters@.criteria()), filters@.sort_by),
                    filters@.limit,
                ));
            },
            None => {},
        }
        let total_count = listed.len();
        TrainAnalyticsResponse {
            trains: listed,
            analytics,
            total_count,
            filters_applied: filters.clone(),
            timestamp: now,
        }
    }

    /// The listing that `filters` ask for, taken at the current instant.
    pub fn get_trains_with_analytics(&self, trains: &Vec<Train>, filters: &TrainFilters) -> (response:
        TrainAnalyticsResponse)
        ensures
            views(response.trains@) == listing(views(trains@), filters@),
            response.analytics.describes(
                selected(views(trains@), filters@.criteria()),
                response.timestamp,
            ),
            response.total_count == response.trains@.len(),
            response.filters_applied@ == filters@,
    {
        let now = current_time();
        self.analytics_at(trains, filters, now)
    }

    /// The history of the train under `train_id` as the events of the last
    /// `hours` hours tell it, written at `now`.
    pub fn history_at(&self, train_id: &str, hours: u32, events: &Vec<TrainEvent>, now: Timestamp) -> (history:
        TrainPerformanceHistory)
        ensures
            history.train_id@ == train_id@,
            history.period_hours == hours,
            history.generated_at == now,
            history.speed_history@ == speed_points(events@),
            delay_point_views(history.delay_history@) == delay_points(events@),
            position_point_views(history.position_history@) == position_points(events@),
    {
        let mut speed_history: Vec<SpeedDataPoint> = Vec::new();
        let mut delay_history: Vec<DelayDataPoint> = Vec::new();
        let mut position_history: Vec<PositionDataPoint> = Vec::new();
        let ghost wanted = position_points(events@);
        let mut i: usize = 0;
        assert(events@.take(0) =~= Seq::<TrainEvent>::empty());
        assert(delay_point_views(delay_history@) =~= delay_points(events@.take(0)));
        assert(position_point_views(position_history@) =~= wanted.take(0));
        while i < events.len()
            invariant
                0 <= i <= events.len(),
                wanted == position_points(events@),
                speed_history@ == speed_points(events@.take(i as int)),
                delay_point_views(delay_history@) == delay_points(events@.take(i as int)),
                position_point_views(position_history@) == wanted.take(i as int),
            decreases events.len() - i,
        {
            let event = &events[i];
            let ghost upto = events@.take(i as int + 1);
            let ghost speeds = speed_history@;
            let ghost delays = delay_point_views(delay_history@);
            let ghost positions = position_point_views(position_history@);
            assert(upto.drop_last() =~= events@.take(i as int));
            assert(upto.last() == events@[i as int]);
            match event.metadata.speed_kmh {
                Some(speed) => {
                    speed_history.push(
                        SpeedDataPoint { timestamp: event.timestamp, speed_kmh: speed },
                    );
                },
                None => {},
            }
            match event.metadata.delay_minutes {
                Some(delay) => {
                    delay_history.push(
                        DelayDataPoint {
                            timestamp: event.timestamp,
                            delay_minutes: delay,
                            reason: match &event.metadata.reason {
                                Some(r) => Some(r.clone()),
                                None => None,
                            },
                        },
                    );
                    assert(delay_point_views(delay_history@) =~= delays.push(
                        (event.timestamp, delay, text_of(event.metadata.reason)),
                    ));
                },
                None => {},
            }
            position_history.push(
                PositionDataPoint {
                    timestamp: event.timestamp,
                    position: event.location,
                    section_id: match &event.section_id {
                        Some(s) => Some(s.clone()),
                        None => None,
                    },
                },
            );
            assert(position_point_views(position_history@) =~= positions.push(wanted[i as int]));
            assert(wanted.take(i as int + 1) =~= wanted.take(i as int).push(wanted[i as int]));
            i += 1;
        }
        assert(events@.take(events.len() as int) =~= events@);
        assert(wanted.take(events.len() as int) =~= wanted);
        TrainPerformanceHistory {
            train_id: train_id.to_owned(),
            period_hours: hours,
            speed_history,
            delay_history,
            position_history,
            generated_at: now,
        }
    }

    /// The history of the train under `train_id`, written at the current
    /// instant.
    pub fn get_train_performance_history(&self, train_id: &str, hours: u32, events: &Vec<TrainEvent>) -> (history:
        TrainPerformanceHistory)
        ensures
            history.train_id@ == train_id@,
            history.period_hours == hours,
            history.speed_history@ == speed_points(events@),
            delay_point_views(history.delay_history@) == delay_points(events@),
            position_point_views(history.position_history@) == position_points(events@),
    {
        let now = current_time();
        self.history_at(train_id, hours, events, now)
    }
}

/// The sections that a list of densities speaks of.
pub open spec fn density_sections(densities: Seq<SectionDensity>) -> Seq<Seq<char>> {
    densities.map_values(|d: SectionDensity| d.section_id@)
}

/// The speeds of the trains of one section never add up beyond what the
/// size of the fleet allows.
pub proof fn lemma_section_speeds_bounded(trains: Seq<TrainView>, section: Seq<char>)
    ensures
        -trains.len() * 0x8000_0000_0000_0000 <= sum_speeds_in_section(trains, section)
            <= trains.len() * 0x7fff_ffff_ffff_ffff,
    decreases trains.len(),
{
    if trains.len() > 0 {
        lemma_section_speeds_bounded(trains.drop_last(), section);
    }
}

impl TrainService {
    /// The density of one section of the fleet, given how many trains it
    /// holds.
    pub fn density_of(trains: &Vec<Train>, counted: &SectionCount) -> (density: SectionDensity)
        requires
            counted.train_count == count_in_section(views(trains@), counted.section_id@),
        ensures
            density.section_id@ == counted.section_id@,
            density.describes(views(trains@)),
    {
        let ghost fleet = views(trains@);
        let ghost section = counted.section_id@;
        let mut speed_sum: i128 = 0;
        let mut i: usize = 0;
        while i < trains.len()
            invariant
                0 <= i <= trains.len(),
                fleet == views(trains@),
                section == counted.section_id@,
                speed_sum == sum_speeds_in_section(fleet.take(i as int), section),
            decreases trains.len() - i,
        {
            proof {
                let upto = fleet.take(i as int + 1);
                assert(upto.drop_last() =~= fleet.take(i as int));
                assert(upto.last() == trains@[i as int]@);
                lemma_section_speeds_bounded(fleet.take(i as int), section);
                lemma_section_speeds_bounded(upto, section);
            }
            if trains[i].current_section == counted.section_id {
                speed_sum = speed_sum + trains[i].speed_kmh.thousandths as i128;
            }
            i += 1;
        }
        proof {
            assert(fleet.take(trains.len() as int) =~= fleet);
            lemma_section_speeds_bounded(fleet, section);
        }
        let count = counted.train_count;
        let utilization: i128 = count as i128 * 10_000;
        let held: i64 = if utilization > i64::MAX as i128 {
            i64::MAX
        } else {
            utilization as i64
        };
        SectionDensity {
            section_id: counted.section_id.clone(),
            train_count: count,
            capacity: SECTION_CAPACITY,
            utilization_percentage: Milli { thousandths: held },
            is_congested: count > 8,
            average_speed: mean_of(speed_sum, count as u64),
        }
    }

    /// The density of every section that holds a train of the fleet, the
    /// fullest section first; sections that are equally full stay in the
    /// order in which the fleet first names them.
    pub fn get_section_density(&self, trains: &Vec<Train>) -> (densities: Vec<SectionDensity>)
        ensures
            forall|k: int| 0 <= k < densities@.len() ==> (#[trigger] densities@[k]).describes(
                views(trains@),
            ) && densities@[k].train_count > 0,
            density_sections(densities@).no_duplicates(),
            forall|i: int|
                0 <= i < trains@.len() ==> density_sections(densities@).contains(
                    (#[trigger] trains@[i]).current_section@,
                ),
            forall|a: int, b: int|
                0 <= a < b < densities@.len() ==> (#[trigger] densities@[a]).train_count >= (
                #[trigger] densities@[b]).train_count,
    {
        let ghost fleet = views(trains@);
        let counts = TrainService::section_counts(trains);
        let mut keys: Vec<i128> = Vec::new();
        let mut k: usize = 0;
        while k < counts.len()
            invariant
                0 <= k <= counts.len(),
                keys@.len() == k,
                forall|m: int| 0 <= m < k ==> #[trigger] keys@[m] == -(counts@[m].train_count as int),
            decreases counts.len() - k,
        {
            keys.push(-(counts[k].train_count as i128));
            k += 1;
        }
        let order = order_by_key(&keys);
        proof {
            lemma_stable_order(widened(keys@), keys@.len() as int);
        }
        let ghost listed = places(order@);
        let mut densities: Vec<SectionDensity> = Vec::new();
        let mut a: usize = 0;
        while a < order.len()
            invariant
                0 <= a <= order.len(),
                fleet == views(trains@),
                listed == places(order@),
                order@.len() == counts@.len(),
                keys@.len() == counts@.len(),
                tallies_sections(counts@, fleet),
                forall|m: int| 0 <= m < order@.len() ==> #[trigger] order@[m] < counts@.len(),
                densities@.len() == a,
                forall|m: int|
                    0 <= m < a ==> (#[trigger] densities@[m]).describes(fleet)
                        && densities@[m].section_id@ == counts@[listed[m]].section_id@
                        && densities@[m].train_count == counts@[listed[m]].train_count,
            decreases order.len() - a,
        {
            assert(listed[a as int] == order@[a as int]);
            let density = TrainService::density_of(trains, &counts[order[a]]);
            densities.push(density);
            a += 1;
        }
        proof {
            let wide = widened(keys@);
            assert(well_ordered(listed, wide, keys@.len() as int));
            assert forall|x: int, y: int| 0 <= x < y < densities@.len() implies (
            #[trigger] densities@[x]).train_count >= (#[trigger] densities@[y]).train_count by {
                assert(listed_before(wide, listed[x], listed[y]));
                assert(wide[listed[x]] == keys@[listed[x]] as int);
                assert(wide[listed[y]] == keys@[listed[y]] as int);
            }
            assert forall|k: int| 0 <= k < densities@.len() implies (
            #[trigger] densities@[k]).describes(fleet) && densities@[k].train_count > 0 by {
                assert(counts@[listed[k]].train_count > 0);
            }
            assert forall|x: int, y: int|
                0 <= x < densities@.len() && 0 <= y < densities@.len() && x != y implies density_sections(
                densities@,
            )[x] != density_sections(densities@)[y] by {
                if x < y {
                    assert(listed_before(wide, listed[x], listed[y]));
                } else {
                    assert(listed_before(wide, listed[y], listed[x]));
                }
                assert(listed[x] != listed[y]);
                assert(counted_sections(counts@)[listed[x]] != counted_sections(
                    counts@,
                )[listed[y]]);
            }
            assert forall|i: int| 0 <= i < trains@.len() implies density_sections(
                densities@,
            ).contains((#[trigger] trains@[i]).current_section@) by {
                let section = trains@[i].current_section@;
                assert(fleet[i].current_section == section);
                assert(counted_sections(counts@).contains(section));
                let c = choose|c: int|
                    0 <= c < counted_sections(counts@).len() && counted_sections(counts@)[c]
                        == section;
                assert(listed.contains(c));
                let m = choose|m: int| 0 <= m < listed.len() && listed[m] == c;
                assert(density_sections(densities@)[m] == section);
            }
        }
        densities
    }
}

} // verus!
