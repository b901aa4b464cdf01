//! Counts, sums and averages over a fleet snapshot.

use vstd::prelude::*;
use crate::time::{Timestamp, clamp_i64, div_toward_zero};
use crate::models::{Milli, TrainPriority, PriorityBreakdown, TrainStatistics, views};
use crate::models::train::{Train, TrainView, TrainStatus};
use crate::text::is_text;
use crate::services::train_service::TrainService;

verus! {

/// How many trains of the fleet are late.
pub open spec fn count_delayed(trains: Seq<TrainView>) -> nat
    decreases trains.len(),
{
    if trains.len() == 0 {
        0
    } else {
        count_delayed(trains.drop_last()) + if trains.last().delay_minutes > 0 {
            1nat
        } else {
            0nat
        }
    }
}

/// The delays of the whole fleet added up, early trains counting negative.
pub open spec fn sum_delays(trains: Seq<TrainView>) -> int
    decreases trains.len(),
{
    if trains.len() == 0 {
        0
    } else {
        sum_delays(trains.drop_last()) + trains.last().delay_minutes
    }
}

/// The delays of the late trains added up.
pub open spec fn sum_late_delays(trains: Seq<TrainView>) -> int
    decreases trains.len(),
{
    if trains.len() == 0 {
        0
    } else {
        sum_late_delays(trains.drop_last()) + if trains.last().delay_minutes > 0 {
            trains.last().delay_minutes as int
        } else {
            0
        }
    }
}

/// The speeds of the whole fleet added up, in thousandths of a km/h.
pub open spec fn sum_speeds(trains: Seq<TrainView>) -> int
    decreases trains.len(),
{
    if trains.len() == 0 {
        0
    } else {
        sum_speeds(trains.drop_last()) + trains.last().speed_kmh.thousandths
    }
}

/// The highest speed of the fleet, and zero for a fleet at rest.
pub open spec fn top_speed(trains: Seq<TrainView>) -> int
    decreases trains.len(),
{
    if trains.len() == 0 {
        0
    } else {
        let earlier = top_speed(trains.drop_last());
        if trains.last().speed_kmh.thousandths > earlier {
            trains.last().speed_kmh.thousandths as int
        } else {
            earlier
        }
    }
}

pub open spec fn count_status(trains: Seq<TrainView>, status: TrainStatus) -> nat
    decreases trains.len(),
{
    if trains.len() == 0 {
        0
    } else {
        count_status(trains.drop_last(), status) + if trains.last().status == status {
            1nat
        } else {
            0nat
        }
    }
}

pub open spec fn count_priority(trains: Seq<TrainView>, priority: TrainPriority) -> nat
    decreases trains.len(),
{
    if trains.len() == 0 {
        0
    } else {
        count_priority(trains.drop_last(), priority) + if trains.last().priority == priority {
            1nat
        } else {
            0nat
        }
    }
}

pub open spec fn count_in_section(trains: Seq<TrainView>, section: Seq<char>) -> nat
    decreases trains.len(),
{
    if trains.len() == 0 {
        0
    } else {
        count_in_section(trains.drop_last(), section) + if trains.last().current_section
            == section {
            1nat
        } else {
            0nat
        }
    }
}

/// `total / count` in thousandths, rounded toward zero and held in range;
/// zero where there is nothing to average.
pub open spec fn mean(total: int, count: int) -> Milli {
    if count > 0 {
        Milli { thousandths: clamp_i64(div_toward_zero(total, count)) as i64 }
    } else {
        Milli { thousandths: 0 }
    }
}

/// The share of `part` in `whole` as a percentage in thousandths; zero for
/// an empty whole.
pub open spec fn percentage(part: int, whole: int) -> Milli {
    mean(part * 100_000, whole)
}

/// How many trains stand in each status.
#[derive(Clone, Copy, Debug, PartialEq, Eq, Structural)]
pub struct StatusTally {
    pub scheduled: usize,
    pub running: usize,
    pub delayed: usize,
    pub at_station: usize,
    pub terminated: usize,
    pub cancelled: usize,
}

impl StatusTally {
    pub open spec fn count_of(self, status: TrainStatus) -> usize {
        match status {
            TrainStatus::Scheduled => self.scheduled,
            TrainStatus::Running => self.running,
            TrainStatus::Delayed => self.delayed,
            TrainStatus::AtStation => self.at_station,
            TrainStatus::Terminated => self.terminated,
            TrainStatus::Cancelled => self.cancelled,
        }
    }
}

/// How many trains run in each precedence class.
#[derive(Clone, Copy, Debug, PartialEq, Eq, Structural)]
pub struct PriorityTally {
    pub emergency: usize,
    pub mail: usize,
    pub express: usize,
    pub passenger: usize,
    pub freight: usize,
    pub maintenance: usize,
}

impl PriorityTally {
    pub open spec fn count_of(self, priority: TrainPriority) -> usize {
        match priority {
            TrainPriority::Emergency => self.emergency,
            TrainPriority::Mail => self.mail,
            TrainPriority::Express => self.express,
            TrainPriority::Passenger => self.passenger,
            TrainPriority::Freight => self.freight,
            TrainPriority::Maintenance => self.maintenance,
        }
    }
}

/// How many trains stand in one section.
#[derive(Debug)]
pub struct SectionCount {
    pub section_id: String,
    pub train_count: usize,
}

/// The sections that a list of counts speaks of.
pub open spec fn counted_sections(counts: Seq<SectionCount>) -> Seq<Seq<char>> {
    counts.map_values(|c: SectionCount| c.section_id@)
}

/// Whether `counts` tells, for each section that holds a train of the
/// fleet and for no other, how many trains it holds, each section once.
pub open spec fn tallies_sections(counts: Seq<SectionCount>, trains: Seq<TrainView>) -> bool {
    &&& counted_sections(counts).no_duplicates()
    &&& forall|k: int|
        0 <= k < counts.len() ==> (#[trigger] counts[k]).train_count > 0 && counts[k].train_count
            == count_in_section(trains, counts[k].section_id@)
    &&& forall|i: int|
        0 <= i < trains.len() ==> counted_sections(counts).contains(
            (#[trigger] trains[i]).current_section,
        )
}

/// The figures of a fleet.
#[derive(Debug)]
pub struct PerformanceAnalytics {
    pub total_trains: usize,
    pub delayed_trains: usize,
    pub on_time_percentage: Milli,
    pub average_speed: Milli,
    pub max_speed: Milli,
    pub total_delay_minutes: i64,
    pub average_delay_minutes: Milli,
    pub status_distribution: StatusTally,
    pub priority_distribution: PriorityTally,
    pub section_utilization: Vec<SectionCount>,
    pub timestamp: Timestamp,
}

impl PerformanceAnalytics {
    /// Whether these are the figures of `trains`, taken at `now`. An empty
    /// fleet has all figures zero and the instant zero.
    pub open spec fn describes(&self, trains: Seq<TrainView>, now: Timestamp) -> bool {
        &&& self.total_trains == trains.len()
        &&& self.delayed_trains == count_delayed(trains)
        &&& self.on_time_percentage == percentage(
            trains.len() - count_delayed(trains),
            trains.len() as int,
        )
        &&& self.average_speed == mean(sum_speeds(trains), trains.len() as int)
        &&& self.max_speed.thousandths == top_speed(trains)
        &&& self.total_delay_minutes == clamp_i64(sum_delays(trains))
        &&& self.average_delay_minutes == mean(
            sum_late_delays(trains) * 1000,
            count_delayed(trains) as int,
        )
        &&& forall|s: TrainStatus| #[trigger]
            self.status_distribution.count_of(s) == count_status(trains, s)
        &&& forall|p: TrainPriority| #[trigger]
            self.priority_distribution.count_of(p) == count_priority(trains, p)
        &&& tallies_sections(self.section_utilization@, trains)
        &&& self.timestamp == if trains.len() == 0 {
            Timestamp { millis: 0 }
        } else {
            now
        }
    }
}

/// No count over a fleet exceeds the size of the fleet.
pub proof fn lemma_counts_bounded(trains: Seq<TrainView>)
    ensures
        count_delayed(trains) <= trains.len(),
        forall|s: TrainStatus| #[trigger] count_status(trains, s) <= trains.len(),
        forall|p: TrainPriority| #[trigger] count_priority(trains, p) <= trains.len(),
        forall|c: Seq<char>| #[trigger] count_in_section(trains, c) <= trains.len(),
        0 <= sum_late_delays(trains) <= trains.len() * 0x7fff_ffff,
        -trains.len() * 0x8000_0000 <= sum_delays(trains) <= trains.len() * 0x7fff_ffff,
        -trains.len() * 0x8000_0000_0000_0000 <= sum_speeds(trains) <= trains.len()
            * 0x7fff_ffff_ffff_ffff,
        0 <= top_speed(trains) <= 0x7fff_ffff_ffff_ffff,
        count_delayed(trains) == 0 ==> sum_late_delays(trains) == 0,
    decreases trains.len(),
{
    if trains.len() > 0 {
        lemma_counts_bounded(trains.drop_last());
        assert forall|s: TrainStatus| #[trigger] count_status(trains, s) <= trains.len() by {
            assert(count_status(trains.drop_last(), s) <= trains.len() - 1);
        }
        assert forall|p: TrainPriority| #[trigger] count_priority(trains, p) <= trains.len() by {
            assert(count_priority(trains.drop_last(), p) <= trains.len() - 1);
        }
        assert forall|c: Seq<char>| #[trigger] count_in_section(trains, c) <= trains.len() by {
            assert(count_in_section(trains.drop_last(), c) <= trains.len() - 1);
        }
    }
}

/// Every train is counted in exactly one status and in exactly one class.
pub proof fn lemma_tallies_add_up(trains: Seq<TrainView>)
    ensures
        count_status(trains, TrainStatus::Scheduled) + count_status(trains, TrainStatus::Running)
            + count_status(trains, TrainStatus::Delayed) + count_status(
            trains,
            TrainStatus::AtStation,
        ) + count_status(trains, TrainStatus::Terminated) + count_status(
            trains,
            TrainStatus::Cancelled,
        ) == trains.len(),
        count_priority(trains, TrainPriority::Emergency) + count_priority(
            trains,
            TrainPriority::Mail,
        ) + count_priority(trains, TrainPriority::Express) + count_priority(
            trains,
            TrainPriority::Passenger,
        ) + count_priority(trains, TrainPriority::Freight) + count_priority(
            trains,
            TrainPriority::Maintenance,
        ) == trains.len(),
    decreases trains.len(),
{
    if trains.len() > 0 {
        lemma_tallies_add_up(trains.drop_last());
    }
}

/// A section in which no train of the fleet stands counts zero trains.
pub proof fn lemma_unvisited_section(trains: Seq<TrainView>, section: Seq<char>)
    requires
        forall|i: int| 0 <= i < trains.len() ==> (#[trigger] trains[i]).current_section != section,
    ensures
        count_in_section(trains, section) == 0,
    decreases trains.len(),
{
    if trains.len() > 0 {
        assert forall|i: int| 0 <= i < trains.len() - 1 implies (
        #[trigger] trains.drop_last()[i]).current_section != section by {
            assert(trains.drop_last()[i] == trains[i]);
        }
        lemma_unvisited_section(trains.drop_last(), section);
        assert(trains.last() == trains[trains.len() - 1]);
    }
}

/// `total / count` as `mean` defines it.
pub(crate) fn mean_of(total: i128, count: u64) -> (m: Milli)
    requires
        total > i128::MIN,
    ensures
        m == mean(total as int, count as int),
{
    if count == 0 {
        return Milli { thousandths: 0 };
    }
    let divisor: i128 = count as i128;
    let quotient: i128 = if total >= 0 {
        total / divisor
    } else {
        -((-total) / divisor)
    };
    let held: i64 = if quotient < i64::MIN as i128 {
        i64::MIN
    } else if quotient > i64::MAX as i128 {
        i64::MAX
    } else {
        quotient as i64
    };
    Milli { thousandths: held }
}

fn find_section(counts: &Vec<SectionCount>, section: &str) -> (place: Option<usize>)
    ensures
        match place {
            Some(k) => k < counts@.len() && counted_sections(counts@)[k as int] == section@,
            None => !counted_sections(counts@).contains(section@),
        },
{
    let mut k: usize = 0;
    while k < counts.len()
        invariant
            0 <= k <= counts.len(),
            forall|m: int| 0 <= m < k ==> counted_sections(counts@)[m] != section@,
        decreases counts.len() - k,
    {
        if is_text(&counts[k].section_id, section) {
            return Some(k);
        }
        k += 1;
    }
    None
}

impl TrainService {
    /// How many trains stand in each section that holds a train, the
    /// sections in the order in which the fleet first names them.
    pub fn section_counts(trains: &Vec<Train>) -> (counts: Vec<SectionCount>)
        ensures
            tallies_sections(counts@, views(trains@)),
            counts@.len() <= trains@.len(),
    {
        let ghost fleet = views(trains@);
        let mut counts: Vec<SectionCount> = Vec::new();
        let mut i: usize = 0;
        while i < trains.len()
            invariant
                0 <= i <= trains.len(),
                fleet == views(trains@),
                counts@.len() <= i,
                tallies_sections(counts@, fleet.take(i as int)),
            decreases trains.len() - i,
        {
            let ghost before = counts@;
            let ghost seen = fleet.take(i as int);
            let ghost upto = fleet.take(i as int + 1);
            let ghost section = trains@[i as int].current_section@;
            proof {
                assert(upto.drop_last() =~= seen);
                assert(upto.last() == trains@[i as int]@);
                lemma_counts_bounded(seen);
            }
            match find_section(&counts, trains[i].current_section.as_str()) {
                Some(at) => {
                    let raised = SectionCount {
                        section_id: counts[at].section_id.clone(),
                        train_count: counts[at].train_count + 1,
                    };
                    counts.set(at, raised);
                    proof {
                        assert(counted_sections(counts@) =~= counted_sections(before));
                        assert forall|k: int| 0 <= k < counts@.len() implies (
                        #[trigger] counts@[k]).train_count > 0 && counts@[k].train_count
                            == count_in_section(upto, counts@[k].section_id@) by {
                            if k != at {
                                assert(counts@[k] == before[k]);
                                assert(counted_sections(before)[k] != counted_sections(
                                    before,
                                )[at as int]);
                            }
                        }
                        assert forall|m: int| 0 <= m < upto.len() implies counted_sections(
                            counts@,
                        ).contains((#[trigger] upto[m]).current_section) by {
                            if m < i {
                                assert(upto[m] == seen[m]);
                            } else {
                                assert(counted_sections(counts@)[at as int] == section);
                            }
                        }
                    }
                },
                None => {
                    counts.push(
                        SectionCount {
                            section_id: trains[i].current_section.clone(),
                            train_count: 1,
                        },
                    );
                    proof {
                        assert(counted_sections(counts@) =~= counted_sections(before).push(
                            section,
                        ));
                        assert forall|m: int| 0 <= m < seen.len() implies (
                        #[trigger] seen[m]).current_section != section by {
                            assert(counted_sections(before).contains(seen[m].current_section));
                        }
                        lemma_unvisited_section(seen, section);
                        assert forall|k: int| 0 <= k < counts@.len() implies (
                        #[trigger] counts@[k]).train_count > 0 && counts@[k].train_count
                            == count_in_section(upto, counts@[k].section_id@) by {
                            if k < before.len() {
                                assert(counts@[k] == before[k]);
                                assert(counted_sections(before)[k] == before[k].section_id@);
                                assert(counted_sections(before).contains(before[k].section_id@));
                            }
                        }
                        assert forall|m: int| 0 <= m < upto.len() implies counted_sections(
                            counts@,
                        ).contains((#[trigger] upto[m]).current_section) by {
                            if m < i {
                                assert(upto[m] == seen[m]);
                                let c = seen[m].current_section;
                                assert(counted_sections(before).contains(c));
                                let k = choose|k: int|
                                    0 <= k < counted_sections(before).len() && counted_sections(
                                        before,
                                    )[k] == c;
                                assert(counted_sections(counts@)[k] == c);
                            } else {
                                assert(counted_sections(counts@)[before.len() as int]
                                    == section);
                            }
                        }
                    }
                },
            }
            i += 1;
        }
        assert(fleet.take(trains.len() as int) =~= fleet);
        counts
    }

    /// The figures of a fleet, taken at `now`.
    pub fn performance_at(&self, trains: &Vec<Train>, now: Timestamp) -> (figures:
        PerformanceAnalytics)
        ensures
            figures.describes(views(trains@), now),
    {
        let ghost fleet = views(trains@);
        let total = trains.len();
        let mut delayed: usize = 0;
        let mut speed_sum: i128 = 0;
        let mut top: i64 = 0;
        let mut delay_sum: i128 = 0;
        let mut late_sum: i128 = 0;
        let mut statuses = StatusTally {
            scheduled: 0,
            running: 0,
            delayed: 0,
            at_station: 0,
            terminated: 0,
            cancelled: 0,
        };
        let mut priorities = PriorityTally {
            emergency: 0,
            mail: 0,
            express: 0,
            passenger: 0,
            freight: 0,
            maintenance: 0,
        };
        let mut i: usize = 0;
        while i < total
            invariant
                0 <= i <= total,
                total == trains.len(),
                fleet == views(trains@),
                delayed == count_delayed(fleet.take(i as int)),
                speed_sum == sum_speeds(fleet.take(i as int)),
                top == top_speed(fleet.take(i as int)),
                delay_sum == sum_delays(fleet.take(i as int)),
                late_sum == sum_late_delays(fleet.take(i as int)),
                forall|s: TrainStatus| #[trigger]
                    statuses.count_of(s) == count_status(fleet.take(i as int), s),
                forall|p: TrainPriority| #[trigger]
                    priorities.count_of(p) == count_priority(fleet.take(i as int), p),
            decreases total - i,
        {
            let ghost seen = fleet.take(i as int);
            let ghost upto = fleet.take(i as int + 1);
            proof {
                assert(upto.drop_last() =~= seen);
                assert(upto.last() == trains@[i as int]@);
                lemma_counts_bounded(seen);
                lemma_counts_bounded(upto);
                assert(statuses.count_of(trains@[i as int].status) == count_status(
                    seen,
                    trains@[i as int].status,
                ));
                assert(priorities.count_of(trains@[i as int].priority) == count_priority(
                    seen,
                    trains@[i as int].priority,
                ));
                assert(count_status(seen, trains@[i as int].status) <= i);
                assert(count_priority(seen, trains@[i as int].priority) <= i);
            }
            let train = &trains[i];
            if train.delay_minutes > 0 {
                delayed = delayed + 1;
                late_sum = late_sum + train.delay_minutes as i128;
            }
            delay_sum = delay_sum + train.delay_minutes as i128;
            speed_sum = speed_sum + train.speed_kmh.thousandths as i128;
            if train.speed_kmh.thousandths > top {
                top = train.speed_kmh.thousandths;
            }
            let ghost old_statuses = statuses;
            match train.status {
                TrainStatus::Scheduled => {
                    statuses.scheduled = statuses.scheduled + 1;
                },
                TrainStatus::Running => {
                    statuses.running = statuses.running + 1;
                },
                TrainStatus::Delayed => {
                    statuses.delayed = statuses.delayed + 1;
                },
                TrainStatus::AtStation => {
                    statuses.at_station = statuses.at_station + 1;
                },
                TrainStatus::Terminated => {
                    statuses.terminated = statuses.terminated + 1;
                },
                TrainStatus::Cancelled => {
                    statuses.cancelled = statuses.cancelled + 1;
                },
            }
            let ghost old_priorities = priorities;
            match train.priority {
                TrainPriority::Emergency => {
                    priorities.emergency = priorities.emergency + 1;
                },
                TrainPriority::Mail => {
                    priorities.mail = priorities.mail + 1;
                },
                TrainPriority::Express => {
                    priorities.express = priorities.express + 1;
                },
                TrainPriority::Passenger => {
                    priorities.passenger = priorities.passenger + 1;
                },
                TrainPriority::Freight => {
                    priorities.freight = priorities.freight + 1;
                },
                TrainPriority::Maintenance => {
                    priorities.maintenance = priorities.maintenance + 1;
                },
            }
            proof {
                assert forall|s: TrainStatus| #[trigger]
                    statuses.count_of(s) == count_status(upto, s) by {
                    assert(old_statuses.count_of(s) == count_status(seen, s));
                }
                assert forall|p: TrainPriority| #[trigger]
                    priorities.count_of(p) == count_priority(upto, p) by {
                    assert(old_priorities.count_of(p) == count_priority(seen, p));
                }
            }
            i += 1;
        }
        proof {
            assert(fleet.take(total as int) =~= fleet);
            lemma_counts_bounded(fleet);
        }
        let sections = TrainService::section_counts(trains);
        let held_delay: i64 = if delay_sum < i64::MIN as i128 {
            i64::MIN
        } else if delay_sum > i64::MAX as i128 {
            i64::MAX
        } else {
            delay_sum as i64
        };
        PerformanceAnalytics {
            total_trains: total,
            delayed_trains: delayed,
            on_time_percentage: mean_of((total - delayed) as i128 * 100_000, total as u64),
            average_speed: mean_of(speed_sum, total as u64),
            max_speed: Milli { thousandths: top },
            total_delay_minutes: held_delay,
            average_delay_minutes: mean_of(late_sum * 1000, delayed as u64),
            status_distribution: statuses,
            priority_distribution: priorities,
            section_utilization: sections,
            timestamp: if total == 0 {
                Timestamp { millis: 0 }
            } else {
                now
            },
        }
    }

    /// The figures of a fleet, taken at the current instant.
    pub fn calculate_performance_analytics(&self, trains: &Vec<Train>) -> (figures:
        PerformanceAnalytics)
        ensures
            exists|now: Timestamp| #[trigger] figures.describes(views(trains@), now),
    {
        let now = crate::runtime::current_time();
        let figures = self.performance_at(trains, now);
        assert(figures.describes(views(trains@), now));
        figures
    }

    /// The headline figures of a fleet: how many trains, how many of them
    /// late, the mean delay of the late ones, and the trains of each class.
    pub fn calculate_train_statistics(&self, trains: &Vec<Train>) -> (statistics: TrainStatistics)
        requires
            trains@.len() <= u32::MAX,
        ensures
            statistics.total_active_trains == trains@.len(),
            statistics.delayed_trains == count_delayed(views(trains@)),
            statistics.on_time_trains == trains@.len() - count_delayed(views(trains@)),
            statistics.average_delay_minutes == mean(
                sum_late_delays(views(trains@)) * 1000,
                count_delayed(views(trains@)) as int,
            ),
            forall|p: TrainPriority| #[trigger]
                statistics.priority_breakdown.count_of(p) == count_priority(views(trains@), p),
    {
        let figures = self.performance_at(trains, Timestamp { millis: 0 });
        proof {
            lemma_counts_bounded(views(trains@));
        }
        let tally = figures.priority_distribution;
        let breakdown = PriorityBreakdown {
            emergency: tally.emergency as u32,
            mail: tally.mail as u32,
            express: tally.express as u32,
            passenger: tally.passenger as u32,
            freight: tally.freight as u32,
            maintenance: tally.maintenance as u32,
        };
        proof {
            assert forall|p: TrainPriority| #[trigger]
                breakdown.count_of(p) == count_priority(views(trains@), p) by {
                assert(tally.count_of(p) == count_priority(views(trains@), p));
            }
        }
        TrainStatistics {
            total_active_trains: figures.total_trains as u32,
            delayed_trains: figures.delayed_trains as u32,
            on_time_trains: (figures.total_trains - figures.delayed_trains) as u32,
            average_delay_minutes: figures.average_delay_minutes,
            priority_breakdown: breakdown,
        }
    }
}

impl TrainService {
    /// How many trains of the fleet are late, and the delays of the whole
    /// fleet added up.
    pub fn delay_figures(trains: &Vec<Train>) -> (figures: (usize, i128))
        ensures
            figures.0 == count_delayed(views(trains@)),
            figures.1 == sum_delays(views(trains@)),
    {
        let ghost fleet = views(trains@);
        let mut delayed: usize = 0;
        let mut total: i128 = 0;
        let mut i: usize = 0;
        while i < trains.len()
            invariant
                0 <= i <= trains.len(),
                fleet == views(trains@),
                delayed == count_delayed(fleet.take(i as int)),
                total == sum_delays(fleet.take(i as int)),
            decreases trains.len() - i,
        {
            proof {
                let upto = fleet.take(i as int + 1);
                assert(upto.drop_last() =~= fleet.take(i as int));
                assert(upto.last() == trains@[i as int]@);
                lemma_counts_bounded(fleet.take(i as int));
                lemma_counts_bounded(upto);
            }
            if trains[i].delay_minutes > 0 {
                delayed = delayed + 1;
            }
            total = total + trains[i].delay_minutes as i128;
            i += 1;
        }
        assert(fleet.take(trains.len() as int) =~= fleet);
        (delayed, total)
    }
}

} // verus!
