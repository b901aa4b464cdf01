//! Queries and answers of the analytics endpoints.

use vstd::prelude::*;
use crate::time::Timestamp;
use crate::models::{Milli, TrainStatistics, views};
use crate::models::train::{Train, TrainView};
use crate::models::events::DisruptionEvent;
use crate::services::train_service::TrainService;
use crate::services::analytics::{count_delayed, sum_speeds, mean, mean_of, percentage,
    lemma_counts_bounded};

verus! {

#[derive(Debug)]
pub struct AnalyticsQuery {
    /// The period in hours; a day where none is named.
    pub hours: Option<i64>,
    pub section_id: Option<String>,
}

impl AnalyticsQuery {
    /// The hours asked for: a day where the query names none.
    pub fn hours_or_default(&self) -> (hours: i64)
        ensures
            hours == match self.hours {
                Some(h) => h,
                None => 24i64,
            },
    {
        match self.hours {
            Some(h) => h,
            None => 24,
        }
    }
}

#[derive(Clone, Copy, Debug, PartialEq, Eq, Structural)]
pub struct KPIResponse {
    pub punctuality_percent: Milli,
    pub average_delay_minutes: Milli,
    pub throughput_trains_per_hour: Milli,
    pub utilization_percent: Milli,
    pub conflicts_resolved: u32,
    pub total_trains_processed: u32,
    pub period_hours: i64,
    pub timestamp: Timestamp,
}

#[derive(Debug)]
pub struct SectionAnalytics {
    pub section_id: String,
    pub section_name: String,
    pub trains_processed: u32,
    pub average_delay: Milli,
    pub utilization_percent: Milli,
    pub conflicts: u32,
    pub capacity_utilization: Milli,
}

#[derive(Clone, Copy, Debug, PartialEq, Eq, Structural)]
pub struct SystemOverview {
    pub total_active_trains: u32,
    pub delayed_trains: u32,
    pub on_time_trains: u32,
    pub total_sections: u32,
    pub active_disruptions: u32,
    pub system_utilization: Milli,
    pub average_speed_kmh: Milli,
    pub last_updated: Timestamp,
}

/// A train with at most this many minutes of delay counts as punctual.
pub const PUNCTUAL_WITHIN_MINUTES: i32 = 5;

/// How many trains of the fleet are punctual.
pub open spec fn count_punctual(trains: Seq<TrainView>) -> nat
    decreases trains.len(),
{
    if trains.len() == 0 {
        0
    } else {
        count_punctual(trains.drop_last()) + if trains.last().delay_minutes
            <= PUNCTUAL_WITHIN_MINUTES {
            1nat
        } else {
            0nat
        }
    }
}

/// How many of the disruptions still last.
pub open spec fn count_active(disruptions: Seq<DisruptionEvent>) -> nat
    decreases disruptions.len(),
{
    if disruptions.len() == 0 {
        0
    } else {
        count_active(disruptions.drop_last()) + if disruptions.last().spec_is_active() {
            1nat
        } else {
            0nat
        }
    }
}

/// No more trains are punctual, and no more disruptions last, than there
/// are.
pub proof fn lemma_shares_bounded(trains: Seq<TrainView>, disruptions: Seq<DisruptionEvent>)
    ensures
        count_punctual(trains) <= trains.len(),
        count_active(disruptions) <= disruptions.len(),
    decreases trains.len() + disruptions.len(),
{
    if trains.len() > 0 {
        lemma_shares_bounded(trains.drop_last(), disruptions);
    } else if disruptions.len() > 0 {
        lemma_shares_bounded(trains, disruptions.drop_last());
    }
}

/// The share of punctual trains in percent, and a full hundred for an
/// empty fleet.
pub open spec fn punctuality(trains: Seq<TrainView>) -> Milli {
    if trains.len() > 0 {
        percentage(count_punctual(trains) as int, trains.len() as int)
    } else {
        Milli { thousandths: 100_000 }
    }
}

fn punctual_and_active(trains: &Vec<Train>, disruptions: &Vec<DisruptionEvent>) -> (counts: (
    usize,
    usize,
))
    ensures
        counts.0 == count_punctual(views(trains@)),
        counts.1 == count_active(disruptions@),
{
    let ghost fleet = views(trains@);
    let mut punctual: usize = 0;
    let mut i: usize = 0;
    while i < trains.len()
        invariant
            0 <= i <= trains.len(),
            fleet == views(trains@),
            punctual == count_punctual(fleet.take(i as int)),
        decreases trains.len() - i,
    {
        proof {
            let upto = fleet.take(i as int + 1);
            assert(upto.drop_last() =~= fleet.take(i as int));
            assert(upto.last() == trains@[i as int]@);
            lemma_shares_bounded(fleet.take(i as int), disruptions@);
        }
        if trains[i].delay_minutes <= PUNCTUAL_WITHIN_MINUTES {
            punctual = punctual + 1;
        }
        i += 1;
    }
    assert(fleet.take(trains.len() as int) =~= fleet);
    let mut active: usize = 0;
    let mut k: usize = 0;
    while k < disruptions.len()
        invariant
            0 <= k <= disruptions.len(),
            active == count_active(disruptions@.take(k as int)),
        decreases disruptions.len() - k,
    {
        proof {
            let upto = disruptions@.take(k as int + 1);
            assert(upto.drop_last() =~= disruptions@.take(k as int));
            assert(upto.last() == disruptions@[k as int]);
            lemma_shares_bounded(fleet, disruptions@.take(k as int));
        }
        if disruptions[k].is_active() {
            active = active + 1;
        }
        k += 1;
    }
    assert(disruptions@.take(disruptions.len() as int) =~= disruptions@);
    (punctual, active)
}

/// The key figures of the last `hours` hours, written at `now`: the share
/// of punctual trains, the mean delay, the trains per hour, and the
/// disruptions that have ended.
pub fn calculate_kpis(
    statistics: &TrainStatistics,
    trains: &Vec<Train>,
    disruptions: &Vec<DisruptionEvent>,
    hours: i64,
    now: Timestamp,
) -> (kpis: KPIResponse)
    requires
        disruptions@.len() <= u32::MAX,
    ensures
        kpis.punctuality_percent == punctuality(views(trains@)),
        kpis.average_delay_minutes == statistics.average_delay_minutes,
        kpis.throughput_trains_per_hour == mean(
            statistics.total_active_trains * 1000,
            hours as int,
        ),
        kpis.utilization_percent.thousandths == 75_000,
        kpis.conflicts_resolved == disruptions@.len() - count_active(disruptions@),
        kpis.total_trains_processed == statistics.total_active_trains,
        kpis.period_hours == hours,
        kpis.timestamp == now,
{
    let counts = punctual_and_active(trains, disruptions);
    proof {
        lemma_shares_bounded(views(trains@), disruptions@);
    }
    let punctuality_percent = if trains.len() > 0 {
        mean_of(counts.0 as i128 * 100_000, trains.len() as u64)
    } else {
        Milli { thousandths: 100_000 }
    };
    let throughput = if hours > 0 {
        mean_of(statistics.total_active_trains as i128 * 1000, hours as u64)
    } else {
        Milli { thousandths: 0 }
    };
    KPIResponse {
        punctuality_percent,
        average_delay_minutes: statistics.average_delay_minutes,
        throughput_trains_per_hour: throughput,
        utilization_percent: Milli { thousandths: 75_000 },
        conflicts_resolved: (disruptions.len() - counts.1) as u32,
        total_trains_processed: statistics.total_active_trains,
        period_hours: hours,
        timestamp: now,
    }
}

/// The state of the whole system at `now`.
pub fn calculate_system_overview(trains: &Vec<Train>, disruptions: &Vec<DisruptionEvent>, now: Timestamp) -> (overview:
    SystemOverview)
    requires
        trains@.len() <= u32::MAX,
        disruptions@.len() <= u32::MAX,
    ensures
        overview.total_active_trains == trains@.len(),
        overview.delayed_trains == count_delayed(views(trains@)),
        overview.on_time_trains == trains@.len() - count_delayed(views(trains@)),
        overview.total_sections == 50,
        overview.active_disruptions == count_active(disruptions@),
        overview.system_utilization.thousandths == 68_500,
        overview.average_speed_kmh == mean(sum_speeds(views(trains@)), trains@.len() as int),
        overview.last_updated == now,
{
    let service = TrainService::new();
    let figures = service.performance_at(trains, now);
    let counts = punctual_and_active(trains, disruptions);
    proof {
        lemma_counts_bounded(views(trains@));
        lemma_shares_bounded(views(trains@), disruptions@);
    }
    SystemOverview {
        total_active_trains: trains.len() as u32,
        delayed_trains: figures.delayed_trains as u32,
        on_time_trains: (trains.len() - figures.delayed_trains) as u32,
        total_sections: 50,
        active_disruptions: counts.1 as u32,
        system_utilization: Milli { thousandths: 68_500 },
        average_speed_kmh: figures.average_speed,
        last_updated: now,
    }
}

/// The figures of the two sections that stand for all until sections are
/// measured.
pub fn calculate_section_analytics() -> (analytics: Vec<SectionAnalytics>)
    ensures
        analytics@.len() == 2,
        analytics@[0].section_id@ == "SEC001"@,
        analytics@[0].section_name@ == "Delhi-Gurgaon"@,
        analytics@[0].trains_processed == 25,
        analytics@[0].average_delay.thousandths == 8_500,
        analytics@[0].utilization_percent.thousandths == 85_000,
        analytics@[0].conflicts == 2,
        analytics@[0].capacity_utilization.thousandths == 75_000,
        analytics@[1].section_id@ == "SEC002"@,
        analytics@[1].section_name@ == "Mumbai-Pune"@,
        analytics@[1].trains_processed == 32,
        analytics@[1].average_delay.thousandths == 15_200,
        analytics@[1].utilization_percent.thousandths == 92_000,
        analytics@[1].conflicts == 5,
        analytics@[1].capacity_utilization.thousandths == 88_000,
{
    let mut analytics: Vec<SectionAnalytics> = Vec::new();
    analytics.push(
        SectionAnalytics {
            section_id: "SEC001".to_owned(),
            section_name: "Delhi-Gurgaon".to_owned(),
            trains_processed: 25,
            average_delay: Milli { thousandths: 8_500 },
            utilization_percent: Milli { thousandths: 85_000 },
            conflicts: 2,
            capacity_utilization: Milli { thousandths: 75_000 },
        },
    );
    analytics.push(
        SectionAnalytics {
            section_id: "SEC002".to_owned(),
            section_name: "Mumbai-Pune".to_owned(),
            trains_processed: 32,
            average_delay: Milli { thousandths: 15_200 },
            utilization_percent: Milli { thousandths: 92_000 },
            conflicts: 5,
            capacity_utilization: Milli { thousandths: 88_000 },
        },
    );
    analytics
}

} // verus!
