//! Operational alerts over a fleet snapshot: delay, overspeed, stale telemetry.

use vstd::prelude::*;
use crate::time::Timestamp;
use crate::text::{decimal, signed_decimal, one_decimal, push_decimal, push_signed_decimal,
    push_one_decimal};
use crate::models::views;
use crate::models::train::{Train, TrainView};
use crate::runtime::current_time;
use crate::services::train_service::{TrainService, TrainAlert, TrainAlertView, AlertType,
    AlertSeverity};

verus! {

/// A delay above this many minutes raises an alert.
pub const HIGH_DELAY_MINUTES: i32 = 30;

/// A delay above this many minutes is graded high.
pub const SEVERE_DELAY_MINUTES: i32 = 45;

/// A delay above this many minutes is graded critical.
pub const CRITICAL_DELAY_MINUTES: i32 = 60;

/// A speed above this many thousandths of a km/h raises an alert.
pub const SPEED_LIMIT_THOUSANDTHS: i64 = 120_000;

/// Telemetry older than this many milliseconds is stale.
pub const STALE_AFTER_MILLIS: i64 = 600_000;

pub open spec fn has_high_delay(train: TrainView) -> bool {
    train.delay_minutes > HIGH_DELAY_MINUTES
}

pub open spec fn is_overspeed(train: TrainView) -> bool {
    train.speed_kmh.thousandths > SPEED_LIMIT_THOUSANDTHS
}

pub open spec fn is_stale(train: TrainView, now: Timestamp) -> bool {
    train.updated_at.spec_older_than(now, STALE_AFTER_MILLIS as int)
}

/// The grade of a delay that raises an alert.
pub open spec fn delay_severity(delay: int) -> AlertSeverity {
    if delay > CRITICAL_DELAY_MINUTES {
        AlertSeverity::Critical
    } else if delay > SEVERE_DELAY_MINUTES {
        AlertSeverity::High
    } else {
        AlertSeverity::Medium
    }
}

/// "Train NAME (NUMBER)", the words that open every alert.
pub open spec fn train_label(train: TrainView) -> Seq<char> {
    "Train "@ + train.name + " ("@ + decimal(train.train_number as nat) + ")"@
}

pub open spec fn delay_alert(train: TrainView, now: Timestamp) -> TrainAlertView {
    TrainAlertView {
        id: train.id + "-delay"@,
        train_id: train.id,
        alert_type: AlertType::HighDelay,
        severity: delay_severity(train.delay_minutes as int),
        message: train_label(train) + " is delayed by "@ + signed_decimal(
            train.delay_minutes as int,
        ) + " minutes"@,
        current_section: train.current_section,
        created_at: now,
    }
}

pub open spec fn speed_alert(train: TrainView, now: Timestamp) -> TrainAlertView {
    TrainAlertView {
        id: train.id + "-speed"@,
        train_id: train.id,
        alert_type: AlertType::ExcessiveSpeed,
        severity: AlertSeverity::High,
        message: train_label(train) + " exceeding speed limit: "@ + one_decimal(
            train.speed_kmh.thousandths as int,
        ) + " km/h"@,
        current_section: train.current_section,
        created_at: now,
    }
}

pub open spec fn stale_alert(train: TrainView, now: Timestamp) -> TrainAlertView {
    TrainAlertView {
        id: train.id + "-stale"@,
        train_id: train.id,
        alert_type: AlertType::StaleData,
        severity: AlertSeverity::Medium,
        message: train_label(train) + " hasn't updated position in "@ + signed_decimal(
            now.spec_minutes_since(train.updated_at),
        ) + " minutes"@,
        current_section: train.current_section,
        created_at: now,
    }
}

/// The alerts that one train raises at `now`: for delay, then for speed, then
/// for stale telemetry, each only where its rule holds.
pub open spec fn alerts_for(train: TrainView, now: Timestamp) -> Seq<TrainAlertView> {
    let delay = if has_high_delay(train) {
        seq![delay_alert(train, now)]
    } else {
        Seq::empty()
    };
    let speed = if is_overspeed(train) {
        seq![speed_alert(train, now)]
    } else {
        Seq::empty()
    };
    let stale = if is_stale(train, now) {
        seq![stale_alert(train, now)]
    } else {
        Seq::empty()
    };
    delay + speed + stale
}

/// The alerts of a whole fleet: those of each train, in fleet order.
pub open spec fn fleet_alerts(trains: Seq<TrainView>, now: Timestamp) -> Seq<TrainAlertView>
    decreases trains.len(),
{
    if trains.len() == 0 {
        Seq::empty()
    } else {
        fleet_alerts(trains.drop_last(), now) + alerts_for(trains.last(), now)
    }
}

fn label_for(train: &Train) -> (label: String)
    ensures
        label@ == train_label(train@),
{
    let mut label = "Train ".to_owned();
    label.append(train.name.as_str());
    label.append(" (");
    push_decimal(&mut label, train.train_number as u64);
    label.append(")");
    label
}

fn alert_id(train: &Train, suffix: &str) -> (id: String)
    ensures
        id@ == train.id@ + suffix@,
{
    let mut id = train.id.clone();
    id.append(suffix);
    id
}

impl TrainService {
    /// The alert for a train whose delay is above the limit.
    pub fn delay_alert(train: &Train, now: Timestamp) -> (alert: TrainAlert)
        ensures
            alert@ == delay_alert(train@, now),
    {
        let mut message = label_for(train);
        message.append(" is delayed by ");
        push_signed_decimal(&mut message, train.delay_minutes as i64);
        message.append(" minutes");
        TrainAlert {
            id: alert_id(train, "-delay"),
            train_id: train.id.clone(),
            alert_type: AlertType::HighDelay,
            severity: if train.delay_minutes > CRITICAL_DELAY_MINUTES {
                AlertSeverity::Critical
            } else if train.delay_minutes > SEVERE_DELAY_MINUTES {
                AlertSeverity::High
            } else {
                AlertSeverity::Medium
            },
            message,
            current_section: train.current_section.clone(),
            created_at: now,
        }
    }

    /// The alert for a train that runs above the speed limit.
    pub fn speed_alert(train: &Train, now: Timestamp) -> (alert: TrainAlert)
        ensures
            alert@ == speed_alert(train@, now),
    {
        let mut message = label_for(train);
        message.append(" exceeding speed limit: ");
        push_one_decimal(&mut message, train.speed_kmh.thousandths);
        message.append(" km/h");
        TrainAlert {
            id: alert_id(train, "-speed"),
            train_id: train.id.clone(),
            alert_type: AlertType::ExcessiveSpeed,
            severity: AlertSeverity::High,
            message,
            current_section: train.current_section.clone(),
            created_at: now,
        }
    }

    /// The alert for a train that has not reported for too long.
    pub fn stale_alert(train: &Train, now: Timestamp) -> (alert: TrainAlert)
        ensures
            alert@ == stale_alert(train@, now),
    {
        let mut message = label_for(train);
        message.append(" hasn't updated position in ");
        push_signed_decimal(&mut message, now.minutes_since(train.updated_at));
        message.append(" minutes");
        TrainAlert {
            id: alert_id(train, "-stale"),
            train_id: train.id.clone(),
            alert_type: AlertType::StaleData,
            severity: AlertSeverity::Medium,
            message,
            current_section: train.current_section.clone(),
            created_at: now,
        }
    }

    /// Scans the fleet at the instant `now` and raises every alert that the
    /// three rules call for. Nothing is remembered between scans.
    pub fn alerts_at(&self, trains: &Vec<Train>, now: Timestamp) -> (alerts: Vec<TrainAlert>)
        ensures
            views(alerts@) == fleet_alerts(views(trains@), now),
    {
        let mut alerts: Vec<TrainAlert> = Vec::new();
        let mut i: usize = 0;
        assert(views(trains@).take(0) =~= Seq::<TrainView>::empty());
        assert(views(alerts@) =~= Seq::<TrainAlertView>::empty());
        while i < trains.len()
            invariant
                0 <= i <= trains.len(),
                views(alerts@) == fleet_alerts(views(trains@).take(i as int), now),
            decreases trains.len() - i,
        {
            let train = &trains[i];
            let ghost before = views(alerts@);
            let ghost mut added = Seq::<TrainAlertView>::empty();
            if train.delay_minutes > HIGH_DELAY_MINUTES {
                let alert = TrainService::delay_alert(train, now);
                proof {
                    added = added.push(alert@);
                }
                alerts.push(alert);
                assert(views(alerts@) =~= before + added);
            }
            if train.speed_kmh.thousandths > SPEED_LIMIT_THOUSANDTHS {
                let alert = TrainService::speed_alert(train, now);
                proof {
                    added = added.push(alert@);
                }
                alerts.push(alert);
                assert(views(alerts@) =~= before + added);
            }
            if train.updated_at.older_than(now, STALE_AFTER_MILLIS) {
                let alert = TrainService::stale_alert(train, now);
                proof {
                    added = added.push(alert@);
                }
                alerts.push(alert);
                assert(views(alerts@) =~= before + added);
            }
            proof {
                let prefix = views(trains@).take(i as int + 1);
                assert(prefix.drop_last() =~= views(trains@).take(i as int));
                assert(prefix.last() == train@);
                assert(added =~= alerts_for(train@, now));
                assert(views(alerts@) =~= before + added);
            }
            i += 1;
        }
        assert(views(trains@).take(trains.len() as int) =~= views(trains@));
        alerts
    }

    /// Scans the fleet at the current instant.
    pub fn generate_monitoring_alerts(&self, trains: &Vec<Train>) -> (alerts: Vec<TrainAlert>)
        ensures
            exists|now: Timestamp| views(alerts@) == fleet_alerts(views(trains@), now),
    {
        let now = current_time();
        self.alerts_at(trains, now)
    }
}

/// A train raises at most one alert for delay, and exactly one when its delay
/// is above thirty minutes: it comes first, graded critical above sixty
/// minutes, high above forty-five, medium otherwise.
pub proof fn lemma_high_delay_alert(train: TrainView, now: Timestamp)
    ensures
        train.delay_minutes > 30 ==> alerts_for(train, now).len() >= 1 && alerts_for(train, now)[0]
            == delay_alert(train, now),
        forall|i: int|
            0 <= i < alerts_for(train, now).len() ==> (#[trigger] alerts_for(
                train,
                now,
            )[i].alert_type == AlertType::HighDelay <==> i == 0 && train.delay_minutes > 30),
        train.delay_minutes > 60 ==> delay_alert(train, now).severity == AlertSeverity::Critical,
        45 < train.delay_minutes <= 60 ==> delay_alert(train, now).severity
            == AlertSeverity::High,
        30 < train.delay_minutes <= 45 ==> delay_alert(train, now).severity
            == AlertSeverity::Medium,
{
}

/// A fleet of trains that are on time, within the speed limit and freshly
/// reported raises no alert.
pub proof fn lemma_quiet_fleet_raises_nothing(trains: Seq<TrainView>, now: Timestamp)
    requires
        forall|i: int|
            0 <= i < trains.len() ==> !has_high_delay(#[trigger] trains[i]) && !is_overspeed(
                trains[i],
            ) && !is_stale(trains[i], now),
    ensures
        fleet_alerts(trains, now).len() == 0,
    decreases trains.len(),
{
    if trains.len() > 0 {
        lemma_quiet_fleet_raises_nothing(trains.drop_last(), now);
    }
}

} // verus!
