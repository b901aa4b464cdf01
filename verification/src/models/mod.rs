//! The domain model: trains, track sections, events and optimization payloads.

use vstd::prelude::*;
use crate::time::Timestamp;

pub mod train;
pub mod section;
pub mod events;
pub mod optimization;

verus! {

/// A decimal quantity held as a whole number of thousandths of its unit:
/// `Milli { thousandths: 120_500 }` stands for 120.5.
#[derive(Clone, Copy, Debug, PartialEq, Eq, Structural)]
pub struct Milli {
    pub thousandths: i64,
}

impl Milli {
    pub open spec fn spec_from_units(units: int) -> Milli {
        Milli { thousandths: (units * 1000) as i64 }
    }

    /// The quantity `units`, with no fractional part.
    pub fn from_units(units: i32) -> (m: Milli)
        ensures
            m == Milli::spec_from_units(units as int),
            m.thousandths == units * 1000,
    {
        Milli { thousandths: units as i64 * 1000 }
    }

    pub fn zero() -> (m: Milli)
        ensures
            m.thousandths == 0,
    {
        Milli { thousandths: 0 }
    }

    pub fn is_positive(&self) -> (b: bool)
        ensures
            b == (self.thousandths > 0),
    {
        self.thousandths > 0
    }
}

/// A position on the WGS84 ellipsoid, each angle in units of 1e-7 degree.
#[derive(Clone, Copy, Debug, PartialEq, Eq, Structural)]
pub struct GeoPoint {
    pub latitude_e7: i64,
    pub longitude_e7: i64,
}

impl GeoPoint {
    pub fn origin() -> (p: GeoPoint)
        ensures
            p.latitude_e7 == 0,
            p.longitude_e7 == 0,
    {
        GeoPoint { latitude_e7: 0, longitude_e7: 0 }
    }
}

/// The views of the elements of a sequence, in order.
pub open spec fn views<T: View>(items: Seq<T>) -> Seq<T::V> {
    items.map_values(|item: T| item@)
}

/// A copy of a list of texts that reads the same, item by item.
pub fn clone_texts(texts: &Vec<String>) -> (copy: Vec<String>)
    ensures
        views(copy@) == views(texts@),
        copy@.len() == texts@.len(),
{
    let mut copy: Vec<String> = Vec::new();
    let mut i: usize = 0;
    while i < texts.len()
        invariant
            0 <= i <= texts.len(),
            copy@.len() == i,
            forall|k: int| 0 <= k < i ==> copy@[k]@ == texts@[k]@,
        decreases texts.len() - i,
    {
        copy.push(texts[i].clone());
        i += 1;
    }
    assert(views(copy@) =~= views(texts@));
    copy
}

/// Whether a list of texts holds one that reads as `wanted`.
pub fn contains_text(texts: &Vec<String>, wanted: &str) -> (found: bool)
    ensures
        found == views(texts@).contains(wanted@),
{
    let mut i: usize = 0;
    while i < texts.len()
        invariant
            0 <= i <= texts.len(),
            forall|k: int| 0 <= k < i ==> views(texts@)[k] != wanted@,
        decreases texts.len() - i,
    {
        if crate::text::is_text(&texts[i], wanted) {
            assert(views(texts@)[i as int] == wanted@);
            return true;
        }
        i += 1;
    }
    false
}

/// The texts of a list without repetitions, each at the place where it
/// first occurs.
pub fn distinct_texts(texts: &Vec<String>) -> (distinct: Vec<String>)
    ensures
        views(distinct@).no_duplicates(),
        views(distinct@).to_set() == views(texts@).to_set(),
        distinct@.len() <= texts@.len(),
{
    let mut distinct: Vec<String> = Vec::new();
    let mut i: usize = 0;
    while i < texts.len()
        invariant
            0 <= i <= texts.len(),
            distinct@.len() <= i,
            views(distinct@).no_duplicates(),
            forall|t: Seq<char>|
                views(distinct@).contains(t) <==> views(texts@).take(i as int).contains(t),
        decreases texts.len() - i,
    {
        let ghost before = views(distinct@);
        let ghost seen = views(texts@).take(i as int);
        let ghost next = views(texts@).take(i as int + 1);
        let ghost item = texts@[i as int]@;
        assert(next =~= seen.push(item));
        if !contains_text(&distinct, texts[i].as_str()) {
            distinct.push(texts[i].clone());
            assert(views(distinct@) =~= before.push(item));
            assert forall|t: Seq<char>| views(distinct@).contains(t) <==> next.contains(
                t,
            ) by {
                assert(before.contains(t) <==> seen.contains(t));
                if views(distinct@).contains(t) {
                    let k = choose|k: int| 0 <= k < views(distinct@).len() && views(distinct@)[k]
                        == t;
                    if k < before.len() {
                        assert(before[k] == t);
                        assert(before.contains(t));
                        let m = choose|m: int| 0 <= m < seen.len() && seen[m] == t;
                        assert(next[m] == t);
                    } else {
                        assert(next[i as int] == t);
                    }
                }
                if next.contains(t) {
                    let m = choose|m: int| 0 <= m < next.len() && next[m] == t;
                    if m < i {
                        assert(seen[m] == t);
                        assert(seen.contains(t));
                        let k = choose|k: int| 0 <= k < before.len() && before[k] == t;
                        assert(views(distinct@)[k] == t);
                    } else {
                        assert(views(distinct@)[before.len() as int] == t);
                    }
                }
            }
        } else {
            assert forall|t: Seq<char>| views(distinct@).contains(t) <==> next.contains(
                t,
            ) by {
                assert(before.contains(t) <==> seen.contains(t));
                if views(distinct@).contains(t) {
                    let m = choose|m: int| 0 <= m < seen.len() && seen[m] == t;
                    assert(next[m] == t);
                }
                if next.contains(t) {
                    let m = choose|m: int| 0 <= m < next.len() && next[m] == t;
                    if m < i {
                        assert(seen[m] == t);
                        assert(seen.contains(t));
                    }
                }
            }
        }
        i += 1;
    }
    assert(views(texts@).take(texts.len() as int) =~= views(texts@));
    assert(views(distinct@).to_set() =~= views(texts@).to_set());
    distinct
}

#[derive(Debug)]
pub struct RailwaySection {
    pub id: String,
    pub name: String,
    pub start_coordinates: GeoPoint,
    pub end_coordinates: GeoPoint,
    pub length_km: Milli,
    pub track_type: TrackType,
    pub max_speed_kmh: Milli,
    pub capacity_trains_per_hour: u32,
    pub current_occupancy: u32,
    pub status: SectionStatus,
    pub signals: Vec<String>,
    pub created_at: Timestamp,
    pub updated_at: Timestamp,
}

#[derive(Clone, Copy, Debug, PartialEq, Eq, Structural)]
pub enum SectionStatus {
    Active,
    Maintenance,
    Blocked,
    Closed,
}

/// A logged occurrence. `metadata` carries a JSON document as text.
#[derive(Debug)]
pub struct Event {
    pub id: String,
    pub event_type: EventType,
    pub timestamp: Timestamp,
    pub train_id: Option<String>,
    pub section_id: Option<String>,
    pub description: String,
    pub severity: events::EventSeverity,
    pub acknowledged: bool,
    pub metadata: String,
    pub created_at: Timestamp,
    pub updated_at: Timestamp,
}

impl Clone for Event {
    fn clone(&self) -> (copy: Self)
        ensures
            copy.id@ == self.id@,
            copy.event_type == self.event_type,
            copy.timestamp == self.timestamp,
            events::text_of(copy.train_id) == events::text_of(self.train_id),
            events::text_of(copy.section_id) == events::text_of(self.section_id),
            copy.description@ == self.description@,
            copy.severity == self.severity,
            copy.acknowledged == self.acknowledged,
            copy.metadata@ == self.metadata@,
            copy.created_at == self.created_at,
            copy.updated_at == self.updated_at,
    {
        Event {
            id: self.id.clone(),
            event_type: self.event_type,
            timestamp: self.timestamp,
            train_id: match &self.train_id {
                Some(s) => Some(s.clone()),
                None => None,
            },
            section_id: match &self.section_id {
                Some(s) => Some(s.clone()),
                None => None,
            },
            description: self.description.clone(),
            severity: self.severity,
            acknowledged: self.acknowledged,
            metadata: self.metadata.clone(),
            created_at: self.created_at,
            updated_at: self.updated_at,
        }
    }
}

impl EventType {
    pub open spec fn spec_name(&self) -> Seq<char> {
        match self {
            EventType::TrainDeparture => "TrainDeparture"@,
            EventType::TrainArrival => "TrainArrival"@,
            EventType::DelayReported => "DelayReported"@,
            EventType::StatusUpdate => "StatusUpdate"@,
            EventType::ConflictDetected => "ConflictDetected"@,
            EventType::ConflictResolved => "ConflictResolved"@,
            EventType::MaintenanceStarted => "MaintenanceStarted"@,
            EventType::MaintenanceCompleted => "MaintenanceCompleted"@,
            EventType::EmergencyAlert => "EmergencyAlert"@,
            EventType::WeatherAlert => "WeatherAlert"@,
        }
    }

    /// The name of the kind, as it is written in messages.
    pub fn name(&self) -> (s: String)
        ensures
            s@ == self.spec_name(),
    {
        match self {
            EventType::TrainDeparture => "TrainDeparture".to_owned(),
            EventType::TrainArrival => "TrainArrival".to_owned(),
            EventType::DelayReported => "DelayReported".to_owned(),
            EventType::StatusUpdate => "StatusUpdate".to_owned(),
            EventType::ConflictDetected => "ConflictDetected".to_owned(),
            EventType::ConflictResolved => "ConflictResolved".to_owned(),
            EventType::MaintenanceStarted => "MaintenanceStarted".to_owned(),
            EventType::MaintenanceCompleted => "MaintenanceCompleted".to_owned(),
            EventType::EmergencyAlert => "EmergencyAlert".to_owned(),
            EventType::WeatherAlert => "WeatherAlert".to_owned(),
        }
    }
}

#[derive(Clone, Copy, Debug, PartialEq, Eq, Structural)]
pub enum EventType {
    TrainDeparture,
    TrainArrival,
    DelayReported,
    StatusUpdate,
    ConflictDetected,
    ConflictResolved,
    MaintenanceStarted,
    MaintenanceCompleted,
    EmergencyAlert,
    WeatherAlert,
}

#[derive(Clone, Copy, Debug, PartialEq, Eq, Structural)]
pub enum DisruptionImpact {
    Minor,
    Moderate,
    Major,
    Critical,
}

#[derive(Clone, Copy, Debug, PartialEq, Eq, Structural)]
pub enum DisruptionStatus {
    Active,
    Resolved,
    Monitoring,
}

/// Precedence class of a train. A lower ordinal takes precedence.
#[derive(Clone, Copy, Debug, PartialEq, Eq, Hash, Structural)]
pub enum TrainPriority {
    Emergency,
    Mail,
    Express,
    Passenger,
    Freight,
    Maintenance,
}

impl TrainPriority {
    /// The ordinal of the class: 1 for `Emergency` up to 6 for `Maintenance`.
    pub open spec fn spec_value(&self) -> u8 {
        match *self {
            TrainPriority::Emergency => 1,
            TrainPriority::Mail => 2,
            TrainPriority::Express => 3,
            TrainPriority::Passenger => 4,
            TrainPriority::Freight => 5,
            TrainPriority::Maintenance => 6,
        }
    }

    #[verifier::when_used_as_spec(spec_value)]
    pub fn value(&self) -> (v: u8)
        ensures
            v == self.spec_value(),
            1 <= v <= 6,
    {
        match self {
            TrainPriority::Emergency => 1,
            TrainPriority::Mail => 2,
            TrainPriority::Express => 3,
            TrainPriority::Passenger => 4,
            TrainPriority::Freight => 5,
            TrainPriority::Maintenance => 6,
        }
    }
}

/// Two classes with the same ordinal are the same class.
pub proof fn lemma_priority_value_injective(a: TrainPriority, b: TrainPriority)
    requires
        a.spec_value() == b.spec_value(),
    ensures
        a == b,
{
}

#[derive(Clone, Copy, Debug, PartialEq, Eq, Structural)]
pub enum Direction {
    Up,
    Down,
}

#[derive(Clone, Copy, Debug, PartialEq, Eq, Structural)]
pub enum TrackType {
    Single,
    Double,
    Multiple,
}

#[derive(Clone, Copy, Debug, PartialEq, Eq, Structural)]
pub enum SignalStatus {
    Red,
    Yellow,
    Green,
    DoubleYellow,
}

#[derive(Clone, Copy, Debug, PartialEq, Eq, Structural)]
pub enum WeatherType {
    Clear,
    Fog,
    Rain,
    Storm,
    Snow,
}

#[derive(Clone, Copy, Debug, PartialEq, Eq, Structural)]
pub struct PerformanceMetrics {
    pub punctuality_percent: Milli,
    pub average_delay_minutes: Milli,
    pub throughput_trains_per_hour: Milli,
    pub utilization_percent: Milli,
    pub conflicts_resolved: u32,
    pub total_trains_processed: u32,
}

/// How many trains of each precedence class a fleet holds.
#[derive(Clone, Copy, Debug, PartialEq, Eq, Structural)]
pub struct PriorityBreakdown {
    pub emergency: u32,
    pub mail: u32,
    pub express: u32,
    pub passenger: u32,
    pub freight: u32,
    pub maintenance: u32,
}

impl PriorityBreakdown {
    pub open spec fn count_of(self, priority: TrainPriority) -> u32 {
        match priority {
            TrainPriority::Emergency => self.emergency,
            TrainPriority::Mail => self.mail,
            TrainPriority::Express => self.express,
            TrainPriority::Passenger => self.passenger,
            TrainPriority::Freight => self.freight,
            TrainPriority::Maintenance => self.maintenance,
        }
    }
}

#[derive(Clone, Copy, Debug, PartialEq, Eq, Structural)]
pub struct TrainStatistics {
    pub total_active_trains: u32,
    pub delayed_trains: u32,
    pub on_time_trains: u32,
    pub average_delay_minutes: Milli,
    pub priority_breakdown: PriorityBreakdown,
}

} // verus!
