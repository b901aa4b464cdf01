//! What happens to trains and to the network: events, disruptions, conflicts.

use vstd::prelude::*;
use crate::time::Timestamp;
use crate::models::{Milli, GeoPoint, views};
use crate::runtime::{current_time, new_identifier};

verus! {

/// The text that an optional string holds, if any.
pub open spec fn text_of(value: Option<String>) -> Option<Seq<char>> {
    match value {
        Some(s) => Some(s@),
        None => None,
    }
}

#[derive(Debug)]
pub struct TrainEvent {
    pub id: String,
    pub train_id: String,
    pub event_type: TrainEventType,
    pub location: GeoPoint,
    pub station_code: Option<String>,
    pub section_id: Option<String>,
    pub timestamp: Timestamp,
    pub metadata: EventMetadata,
}

pub struct TrainEventView {
    pub id: Seq<char>,
    pub train_id: Seq<char>,
    pub event_type: TrainEventType,
    pub location: GeoPoint,
    pub station_code: Option<Seq<char>>,
    pub section_id: Option<Seq<char>>,
    pub timestamp: Timestamp,
    pub metadata: EventMetadataView,
}

impl View for TrainEvent {
    type V = TrainEventView;

    open spec fn view(&self) -> TrainEventView {
        TrainEventView {
            id: self.id@,
            train_id: self.train_id@,
            event_type: self.event_type,
            location: self.location,
            station_code: text_of(self.station_code),
            section_id: text_of(self.section_id),
            timestamp: self.timestamp,
            metadata: self.metadata@,
        }
    }
}

#[derive(Clone, Copy, Debug, PartialEq, Eq, Structural)]
pub enum TrainEventType {
    Departure,
    Arrival,
    Delay,
    SpeedChange,
    RouteChange,
    Breakdown,
    Emergency,
}

#[derive(Debug)]
pub struct EventMetadata {
    pub speed_kmh: Option<Milli>,
    pub delay_minutes: Option<i32>,
    pub platform: Option<u8>,
    pub reason: Option<String>,
    pub severity: EventSeverity,
}

pub struct EventMetadataView {
    pub speed_kmh: Option<Milli>,
    pub delay_minutes: Option<i32>,
    pub platform: Option<u8>,
    pub reason: Option<Seq<char>>,
    pub severity: EventSeverity,
}

impl View for EventMetadata {
    type V = EventMetadataView;

    open spec fn view(&self) -> EventMetadataView {
        EventMetadataView {
            speed_kmh: self.speed_kmh,
            delay_minutes: self.delay_minutes,
            platform: self.platform,
            reason: text_of(self.reason),
            severity: self.severity,
        }
    }
}

#[derive(Clone, Copy, Debug, PartialEq, Eq, Structural)]
pub enum EventSeverity {
    Low,
    Medium,
    High,
    Critical,
}

impl EventSeverity {
    /// How grave a reported delay is: high above 30 minutes, medium above 10.
    pub open spec fn of_delay(delay: int) -> EventSeverity {
        if delay > 30 {
            EventSeverity::High
        } else if delay > 10 {
            EventSeverity::Medium
        } else {
            EventSeverity::Low
        }
    }
}

#[derive(Debug)]
pub struct DisruptionEvent {
    pub id: String,
    pub disruption_type: DisruptionType,
    pub affected_sections: Vec<String>,
    pub affected_trains: Vec<String>,
    pub start_time: Timestamp,
    pub end_time: Option<Timestamp>,
    /// On a scale from 1 to 10.
    pub impact_level: u8,
    pub description: String,
    pub response_actions: Vec<ResponseAction>,
}

#[derive(Clone, Copy, Debug, PartialEq, Eq, Structural)]
pub enum DisruptionType {
    Weather,
    SignalFailure,
    TrackMaintenance,
    Accident,
    StrikeFactor,
    PowerFailure,
    RollingStockFailure,
}

impl DisruptionType {
    /// The name of the kind, as it is written in messages.
    pub open spec fn spec_name(self) -> Seq<char> {
        match self {
            DisruptionType::Weather => "Weather"@,
            DisruptionType::SignalFailure => "SignalFailure"@,
            DisruptionType::TrackMaintenance => "TrackMaintenance"@,
            DisruptionType::Accident => "Accident"@,
            DisruptionType::StrikeFactor => "StrikeFactor"@,
            DisruptionType::PowerFailure => "PowerFailure"@,
            DisruptionType::RollingStockFailure => "RollingStockFailure"@,
        }
    }

    pub fn name(&self) -> (s: String)
        ensures
            s@ == self.spec_name(),
    {
        match self {
            DisruptionType::Weather => "Weather".to_owned(),
            DisruptionType::SignalFailure => "SignalFailure".to_owned(),
            DisruptionType::TrackMaintenance => "TrackMaintenance".to_owned(),
            DisruptionType::Accident => "Accident".to_owned(),
            DisruptionType::StrikeFactor => "StrikeFactor".to_owned(),
            DisruptionType::PowerFailure => "PowerFailure".to_owned(),
            DisruptionType::RollingStockFailure => "RollingStockFailure".to_owned(),
        }
    }
}

#[derive(Debug)]
pub struct ResponseAction {
    pub action_type: ResponseActionType,
    pub description: String,
    pub taken_at: Timestamp,
    /// The controller who acted.
    pub taken_by: String,
}

#[derive(Clone, Copy, Debug, PartialEq, Eq, Structural)]
pub enum ResponseActionType {
    TrainHold,
    RouteChange,
    SpeedRestriction,
    ServiceCancellation,
    EmergencyStop,
    AlternateRouting,
}

#[derive(Debug)]
pub struct ConflictEvent {
    pub id: String,
    pub conflict_type: ConflictType,
    pub trains_involved: Vec<String>,
    pub section_id: String,
    pub location: GeoPoint,
    pub detected_at: Timestamp,
    pub resolved_at: Option<Timestamp>,
    pub resolution: Option<ConflictResolution>,
    pub severity: ConflictSeverity,
}

#[derive(Clone, Copy, Debug, PartialEq, Eq, Structural)]
pub enum ConflictType {
    SamePlatform,
    BlockOccupancy,
    HeadOnCollision,
    OvertakingConflict,
    CrossingConflict,
    SignalViolation,
}

#[derive(Clone, Copy, Debug, PartialEq, Eq, Structural)]
pub enum ConflictSeverity {
    Minor,
    Major,
    Critical,
    Safety,
}

#[derive(Debug)]
pub struct ConflictResolution {
    pub resolution_type: ResolutionType,
    pub actions_taken: Vec<String>,
    pub trains_affected: Vec<String>,
    pub delay_caused: i32,
    /// A controller, or the system itself.
    pub resolved_by: String,
}

#[derive(Clone, Copy, Debug, PartialEq, Eq, Structural)]
pub enum ResolutionType {
    PriorityBased,
    TimeSlotting,
    RouteAlternative,
    TemporaryHold,
    SpeedAdjustment,
}

impl TrainEventView {
    /// The event with a delay of `delay` minutes noted, and graded by it.
    pub open spec fn with_delay(self, delay: i32) -> TrainEventView {
        TrainEventView {
            metadata: EventMetadataView {
                delay_minutes: Some(delay),
                severity: EventSeverity::of_delay(delay as int),
                ..self.metadata
            },
            ..self
        }
    }

    /// The event with a speed noted.
    pub open spec fn with_speed(self, speed: Milli) -> TrainEventView {
        TrainEventView {
            metadata: EventMetadataView { speed_kmh: Some(speed), ..self.metadata },
            ..self
        }
    }

    /// The event with a reason noted.
    pub open spec fn with_reason(self, reason: Seq<char>) -> TrainEventView {
        TrainEventView {
            metadata: EventMetadataView { reason: Some(reason), ..self.metadata },
            ..self
        }
    }
}

impl TrainEvent {
    /// A bare event: no station, no section, nothing noted, low severity.
    pub open spec fn recorded_view(
        id: Seq<char>,
        now: Timestamp,
        train_id: Seq<char>,
        event_type: TrainEventType,
        location: GeoPoint,
    ) -> TrainEventView {
        TrainEventView {
            id,
            train_id,
            event_type,
            location,
            station_code: None,
            section_id: None,
            timestamp: now,
            metadata: EventMetadataView {
                speed_kmh: None,
                delay_minutes: None,
                platform: None,
                reason: None,
                severity: EventSeverity::Low,
            },
        }
    }

    /// Records an event under the identifier `id` at the instant `now`.
    pub fn recorded(
        id: String,
        now: Timestamp,
        train_id: String,
        event_type: TrainEventType,
        location: GeoPoint,
    ) -> (event: TrainEvent)
        ensures
            event@ == TrainEvent::recorded_view(id@, now, train_id@, event_type, location),
    {
        TrainEvent {
            id,
            train_id,
            event_type,
            location,
            station_code: None,
            section_id: None,
            timestamp: now,
            metadata: EventMetadata {
                speed_kmh: None,
                delay_minutes: None,
                platform: None,
                reason: None,
                severity: EventSeverity::Low,
            },
        }
    }

    /// Records an event under a fresh identifier at the current instant.
    pub fn new(train_id: String, event_type: TrainEventType, location: GeoPoint) -> (event:
        TrainEvent)
        ensures
            event@ == TrainEvent::recorded_view(
                event@.id,
                event@.timestamp,
                train_id@,
                event_type,
                location,
            ),
            event@.id.len() == 36,
    {
        let now = current_time();
        let id = new_identifier();
        TrainEvent::recorded(id, now, train_id, event_type, location)
    }

    pub fn with_delay(self, delay: i32) -> (event: TrainEvent)
        ensures
            event@ == self@.with_delay(delay),
    {
        let mut event = self;
        event.metadata.delay_minutes = Some(delay);
        event.metadata.severity = if delay > 30 {
            EventSeverity::High
        } else if delay > 10 {
            EventSeverity::Medium
        } else {
            EventSeverity::Low
        };
        event
    }

    pub fn with_speed(self, speed: Milli) -> (event: TrainEvent)
        ensures
            event@ == self@.with_speed(speed),
    {
        let mut event = self;
        event.metadata.speed_kmh = Some(speed);
        event
    }
}

impl DisruptionEvent {
    pub open spec fn spec_is_active(&self) -> bool {
        self.end_time is None
    }

    /// Whole minutes from start to end, rounded toward zero; none while the
    /// disruption lasts.
    pub open spec fn spec_duration_minutes(&self) -> Option<i64> {
        match self.end_time {
            Some(end) => Some(end.spec_minutes_since(self.start_time) as i64),
            None => None,
        }
    }

    /// Opens a disruption under the identifier `id` at the instant `now`.
    pub fn opened(
        id: String,
        now: Timestamp,
        disruption_type: DisruptionType,
        affected_sections: Vec<String>,
        description: String,
        impact_level: u8,
    ) -> (event: DisruptionEvent)
        ensures
            event.id@ == id@,
            event.disruption_type == disruption_type,
            views(event.affected_sections@) == views(affected_sections@),
            event.affected_trains@.len() == 0,
            event.start_time == now,
            event.end_time is None,
            event.impact_level == impact_level,
            event.description@ == description@,
            event.response_actions@.len() == 0,
    {
        DisruptionEvent {
            id,
            disruption_type,
            affected_sections,
            affected_trains: Vec::new(),
            start_time: now,
            end_time: None,
            impact_level,
            description,
            response_actions: Vec::new(),
        }
    }

    /// Opens a disruption under a fresh identifier at the current instant.
    pub fn new(
        disruption_type: DisruptionType,
        affected_sections: Vec<String>,
        description: String,
        impact_level: u8,
    ) -> (event: DisruptionEvent)
        ensures
            event.id@.len() == 36,
            event.disruption_type == disruption_type,
            views(event.affected_sections@) == views(affected_sections@),
            event.affected_trains@.len() == 0,
            event.end_time is None,
            event.impact_level == impact_level,
            event.description@ == description@,
            event.response_actions@.len() == 0,
            event.spec_is_active(),
    {
        let now = current_time();
        let id = new_identifier();
        DisruptionEvent::opened(id, now, disruption_type, affected_sections, description, impact_level)
    }

    #[verifier::when_used_as_spec(spec_is_active)]
    pub fn is_active(&self) -> (active: bool)
        ensures
            active == self.spec_is_active(),
    {
        self.end_time.is_none()
    }

    #[verifier::when_used_as_spec(spec_duration_minutes)]
    pub fn duration_minutes(&self) -> (minutes: Option<i64>)
        ensures
            minutes == self.spec_duration_minutes(),
    {
        match self.end_time {
            Some(end) => Some(end.minutes_since(self.start_time)),
            None => None,
        }
    }
}

/// A disruption has a duration exactly when it is no longer active.
pub proof fn lemma_duration_known_iff_ended(event: DisruptionEvent)
    ensures
        event.spec_duration_minutes() is Some <==> !event.spec_is_active(),
{
}

} // verus!
