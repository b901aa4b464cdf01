//! Trains and what a train is made of.

use vstd::prelude::*;
use crate::time::Timestamp;
use crate::models::{Milli, GeoPoint, TrainPriority, Direction, views, clone_texts};
use crate::runtime::{current_time, new_identifier};

verus! {

#[derive(Debug)]
pub struct Train {
    pub id: String,
    pub train_number: u32,
    pub name: String,
    pub priority: TrainPriority,
    pub current_section: String,
    pub position: GeoPoint,
    pub delay_minutes: i32,
    pub eta_next_station: Timestamp,
    pub speed_kmh: Milli,
    pub direction: Direction,
    pub consist: TrainConsist,
    pub status: TrainStatus,
    pub route: Vec<String>,
    pub created_at: Timestamp,
    pub updated_at: Timestamp,
}

/// What a `Train` holds, with texts and lists as mathematical sequences.
pub struct TrainView {
    pub id: Seq<char>,
    pub train_number: u32,
    pub name: Seq<char>,
    pub priority: TrainPriority,
    pub current_section: Seq<char>,
    pub position: GeoPoint,
    pub delay_minutes: i32,
    pub eta_next_station: Timestamp,
    pub speed_kmh: Milli,
    pub direction: Direction,
    pub consist: TrainConsistView,
    pub status: TrainStatus,
    pub route: Seq<Seq<char>>,
    pub created_at: Timestamp,
    pub updated_at: Timestamp,
}

impl View for Train {
    type V = TrainView;

    open spec fn view(&self) -> TrainView {
        TrainView {
            id: self.id@,
            train_number: self.train_number,
            name: self.name@,
            priority: self.priority,
            current_section: self.current_section@,
            position: self.position,
            delay_minutes: self.delay_minutes,
            eta_next_station: self.eta_next_station,
            speed_kmh: self.speed_kmh,
            direction: self.direction,
            consist: self.consist@,
            status: self.status,
            route: views(self.route@),
            created_at: self.created_at,
            updated_at: self.updated_at,
        }
    }
}

#[derive(Debug)]
pub struct TrainConsist {
    pub locomotive_type: String,
    pub total_coaches: u32,
    pub passenger_coaches: u32,
    pub freight_wagons: u32,
    pub total_length_meters: Milli,
    pub max_speed_kmh: Milli,
}

pub struct TrainConsistView {
    pub locomotive_type: Seq<char>,
    pub total_coaches: u32,
    pub passenger_coaches: u32,
    pub freight_wagons: u32,
    pub total_length_meters: Milli,
    pub max_speed_kmh: Milli,
}

impl View for TrainConsist {
    type V = TrainConsistView;

    open spec fn view(&self) -> TrainConsistView {
        TrainConsistView {
            locomotive_type: self.locomotive_type@,
            total_coaches: self.total_coaches,
            passenger_coaches: self.passenger_coaches,
            freight_wagons: self.freight_wagons,
            total_length_meters: self.total_length_meters,
            max_speed_kmh: self.max_speed_kmh,
        }
    }
}

/// Where a train stands in its run. `Delayed` is entered whenever the delay
/// becomes positive, whatever the status before.
#[derive(Clone, Copy, Debug, PartialEq, Eq, Hash, Structural)]
pub enum TrainStatus {
    Scheduled,
    Running,
    Delayed,
    AtStation,
    Terminated,
    Cancelled,
}

impl TrainStatus {
    /// Whether the record store counts a train in this status as active.
    pub open spec fn spec_is_active(&self) -> bool {
        *self == TrainStatus::Running || *self == TrainStatus::Delayed || *self
            == TrainStatus::AtStation
    }

    #[verifier::when_used_as_spec(spec_is_active)]
    pub fn is_active(&self) -> (b: bool)
        ensures
            b == self.spec_is_active(),
    {
        match self {
            TrainStatus::Running | TrainStatus::Delayed | TrainStatus::AtStation => true,
            _ => false,
        }
    }
}

impl Clone for TrainConsist {
    fn clone(&self) -> (copy: Self)
        ensures
            copy@ == self@,
    {
        TrainConsist {
            locomotive_type: self.locomotive_type.clone(),
            total_coaches: self.total_coaches,
            passenger_coaches: self.passenger_coaches,
            freight_wagons: self.freight_wagons,
            total_length_meters: self.total_length_meters,
            max_speed_kmh: self.max_speed_kmh,
        }
    }
}

impl Clone for Train {
    fn clone(&self) -> (copy: Self)
        ensures
            copy@ == self@,
    {
        Train {
            id: self.id.clone(),
            train_number: self.train_number,
            name: self.name.clone(),
            priority: self.priority,
            current_section: self.current_section.clone(),
            position: self.position,
            delay_minutes: self.delay_minutes,
            eta_next_station: self.eta_next_station,
            speed_kmh: self.speed_kmh,
            direction: self.direction,
            consist: self.consist.clone(),
            status: self.status,
            route: clone_texts(&self.route),
            created_at: self.created_at,
            updated_at: self.updated_at,
        }
    }
}

impl TrainView {
    /// The train as it stands after `delay` more minutes were reported at `now`.
    pub open spec fn with_added_delay(self, delay: int, now: Timestamp) -> TrainView {
        let total = self.delay_minutes + delay;
        TrainView {
            delay_minutes: total as i32,
            status: if total > 0 {
                TrainStatus::Delayed
            } else {
                self.status
            },
            updated_at: now,
            ..self
        }
    }

    /// The train as it stands after a position report at `now`.
    pub open spec fn with_position(self, position: GeoPoint, speed: Milli, now: Timestamp)
        -> TrainView {
        TrainView { position, speed_kmh: speed, updated_at: now, ..self }
    }

    pub open spec fn is_delayed(self) -> bool {
        self.delay_minutes > 0
    }
}

impl Train {
    /// A train as it is first registered: scheduled, at rest, on time.
    pub open spec fn registered_view(
        id: Seq<char>,
        now: Timestamp,
        train_number: u32,
        name: Seq<char>,
        priority: TrainPriority,
        route: Seq<Seq<char>>,
    ) -> TrainView {
        TrainView {
            id,
            train_number,
            name,
            priority,
            current_section: Seq::empty(),
            position: GeoPoint { latitude_e7: 0, longitude_e7: 0 },
            delay_minutes: 0,
            eta_next_station: now,
            speed_kmh: Milli { thousandths: 0 },
            direction: Direction::Up,
            consist: TrainConsist::default_view(),
            status: TrainStatus::Scheduled,
            route,
            created_at: now,
            updated_at: now,
        }
    }

    /// Registers a train under the identifier `id` at the instant `now`.
    pub fn registered(
        id: String,
        now: Timestamp,
        train_number: u32,
        name: String,
        priority: TrainPriority,
        route: Vec<String>,
    ) -> (train: Train)
        ensures
            train@ == Train::registered_view(
                id@,
                now,
                train_number,
                name@,
                priority,
                views(route@),
            ),
    {
        Train {
            id,
            train_number,
            name,
            priority,
            current_section: String::new(),
            position: GeoPoint::origin(),
            delay_minutes: 0,
            eta_next_station: now,
            speed_kmh: Milli::zero(),
            direction: Direction::Up,
            consist: TrainConsist::default(),
            status: TrainStatus::Scheduled,
            route,
            created_at: now,
            updated_at: now,
        }
    }

    /// Registers a train under a fresh identifier at the current instant.
    pub fn new(train_number: u32, name: String, priority: TrainPriority, route: Vec<String>) -> (train:
        Train)
        ensures
            train@ == Train::registered_view(
                train@.id,
                train@.created_at,
                train_number,
                name@,
                priority,
                views(route@),
            ),
            train@.id.len() == 36,
    {
        let now = current_time();
        let id = new_identifier();
        Train::registered(id, now, train_number, name, priority, route)
    }

    pub fn is_delayed(&self) -> (delayed: bool)
        ensures
            delayed == self@.is_delayed(),
    {
        self.delay_minutes > 0
    }

    pub fn priority_value(&self) -> (v: u8)
        ensures
            v == self.priority.spec_value(),
    {
        self.priority.value()
    }

    /// Records a position report taken at `now`.
    pub fn update_position_at(&mut self, position: GeoPoint, speed: Milli, now: Timestamp)
        ensures
            final(self)@ == old(self)@.with_position(position, speed, now),
    {
        self.position = position;
        self.speed_kmh = speed;
        self.updated_at = now;
    }

    /// Records a position report taken at the current instant.
    pub fn update_position(&mut self, position: GeoPoint, speed: Milli)
        ensures
            final(self)@ == old(self)@.with_position(position, speed, final(self)@.updated_at),
    {
        let now = current_time();
        self.update_position_at(position, speed, now);
    }

    /// Adds `delay` minutes (negative to recover time) at `now`. A train whose
    /// delay is then positive becomes `Delayed`.
    pub fn add_delay_at(&mut self, delay: i32, now: Timestamp)
        requires
            i32::MIN <= old(self).delay_minutes + delay <= i32::MAX,
        ensures
            final(self)@ == old(self)@.with_added_delay(delay as int, now),
    {
        self.delay_minutes = self.delay_minutes + delay;
        if self.delay_minutes > 0 {
            self.status = TrainStatus::Delayed;
        }
        self.updated_at = now;
    }

    /// Adds `delay` minutes at the current instant.
    pub fn add_delay(&mut self, delay: i32)
        requires
            i32::MIN <= old(self).delay_minutes + delay <= i32::MAX,
        ensures
            final(self)@ == old(self)@.with_added_delay(delay as int, final(self)@.updated_at),
    {
        let now = current_time();
        self.add_delay_at(delay, now);
    }
}

impl TrainConsist {
    /// The standard rake: one diesel locomotive and twelve passenger coaches.
    pub open spec fn default_view() -> TrainConsistView {
        TrainConsistView {
            locomotive_type: "WDM-3A"@,
            total_coaches: 12,
            passenger_coaches: 12,
            freight_wagons: 0,
            total_length_meters: Milli { thousandths: 300_000 },
            max_speed_kmh: Milli { thousandths: 110_000 },
        }
    }
}

impl Default for TrainConsist {
    fn default() -> (consist: Self)
        ensures
            consist@ == TrainConsist::default_view(),
    {
        TrainConsist {
            locomotive_type: "WDM-3A".to_owned(),
            total_coaches: 12,
            passenger_coaches: 12,
            freight_wagons: 0,
            total_length_meters: Milli { thousandths: 300_000 },
            max_speed_kmh: Milli { thousandths: 110_000 },
        }
    }
}

} // verus!
