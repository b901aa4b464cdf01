//! The train registry: every rule that guards a read or a write of train
//! state. The record store itself stands outside; each operation takes what
//! the store returned and says what to write back.

use vstd::prelude::*;
use crate::time::Timestamp;
use crate::models::{Milli, GeoPoint, views};
use crate::models::train::{Train, TrainView, TrainStatus};
use crate::models::events::{TrainEvent, TrainEventType};
use crate::text::{decimal, push_decimal};
use crate::runtime::current_time;
use crate::api::trains::TrainUpdateRequest;
use crate::services::{Service, ServiceResult, ServiceError, ErrorKind, fails_with};

verus! {

#[derive(Debug)]
pub struct TrainService {}

impl Service for TrainService {
    fn name(&self) -> (name: &'static str)
        ensures
            name@ == "TrainService"@,
    {
        "TrainService"
    }
}

#[derive(Clone, Copy, Debug, PartialEq, Eq, Structural)]
pub enum ConflictType {
    HeadOn,
    Overtaking,
    SameDirection,
    PlatformBlocking,
}

#[derive(Clone, Copy, Debug, PartialEq, Eq, Structural)]
pub enum ConflictSeverity {
    Low,
    Medium,
    High,
    Critical,
}

#[derive(Clone, Copy, Debug, PartialEq, Eq, Structural)]
pub enum AlertType {
    HighDelay,
    ExcessiveSpeed,
    StaleData,
    ConflictDetected,
    MaintenanceRequired,
    EmergencyStop,
}

#[derive(Clone, Copy, Debug, PartialEq, Eq, Structural)]
pub enum AlertSeverity {
    Low,
    Medium,
    High,
    Critical,
}

#[derive(Debug)]
pub struct TrainAlert {
    pub id: String,
    pub train_id: String,
    pub alert_type: AlertType,
    pub severity: AlertSeverity,
    pub message: String,
    pub current_section: String,
    pub created_at: Timestamp,
}

pub struct TrainAlertView {
    pub id: Seq<char>,
    pub train_id: Seq<char>,
    pub alert_type: AlertType,
    pub severity: AlertSeverity,
    pub message: Seq<char>,
    pub current_section: Seq<char>,
    pub created_at: Timestamp,
}

impl View for TrainAlert {
    type V = TrainAlertView;

    open spec fn view(&self) -> TrainAlertView {
        TrainAlertView {
            id: self.id@,
            train_id: self.train_id@,
            alert_type: self.alert_type,
            severity: self.severity,
            message: self.message@,
            current_section: self.current_section@,
            created_at: self.created_at,
        }
    }
}

/// A head-on hazard between two trains of one section.
#[derive(Debug)]
pub struct TrainConflict {
    pub id: String,
    pub train_a_id: String,
    pub train_b_id: String,
    pub section_id: String,
    pub conflict_type: ConflictType,
    pub severity: ConflictSeverity,
    /// Microseconds until the trains meet.
    pub estimated_time_to_conflict: u64,
    /// Millimetres between the trains.
    pub distance_meters: u64,
    pub relative_speed_kmh: Milli,
    pub detected_at: Timestamp,
}

pub struct TrainConflictView {
    pub id: Seq<char>,
    pub train_a_id: Seq<char>,
    pub train_b_id: Seq<char>,
    pub section_id: Seq<char>,
    pub conflict_type: ConflictType,
    pub severity: ConflictSeverity,
    pub estimated_time_to_conflict: u64,
    pub distance_meters: u64,
    pub relative_speed_kmh: Milli,
    pub detected_at: Timestamp,
}

impl View for TrainConflict {
    type V = TrainConflictView;

    open spec fn view(&self) -> TrainConflictView {
        TrainConflictView {
            id: self.id@,
            train_a_id: self.train_a_id@,
            train_b_id: self.train_b_id@,
            section_id: self.section_id@,
            conflict_type: self.conflict_type,
            severity: self.severity,
            estimated_time_to_conflict: self.estimated_time_to_conflict,
            distance_meters: self.distance_meters,
            relative_speed_kmh: self.relative_speed_kmh,
            detected_at: self.detected_at,
        }
    }
}

impl AlertType {
    pub open spec fn spec_name(&self) -> Seq<char> {
        match self {
            AlertType::HighDelay => "HighDelay"@,
            AlertType::ExcessiveSpeed => "ExcessiveSpeed"@,
            AlertType::StaleData => "StaleData"@,
            AlertType::ConflictDetected => "ConflictDetected"@,
            AlertType::MaintenanceRequired => "MaintenanceRequired"@,
            AlertType::EmergencyStop => "EmergencyStop"@,
        }
    }

    /// The name of the kind, as it is written in messages.
    pub fn name(&self) -> (s: String)
        ensures
            s@ == self.spec_name(),
    {
        match self {
            AlertType::HighDelay => "HighDelay".to_owned(),
            AlertType::ExcessiveSpeed => "ExcessiveSpeed".to_owned(),
            AlertType::StaleData => "StaleData".to_owned(),
            AlertType::ConflictDetected => "ConflictDetected".to_owned(),
            AlertType::MaintenanceRequired => "MaintenanceRequired".to_owned(),
            AlertType::EmergencyStop => "EmergencyStop".to_owned(),
        }
    }
}

impl AlertSeverity {
    pub open spec fn spec_name(&self) -> Seq<char> {
        match self {
            AlertSeverity::Low => "Low"@,
            AlertSeverity::Medium => "Medium"@,
            AlertSeverity::High => "High"@,
            AlertSeverity::Critical => "Critical"@,
        }
    }

    /// The name of the grade, as it is written in messages.
    pub fn name(&self) -> (s: String)
        ensures
            s@ == self.spec_name(),
    {
        match self {
            AlertSeverity::Low => "Low".to_owned(),
            AlertSeverity::Medium => "Medium".to_owned(),
            AlertSeverity::High => "High".to_owned(),
            AlertSeverity::Critical => "Critical".to_owned(),
        }
    }
}

impl ConflictSeverity {
    pub open spec fn spec_name(&self) -> Seq<char> {
        match self {
            ConflictSeverity::Low => "Low"@,
            ConflictSeverity::Medium => "Medium"@,
            ConflictSeverity::High => "High"@,
            ConflictSeverity::Critical => "Critical"@,
        }
    }

    /// The name of the grade, as it is written in messages.
    pub fn name(&self) -> (s: String)
        ensures
            s@ == self.spec_name(),
    {
        match self {
            ConflictSeverity::Low => "Low".to_owned(),
            ConflictSeverity::Medium => "Medium".to_owned(),
            ConflictSeverity::High => "High".to_owned(),
            ConflictSeverity::Critical => "Critical".to_owned(),
        }
    }
}

impl TrainService {
    pub fn new() -> (service: TrainService) {
        TrainService {  }
    }
}

/// Why a train is not fit to be stored, if it is not: the first rule that
/// it breaks.
pub open spec fn train_defect(train: TrainView) -> Option<Seq<char>> {
    if train.train_number == 0 {
        Some("Train number cannot be zero"@)
    } else if train.name.len() == 0 {
        Some("Train name cannot be empty"@)
    } else if train.route.len() == 0 {
        Some("Train route cannot be empty"@)
    } else {
        None
    }
}

/// The place of the first train of a fleet that runs under `number`.
pub open spec fn first_with_number(trains: Seq<TrainView>, number: u32) -> Option<int>
    decreases trains.len(),
{
    if trains.len() == 0 {
        None
    } else {
        match first_with_number(trains.drop_last(), number) {
            Some(i) => Some(i),
            None => if trains.last().train_number == number {
                Some(trains.len() - 1)
            } else {
                None
            },
        }
    }
}

/// `first_with_number` names the first train under the number, if any.
pub proof fn lemma_first_with_number(trains: Seq<TrainView>, number: u32)
    ensures
        match first_with_number(trains, number) {
            Some(i) => 0 <= i < trains.len() && trains[i].train_number == number && forall|k: int|
                0 <= k < i ==> (#[trigger] trains[k]).train_number != number,
            None => forall|k: int|
                0 <= k < trains.len() ==> (#[trigger] trains[k]).train_number != number,
        },
    decreases trains.len(),
{
    if trains.len() > 0 {
        lemma_first_with_number(trains.drop_last(), number);
        assert forall|k: int| 0 <= k < trains.len() - 1 implies trains.drop_last()[k]
            == trains[k] by {}
        match first_with_number(trains.drop_last(), number) {
            Some(i) => {
                assert(trains.drop_last()[i] == trains[i]);
                assert forall|k: int| 0 <= k < i implies (#[trigger] trains[k]).train_number
                    != number by {
                    assert(trains.drop_last()[k] == trains[k]);
                }
            },
            None => {
                assert forall|k: int| 0 <= k < trains.len() - 1 implies (
                #[trigger] trains[k]).train_number != number by {
                    assert(trains.drop_last()[k] == trains[k]);
                }
            },
        }
    }
}

/// "Train not found: ID", the text of every failed lookup.
pub open spec fn not_found_text(train_id: Seq<char>) -> Seq<char> {
    "Train not found: "@ + train_id
}

/// What becomes of an attempt to register `train` while the fleet
/// `active` is on the rails.
pub open spec fn creation_verdict(train: TrainView, active: Seq<TrainView>) -> Option<
    (ErrorKind, Seq<char>),
> {
    match train_defect(train) {
        Some(reason) => Some((ErrorKind::Validation, reason)),
        None => if first_with_number(active, train.train_number) is Some {
            Some(
                (
                    ErrorKind::Conflict,
                    "Train number "@ + decimal(train.train_number as nat) + " already exists"@,
                ),
            )
        } else {
            None
        },
    }
}

/// What becomes of an attempt to replace the train under `train_id`, of
/// which the store holds `existing`, by `updated`.
pub open spec fn update_verdict(
    train_id: Seq<char>,
    updated: TrainView,
    existing: Option<TrainView>,
    active: Seq<TrainView>,
) -> Option<(ErrorKind, Seq<char>)> {
    match train_defect(updated) {
        Some(reason) => Some((ErrorKind::Validation, reason)),
        None => if existing is None {
            Some((ErrorKind::NotFound, not_found_text(train_id)))
        } else {
            match first_with_number(active, updated.train_number) {
                Some(i) => if active[i].id != train_id {
                    Some(
                        (
                            ErrorKind::Conflict,
                            "Train number "@ + decimal(updated.train_number as nat)
                                + " is already in use by another train"@,
                        ),
                    )
                } else {
                    None
                },
                None => None,
            }
        },
    }
}

/// What becomes of an attempt to delete a train of which the store holds
/// `existing`.
pub open spec fn deletion_verdict(train_id: Seq<char>, existing: Option<TrainView>) -> Option<
    (ErrorKind, Seq<char>),
> {
    match existing {
        None => Some((ErrorKind::NotFound, not_found_text(train_id))),
        Some(train) => if train.status == TrainStatus::Running {
            Some((ErrorKind::Validation, "Cannot delete a train that is currently running"@))
        } else {
            None
        },
    }
}

/// The registry after an attempt to delete the train under `train_id`: the
/// train leaves only where the attempt is allowed.
pub open spec fn registry_after_delete(
    registry: Map<Seq<char>, TrainView>,
    train_id: Seq<char>,
) -> Map<Seq<char>, TrainView> {
    let existing = if registry.contains_key(train_id) {
        Some(registry[train_id])
    } else {
        None
    };
    if deletion_verdict(train_id, existing) is None {
        registry.remove(train_id)
    } else {
        registry
    }
}

/// Whether `result` agrees with `verdict`: the error that the verdict
/// names, or success where it names none.
pub open spec fn agrees<T>(result: ServiceResult<T>, verdict: Option<(ErrorKind, Seq<char>)>)
    -> bool {
    match verdict {
        Some((kind, detail)) => fails_with(result, kind, detail),
        None => result is Ok,
    }
}

/// The view of what an option holds.
pub open spec fn view_of(train: Option<Train>) -> Option<TrainView> {
    match train {
        Some(t) => Some(t@),
        None => None,
    }
}

/// A train after a telemetry update at `now`. A positive delay marks the
/// train as delayed unless the update names a status itself.
pub open spec fn after_update(
    train: TrainView,
    position: Option<crate::models::GeoPoint>,
    speed: Option<Milli>,
    delay: Option<i32>,
    status: Option<TrainStatus>,
    section: Option<Seq<char>>,
    now: Timestamp,
) -> TrainView {
    TrainView {
        position: match position {
            Some(p) => p,
            None => train.position,
        },
        speed_kmh: match speed {
            Some(s) => s,
            None => train.speed_kmh,
        },
        delay_minutes: match delay {
            Some(d) => d,
            None => train.delay_minutes,
        },
        status: match status {
            Some(s) => s,
            None => match delay {
                Some(d) => if d > 0 {
                    TrainStatus::Delayed
                } else {
                    train.status
                },
                None => train.status,
            },
        },
        current_section: match section {
            Some(s) => s,
            None => train.current_section,
        },
        updated_at: now,
        ..train
    }
}

fn not_found(train_id: &str) -> (error: ServiceError)
    ensures
        error.spec_kind() == ErrorKind::NotFound,
        error.detail() == not_found_text(train_id@),
{
    let mut text = "Train not found: ".to_owned();
    text.append(train_id);
    ServiceError::NotFound(text)
}

impl TrainService {
    /// Accepts a train that is fit to be stored and turns any other away
    /// with the first rule that it breaks.
    pub fn validate_train(&self, train: &Train) -> (checked: ServiceResult<()>)
        ensures
            match train_defect(train@) {
                Some(reason) => fails_with(checked, ErrorKind::Validation, reason),
                None => checked is Ok,
            },
    {
        if train.train_number == 0 {
            return Err(ServiceError::Validation("Train number cannot be zero".to_owned()));
        }
        if train.name.as_str().is_empty() {
            return Err(ServiceError::Validation("Train name cannot be empty".to_owned()));
        }
        if train.route.len() == 0 {
            return Err(ServiceError::Validation("Train route cannot be empty".to_owned()));
        }
        Ok(())
    }

    /// The place of the first train of the fleet that runs under `number`.
    pub fn position_of_number(trains: &Vec<Train>, number: u32) -> (place: Option<usize>)
        ensures
            match place {
                Some(i) => first_with_number(views(trains@), number) == Some(i as int) && i
                    < trains@.len(),
                None => first_with_number(views(trains@), number) is None,
            },
    {
        let mut i: usize = 0;
        assert(views(trains@).take(0) =~= Seq::<TrainView>::empty());
        while i < trains.len()
            invariant
                0 <= i <= trains.len(),
                first_with_number(views(trains@).take(i as int), number) is None,
            decreases trains.len() - i,
        {
            let ghost upto = views(trains@).take(i as int + 1);
            assert(upto.drop_last() =~= views(trains@).take(i as int));
            assert(upto.last() == trains@[i as int]@);
            if trains[i].train_number == number {
                proof {
                    lemma_first_with_number(views(trains@), number);
                    lemma_first_with_number(upto, number);
                    assert(upto[i as int] == views(trains@)[i as int]);
                    let found = first_with_number(views(trains@), number);
                    assert(found is Some);
                    if found.unwrap() < i {
                        assert(upto[found.unwrap()] == views(trains@)[found.unwrap()]);
                    }
                }
                return Some(i);
            }
            i += 1;
        }
        assert(views(trains@).take(trains.len() as int) =~= views(trains@));
        None
    }

    /// The first train of the fleet that runs under `train_number`.
    pub fn get_train_by_number(&self, trains: &Vec<Train>, train_number: u32) -> (found: Option<
        Train,
    >)
        ensures
            match first_with_number(views(trains@), train_number) {
                Some(i) => view_of(found) == Some(trains@[i]@),
                None => found is None,
            },
    {
        match TrainService::position_of_number(trains, train_number) {
            Some(i) => Some(trains[i].clone()),
            None => None,
        }
    }

    /// Decides whether `train` may be registered while the fleet
    /// `active_trains` is on the rails: it must be fit to be stored, and its
    /// number must not be in use.
    pub fn create_train(&self, train: &Train, active_trains: &Vec<Train>) -> (decided:
        ServiceResult<()>)
        ensures
            agrees(decided, creation_verdict(train@, views(active_trains@))),
    {
        match self.validate_train(train) {
            Err(e) => {
                return Err(e);
            },
            Ok(()) => {},
        }
        match TrainService::position_of_number(active_trains, train.train_number) {
            Some(_) => {
                let mut text = "Train number ".to_owned();
                push_decimal(&mut text, train.train_number as u64);
                text.append(" already exists");
                Err(ServiceError::Conflict(text))
            },
            None => Ok(()),
        }
    }

    /// Turns what the store found under `train_id` into the train, or into
    /// the error that says it is not there.
    pub fn get_train(&self, train_id: &str, found: Option<Train>) -> (train: ServiceResult<Train>)
        ensures
            match found {
                Some(t) => train == Ok::<Train, ServiceError>(t),
                None => fails_with(train, ErrorKind::NotFound, not_found_text(train_id@)),
            },
    {
        match found {
            Some(t) => Ok(t),
            None => Err(not_found(train_id)),
        }
    }

    /// A lookup that finds nothing is no error where the caller asks
    /// whether a train exists; any other error stays one.
    pub fn get_train_by_id(&self, lookup: ServiceResult<Train>) -> (found: ServiceResult<
        Option<Train>,
    >)
        ensures
            match lookup {
                Ok(t) => found == Ok::<Option<Train>, ServiceError>(Some(t)),
                Err(e) => if e.spec_kind() == ErrorKind::NotFound {
                    found == Ok::<Option<Train>, ServiceError>(None)
                } else {
                    found == Err::<Option<Train>, ServiceError>(e)
                },
            },
    {
        match lookup {
            Ok(t) => Ok(Some(t)),
            Err(ServiceError::NotFound(_)) => Ok(None),
            Err(e) => Err(e),
        }
    }

    /// Records a position report: the train as it is to be stored, and the
    /// event that notes the speed.
    pub fn update_train_position(&self, train: Train, position: crate::models::GeoPoint, speed: Milli) -> (stored:
        (Train, TrainEvent))
        ensures
            stored.0@ == train@.with_position(position, speed, stored.0@.updated_at),
            stored.1@ == TrainEvent::recorded_view(
                stored.1@.id,
                stored.1@.timestamp,
                train@.id,
                TrainEventType::SpeedChange,
                position,
            ).with_speed(speed),
    {
        let mut train = train;
        train.update_position(position, speed);
        let event = TrainEvent::new(train.id.clone(), TrainEventType::SpeedChange, position)
            .with_speed(speed);
        (train, event)
    }

    /// Records a reported delay: the train as it is to be stored, and the
    /// event that notes the delay with its reason.
    pub fn add_train_delay(&self, train: Train, delay: i32, reason: Option<String>) -> (stored: (
        Train,
        TrainEvent,
    ))
        requires
            i32::MIN <= train.delay_minutes + delay <= i32::MAX,
        ensures
            stored.0@ == train@.with_added_delay(delay as int, stored.0@.updated_at),
            ({
                let noted = TrainEvent::recorded_view(
                    stored.1@.id,
                    stored.1@.timestamp,
                    train@.id,
                    TrainEventType::Delay,
                    train@.position,
                ).with_delay(delay);
                stored.1@ == match reason {
                    Some(r) => noted.with_reason(r@),
                    None => noted,
                }
            }),
    {
        let mut train = train;
        train.add_delay(delay);
        let mut event = TrainEvent::new(train.id.clone(), TrainEventType::Delay, train.position)
            .with_delay(delay);
        match reason {
            Some(r) => {
                event.metadata.reason = Some(r);
            },
            None => {},
        }
        (train, event)
    }

    /// Moves a train to another section at the current instant.
    pub fn move_train_to_section(&self, train: Train, new_section_id: &str) -> (moved: Train)
        ensures
            moved@ == (TrainView {
                current_section: new_section_id@,
                updated_at: moved@.updated_at,
                ..train@
            }),
    {
        let now = current_time();
        self.move_train_to_section_at(train, new_section_id, now)
    }

    /// Moves a train to another section at `now`.
    pub fn move_train_to_section_at(&self, train: Train, new_section_id: &str, now: Timestamp) -> (moved:
        Train)
        ensures
            moved@ == (TrainView {
                current_section: new_section_id@,
                updated_at: now,
                ..train@
            }),
    {
        let mut train = train;
        train.current_section = new_section_id.to_owned();
        train.updated_at = now;
        train
    }

    /// Applies a telemetry update at the current instant.
    pub fn update_train_status(&self, train: Train, update_request: TrainUpdateRequest) -> (updated:
        Train)
        ensures
            updated@ == after_update(
                train@,
                update_request.position,
                update_request.speed_kmh,
                update_request.delay_minutes,
                update_request.status,
                crate::models::events::text_of(update_request.current_section),
                updated@.updated_at,
            ),
    {
        let now = current_time();
        self.update_train_status_at(train, update_request, now)
    }

    /// Applies a telemetry update at `now`: every field that the update
    /// names is taken over, the others stay.
    pub fn update_train_status_at(&self, train: Train, update_request: TrainUpdateRequest, now: Timestamp) -> (updated:
        Train)
        ensures
            updated@ == after_update(
                train@,
                update_request.position,
                update_request.speed_kmh,
                update_request.delay_minutes,
                update_request.status,
                crate::models::events::text_of(update_request.current_section),
                now,
            ),
    {
        let mut train = train;
        match update_request.position {
            Some(position) => {
                train.position = position;
            },
            None => {},
        }
        match update_request.speed_kmh {
            Some(speed) => {
                train.speed_kmh = speed;
            },
            None => {},
        }
        match update_request.delay_minutes {
            Some(delay) => {
                train.delay_minutes = delay;
                if delay > 0 {
                    train.status = TrainStatus::Delayed;
                }
            },
            None => {},
        }
        match update_request.status {
            Some(status) => {
                train.status = status;
            },
            None => {},
        }
        match update_request.current_section {
            Some(section) => {
                train.current_section = section;
            },
            None => {},
        }
        train.updated_at = now;
        train
    }

    /// Decides whether the train under `train_id` may be replaced by
    /// `updated_train`, and gives the train as it is to be stored: under
    /// `train_id` and stamped with the current instant.
    pub fn update_train(
        &self,
        train_id: &str,
        updated_train: Train,
        existing: Option<&Train>,
        active_trains: &Vec<Train>,
    ) -> (decided: ServiceResult<Train>)
        ensures
            agrees(
                decided,
                update_verdict(
                    train_id@,
                    updated_train@,
                    match existing {
                        Some(t) => Some(t@),
                        None => None,
                    },
                    views(active_trains@),
                ),
            ),
            decided matches Ok(stored) ==> stored@ == (TrainView {
                id: train_id@,
                updated_at: stored@.updated_at,
                ..updated_train@
            }),
    {
        let now = current_time();
        self.update_train_at(train_id, updated_train, existing, active_trains, now)
    }

    /// Decides whether the train under `train_id` may be replaced by
    /// `updated_train`, and gives the train as it is to be stored: under
    /// `train_id` and stamped `now`.
    pub fn update_train_at(
        &self,
        train_id: &str,
        updated_train: Train,
        existing: Option<&Train>,
        active_trains: &Vec<Train>,
        now: Timestamp,
    ) -> (decided: ServiceResult<Train>)
        ensures
            agrees(
                decided,
                update_verdict(
                    train_id@,
                    updated_train@,
                    match existing {
                        Some(t) => Some(t@),
                        None => None,
                    },
                    views(active_trains@),
                ),
            ),
            decided matches Ok(stored) ==> stored@ == (TrainView {
                id: train_id@,
                updated_at: now,
                ..updated_train@
            }),
    {
        match self.validate_train(&updated_train) {
            Err(e) => {
                return Err(e);
            },
            Ok(()) => {},
        }
        if existing.is_none() {
            return Err(not_found(train_id));
        }
        match TrainService::position_of_number(active_trains, updated_train.train_number) {
            Some(i) => {
                if !crate::text::is_text(&active_trains[i].id, train_id) {
                    let mut text = "Train number ".to_owned();
                    push_decimal(&mut text, updated_train.train_number as u64);
                    text.append(" is already in use by another train");
                    return Err(ServiceError::Conflict(text));
                }
            },
            None => {},
        }
        let mut train = updated_train;
        train.id = train_id.to_owned();
        train.updated_at = now;
        Ok(train)
    }

    /// Decides whether the train under `train_id`, of which the store holds
    /// `existing`, may be deleted. A train that is running may not, and
    /// stays.
    pub fn delete_train(&self, train_id: &str, existing: Option<&Train>) -> (decided:
        ServiceResult<()>)
        ensures
            agrees(
                decided,
                deletion_verdict(
                    train_id@,
                    match existing {
                        Some(t) => Some(t@),
                        None => None,
                    },
                ),
            ),
    {
        match existing {
            None => Err(not_found(train_id)),
            Some(train) => {
                if train.status == TrainStatus::Running {
                    Err(
                        ServiceError::Validation(
                            "Cannot delete a train that is currently running".to_owned(),
                        ),
                    )
                } else {
                    Ok(())
                }
            },
        }
    }

    /// Turns what the store reported of a deletion into the result: a
    /// deletion that removed nothing means that the train was not there.
    pub fn confirm_delete(&self, train_id: &str, deleted: bool) -> (confirmed: ServiceResult<()>)
        ensures
            deleted ==> confirmed is Ok,
            !deleted ==> fails_with(confirmed, ErrorKind::NotFound, not_found_text(train_id@)),
    {
        if deleted {
            Ok(())
        } else {
            Err(not_found(train_id))
        }
    }
}

/// A running train cannot be deleted: the attempt is a validation error,
/// not a failed lookup, and the train is still in the registry afterwards.
pub proof fn lemma_running_train_stays(registry: Map<Seq<char>, TrainView>, train_id: Seq<char>)
    requires
        registry.contains_key(train_id),
        registry[train_id].status == TrainStatus::Running,
    ensures
        deletion_verdict(train_id, Some(registry[train_id])) matches Some((kind, _)) && kind
            == ErrorKind::Validation,
        registry_after_delete(registry, train_id) == registry,
        registry_after_delete(registry, train_id).contains_key(train_id),
{
}

/// A train that is not running can be deleted, and is gone afterwards; a
/// train that is not there cannot.
pub proof fn lemma_deletion_outcomes(registry: Map<Seq<char>, TrainView>, train_id: Seq<char>)
    ensures
        registry.contains_key(train_id) && registry[train_id].status != TrainStatus::Running
            ==> !registry_after_delete(registry, train_id).contains_key(train_id),
        !registry.contains_key(train_id) ==> registry_after_delete(registry, train_id) == registry,
        deletion_verdict(train_id, None) matches Some((kind, _)) && kind == ErrorKind::NotFound,
{
}

/// Every update stamps the train: whatever the update names, the train
/// carries the instant of the update afterwards.
pub proof fn lemma_update_advances_stamp(
    train: TrainView,
    position: Option<crate::models::GeoPoint>,
    speed: Option<Milli>,
    delay: Option<i32>,
    status: Option<TrainStatus>,
    section: Option<Seq<char>>,
    now: Timestamp,
)
    ensures
        after_update(train, position, speed, delay, status, section, now).updated_at == now,
        after_update(train, position, speed, delay, status, section, now).id == train.id,
        (delay matches Some(d) && d > 0 && status is None) ==> after_update(
            train,
            position,
            speed,
            delay,
            status,
            section,
            now,
        ).status == TrainStatus::Delayed,
{
}

} // verus!
