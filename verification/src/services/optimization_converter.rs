//! Conversions between the requests and answers of this service and the
//! messages of the solver.

use vstd::prelude::*;
use crate::time::{Timestamp, MILLIS_PER_HOUR};
use crate::text::{decimal, push_decimal, is_text};
use crate::models::{Milli, TrainPriority, views, clone_texts};
use crate::models::train::{Train, TrainView};
use crate::runtime::{current_time, new_identifier, to_lowercase, lowercase};
use crate::services::wire;
use crate::services::optimization_service::{OptimizationRequest, OptimizationResponse,
    OptimizationResponseView, OptimizationConstraint, ConstraintType, OptimizationObjective,
    TrainScheduleUpdate, TrainScheduleUpdateView, SpeedProfilePoint, SimulationRequest,
    SimulationResponse, SimulationResults, SimulationEvent, PerformanceComparison, WhatIfChange,
    WhatIfChangeType, Parameter};

verus! {

/// The conversions between the service and the solver.
#[derive(Debug)]
pub struct OptimizationConverter;

/// Seats that a passenger coach is taken to have.
pub const SEATS_PER_COACH: u32 = 72;

/// Hours that a train is taken to run where the solver names no arrival.
pub const ASSUMED_RUN_HOURS: i64 = 2;

/// The names and values of a list of parameters.
pub open spec fn parameter_views(parameters: Seq<Parameter>) -> Seq<(Seq<char>, Seq<char>)> {
    parameters.map_values(|p: Parameter| (p.name@, p.value@))
}

/// An instant as the solver writes it.
pub open spec fn to_wire_time(instant: Timestamp) -> wire::Timestamp {
    wire::Timestamp {
        seconds: (instant.millis / 1000) as i64,
        nanos: ((instant.millis % 1000) * 1_000_000) as i32,
    }
}

/// The instant that the solver wrote, to the millisecond; none where the
/// nanoseconds are not below a second or the instant cannot be held.
pub open spec fn from_wire_time(written: wire::Timestamp) -> Option<Timestamp> {
    let millis = written.seconds * 1000 + written.nanos / 1_000_000;
    if 0 <= written.nanos < 1_000_000_000 && i64::MIN <= millis <= i64::MAX {
        Some(Timestamp { millis: millis as i64 })
    } else {
        None
    }
}

/// An instant survives the way to the solver and back.
pub proof fn lemma_wire_time_round_trip(instant: Timestamp)
    ensures
        from_wire_time(to_wire_time(instant)) == Some(instant),
{
    let m = instant.millis as int;
    assert(0 <= m % 1000 < 1000);
    assert(m == (m / 1000) * 1000 + m % 1000) by (nonlinear_arith);
    assert((m % 1000) * 1_000_000 / 1_000_000 == m % 1000) by (nonlinear_arith)
        requires
            0 <= m % 1000 < 1000,
    ;
    assert(-9_223_372_036_854_776 <= m / 1000 <= 9_223_372_036_854_775) by (nonlinear_arith)
        requires
            -0x8000_0000_0000_0000 <= m <= 0x7fff_ffff_ffff_ffff,
    ;
}

pub open spec fn wire_priority(priority: TrainPriority) -> wire::TrainPriority {
    match priority {
        TrainPriority::Emergency => wire::TrainPriority::PriorityEmergency,
        TrainPriority::Express => wire::TrainPriority::PriorityExpress,
        TrainPriority::Mail => wire::TrainPriority::PriorityMail,
        TrainPriority::Passenger => wire::TrainPriority::PriorityPassenger,
        TrainPriority::Freight => wire::TrainPriority::PriorityFreight,
        TrainPriority::Maintenance => wire::TrainPriority::PriorityMaintenance,
    }
}

/// The kind of train that the solver is told for each precedence class.
pub open spec fn wire_type_for(priority: TrainPriority) -> wire::TrainType {
    match priority {
        TrainPriority::Express => wire::TrainType::Express,
        TrainPriority::Mail => wire::TrainType::Mail,
        TrainPriority::Freight => wire::TrainType::Freight,
        _ => wire::TrainType::Passenger,
    }
}

pub open spec fn wire_constraint_type(constraint_type: ConstraintType) -> wire::ConstraintType {
    match constraint_type {
        ConstraintType::SafetyDistance => wire::ConstraintType::SafetyDistance,
        ConstraintType::PlatformCapacity => wire::ConstraintType::PlatformCapacity,
        ConstraintType::TrainPriority => wire::ConstraintType::TrainPriority,
        ConstraintType::MaintenanceWindow => wire::ConstraintType::MaintenanceWindow,
        ConstraintType::SpeedLimit => wire::ConstraintType::SpeedLimit,
        ConstraintType::CrossingTime => wire::ConstraintType::CrossingTime,
    }
}

pub open spec fn wire_objective_type(objective: OptimizationObjective) -> wire::ObjectiveType {
    match objective {
        OptimizationObjective::MinimizeDelay => wire::ObjectiveType::MinimizeDelay,
        OptimizationObjective::MaximizeThroughput => wire::ObjectiveType::MaximizeThroughput,
        OptimizationObjective::MinimizeEnergyConsumption => wire::ObjectiveType::MinimizeEnergyConsumption,
        OptimizationObjective::BalancedOptimal => wire::ObjectiveType::BalancedOptimal,
    }
}

/// The modification that the solver is told for each kind of change: what
/// it has no word for is told as the nearest it has.
pub open spec fn wire_modification_type(change_type: WhatIfChangeType) -> wire::ModificationType {
    match change_type {
        WhatIfChangeType::AddTrain => wire::ModificationType::AddTrain,
        WhatIfChangeType::RemoveTrain => wire::ModificationType::CancelTrain,
        WhatIfChangeType::DelayTrain => wire::ModificationType::DelayTrain,
        WhatIfChangeType::ChangeRoute => wire::ModificationType::ChangeRoute,
        WhatIfChangeType::BlockSection => wire::ModificationType::DelayTrain,
        WhatIfChangeType::ChangeCapacity => wire::ModificationType::ChangePriority,
    }
}

/// The kind of train that a word in lower case names; a passenger train
/// where the word names none.
pub open spec fn train_type_named(lowered: Seq<char>) -> wire::TrainType {
    if lowered == "passenger"@ {
        wire::TrainType::Passenger
    } else if lowered == "express"@ {
        wire::TrainType::Express
    } else if lowered == "freight"@ {
        wire::TrainType::Freight
    } else if lowered == "mail"@ {
        wire::TrainType::Mail
    } else if lowered == "maintenance"@ {
        wire::TrainType::Maintenance
    } else if lowered == "empty"@ {
        wire::TrainType::Empty
    } else {
        wire::TrainType::Passenger
    }
}

/// The precedence class that a word in lower case names; that of a
/// passenger train where the word names none.
pub open spec fn train_priority_named(lowered: Seq<char>) -> wire::TrainPriority {
    if lowered == "emergency"@ {
        wire::TrainPriority::PriorityEmergency
    } else if lowered == "express"@ {
        wire::TrainPriority::PriorityExpress
    } else if lowered == "mail"@ {
        wire::TrainPriority::PriorityMail
    } else if lowered == "passenger"@ {
        wire::TrainPriority::PriorityPassenger
    } else if lowered == "freight"@ {
        wire::TrainPriority::PriorityFreight
    } else if lowered == "maintenance"@ {
        wire::TrainPriority::PriorityMaintenance
    } else {
        wire::TrainPriority::PriorityPassenger
    }
}

/// The settings that every request to the solver carries.
pub open spec fn standing_config() -> wire::OptimizationConfig {
    wire::OptimizationConfig {
        max_solver_time_seconds: 30,
        enable_preprocessing: true,
        num_search_workers: 4,
        strategy: wire::SolverStrategy::Automatic,
        enable_detailed_logging: false,
    }
}

/// The seats of a train, no more than the field holds.
pub open spec fn seats(passenger_coaches: u32) -> u32 {
    if passenger_coaches * SEATS_PER_COACH > u32::MAX {
        u32::MAX
    } else {
        (passenger_coaches * SEATS_PER_COACH) as u32
    }
}

/// The first station of a route, and the empty text for an empty route.
pub open spec fn first_or_empty(route: Seq<Seq<char>>) -> Seq<char> {
    if route.len() > 0 {
        route[0]
    } else {
        Seq::empty()
    }
}

/// The last station of a route, and the empty text for an empty route.
pub open spec fn last_or_empty(route: Seq<Seq<char>>) -> Seq<char> {
    if route.len() > 0 {
        route.last()
    } else {
        Seq::empty()
    }
}

/// Whether `told` is what the solver is told of `train`.
pub open spec fn tells_of_train(told: wire::Train, train: TrainView) -> bool {
    &&& told.id@ == train.id
    &&& told.train_number == train.train_number
    &&& told.train_type == wire_type_for(train.priority)
    &&& told.priority == wire_priority(train.priority)
    &&& told.capacity_passengers == seats(train.consist.passenger_coaches)
    &&& told.length_meters == train.consist.total_length_meters
    &&& told.max_speed_kmh == train.consist.max_speed_kmh
    &&& told.scheduled_departure == Some(to_wire_time(train.eta_next_station))
    &&& told.scheduled_arrival == Some(
        to_wire_time(train.eta_next_station.spec_plus_millis(ASSUMED_RUN_HOURS * MILLIS_PER_HOUR)),
    )
    &&& told.origin_station@ == first_or_empty(train.route)
    &&& told.destination_station@ == last_or_empty(train.route)
    &&& views(told.route_sections@) == train.route
    &&& told.characteristics matches Some(c) && c.acceleration_ms2.thousandths == 1000
        && c.deceleration_ms2.thousandths == 1000 && c.power_kw.thousandths == 1_000_000
        && c.weight_tons.thousandths == 400_000 && c.passenger_load_percent == 80 && c.is_electric
        && c.required_platforms@.len() == 0
}

/// Whether `entry` is the schedule entry that the solver is told for
/// `train`.
pub open spec fn tells_of_schedule(entry: wire::TrainScheduleEntry, train: TrainView) -> bool {
    &&& entry.train_id@ == train.id
    &&& entry.train_number == train.train_number
    &&& entry.scheduled_departure == Some(to_wire_time(train.eta_next_station))
    &&& entry.scheduled_arrival == Some(
        to_wire_time(train.eta_next_station.spec_plus_millis(ASSUMED_RUN_HOURS * MILLIS_PER_HOUR)),
    )
    &&& entry.platform == 1
    &&& entry.priority_applied == wire_priority(train.priority)
    &&& entry.delay_adjustment_minutes == train.delay_minutes
    &&& entry.conflicts_resolved@.len() == 0
    &&& entry.speed_profile@.len() == 0
}

/// Whether `told` is what the solver is told of `constraint`: a constraint
/// of priority 3 or less binds.
pub open spec fn tells_of_constraint(told: wire::Constraint, constraint: OptimizationConstraint)
    -> bool {
    &&& told.id@.len() == 36
    &&& told.constraint_type == wire_constraint_type(constraint.constraint_type)
    &&& told.priority == constraint.priority
    &&& parameter_views(told.parameters@) == parameter_views(constraint.parameters@)
    &&& told.is_hard_constraint == (constraint.priority <= 3)
}

/// Whether `told` is what the solver is told of `change`.
pub open spec fn tells_of_change(told: wire::ScheduleModification, change: WhatIfChange) -> bool {
    &&& told.modification_type == wire_modification_type(change.change_type)
    &&& told.train_id@ == match change.train_id {
        Some(id) => id@,
        None => Seq::empty(),
    }
    &&& parameter_views(told.parameters@) == parameter_views(change.parameters@)
}

pub open spec fn speed_point_of(point: wire::SpeedProfilePoint) -> SpeedProfilePoint {
    SpeedProfilePoint {
        position_km: point.position_km,
        speed_kmh: point.speed_kmh,
        time_offset_minutes: point.time_offset_minutes,
    }
}

/// What the solver's schedule entry says, read at `now`: where the solver
/// names no departure the train leaves now, where it names no arrival the
/// train arrives in two hours; platform zero means no platform.
pub open spec fn schedule_update_of(entry: wire::TrainScheduleEntry, now: Timestamp)
    -> TrainScheduleUpdateView {
    TrainScheduleUpdateView {
        train_id: entry.train_id@,
        new_departure_time: match entry.scheduled_departure {
            Some(written) => match from_wire_time(written) {
                Some(t) => t,
                None => now,
            },
            None => now,
        },
        new_arrival_time: match entry.scheduled_arrival {
            Some(written) => match from_wire_time(written) {
                Some(t) => t,
                None => now.spec_plus_millis(ASSUMED_RUN_HOURS * MILLIS_PER_HOUR),
            },
            None => now.spec_plus_millis(ASSUMED_RUN_HOURS * MILLIS_PER_HOUR),
        },
        assigned_platform: if entry.platform > 0 {
            Some("PF"@ + decimal(entry.platform as nat))
        } else {
            None
        },
        speed_profile: entry.speed_profile@.map_values(
            |p: wire::SpeedProfilePoint| speed_point_of(p),
        ),
        delay_adjustment_minutes: entry.delay_adjustment_minutes,
    }
}

/// What the solver's answer says, read at `now`: it counts as a success
/// when the solver found an optimal or a feasible schedule, and its word is
/// the error where there is one, else the reasoning.
pub open spec fn response_of(
    response: wire::OptimizationResponse,
    kpis: wire::PerformanceMetrics,
    now: Timestamp,
) -> OptimizationResponseView {
    OptimizationResponseView {
        success: response.status == wire::OptimizationStatus::Optimal || response.status
            == wire::OptimizationStatus::Feasible,
        optimized_schedule: response.optimized_schedule@.map_values(
            |e: wire::TrainScheduleEntry| schedule_update_of(e, now),
        ),
        objective_value: kpis.total_delay_minutes,
        computation_time_ms: response.execution_time_ms,
        conflicts_resolved: kpis.conflicts_resolved,
        total_delay_reduction_minutes: kpis.total_delay_minutes,
        message: if response.error_message@.len() == 0 {
            response.reasoning@
        } else {
            response.error_message@
        },
    }
}

pub open spec fn comparison_of(written: wire::PerformanceComparison) -> PerformanceComparison {
    PerformanceComparison {
        baseline_delay_minutes: written.baseline_delay_minutes,
        scenario_delay_minutes: written.scenario_delay_minutes,
        improvement_percent: written.improvement_percent,
        baseline_throughput: written.baseline_throughput,
        scenario_throughput: written.scenario_throughput,
        throughput_improvement_percent: written.throughput_improvement_percent,
    }
}

/// Whether `event` is what the solver's event says, read at `now`.
pub open spec fn reads_event(event: SimulationEvent, written: wire::SimulationEvent, now: Timestamp)
    -> bool {
    &&& event.timestamp == match written.timestamp {
        Some(w) => match from_wire_time(w) {
            Some(t) => t,
            None => now,
        },
        None => now,
    }
    &&& event.event_type@ == written.event_type@
    &&& event.train_id@ == written.train_id@
    &&& event.section_id@ == written.section_id@
    &&& event.description@ == written.description@
}

/// Whether `read` is what the solver's simulation answer says, read at
/// `now`.
pub open spec fn reads_simulation(
    read: SimulationResponse,
    written: wire::SimulationResponse,
    now: Timestamp,
) -> bool {
    &&& written.simulation_results matches Some(results)
    &&& written.performance_comparison matches Some(comparison)
    &&& read.success == written.success
    &&& read.scenario_name@ == written.scenario_name@
    &&& read.simulation_results.total_trains_processed == results.total_trains_processed
    &&& read.simulation_results.average_delay_minutes == results.average_delay_minutes
    &&& read.simulation_results.throughput_trains_per_hour == results.throughput_trains_per_hour
    &&& read.simulation_results.conflicts_detected == results.conflicts_detected
    &&& read.simulation_results.utilization_percent == results.utilization_percent
    &&& read.simulation_results.timeline_events@.len() == results.timeline_events@.len()
    &&& forall|i: int|
        0 <= i < results.timeline_events@.len() ==> reads_event(
            #[trigger] read.simulation_results.timeline_events@[i],
            results.timeline_events@[i],
            now,
        )
    &&& read.performance_comparison == comparison_of(comparison)
    &&& views(read.recommendations@) == views(written.recommendations@)
}

fn clone_parameters(parameters: &Vec<Parameter>) -> (copy: Vec<Parameter>)
    ensures
        parameter_views(copy@) == parameter_views(parameters@),
{
    let mut copy: Vec<Parameter> = Vec::new();
    let mut i: usize = 0;
    while i < parameters.len()
        invariant
            0 <= i <= parameters.len(),
            parameter_views(copy@) == parameter_views(parameters@).take(i as int),
        decreases parameters.len() - i,
    {
        let ghost listed = parameter_views(copy@);
        copy.push(
            Parameter { name: parameters[i].name.clone(), value: parameters[i].value.clone() },
        );
        assert(parameter_views(copy@) =~= listed.push(parameter_views(parameters@)[i as int]));
        assert(parameter_views(parameters@).take(i as int + 1) =~= parameter_views(
            parameters@,
        ).take(i as int).push(parameter_views(parameters@)[i as int]));
        i += 1;
    }
    assert(parameter_views(parameters@).take(parameters.len() as int) =~= parameter_views(
        parameters@,
    ));
    copy
}

impl OptimizationConverter {
    /// An instant as the solver writes it.
    pub fn to_wire_time(instant: Timestamp) -> (written: wire::Timestamp)
        ensures
            written == to_wire_time(instant),
    {
        let mut seconds: i64 = instant.millis / 1000;
        let mut rest: i64 = instant.millis % 1000;
        if rest < 0 {
            seconds = seconds - 1;
            rest = rest + 1000;
        }
        wire::Timestamp { seconds, nanos: (rest * 1_000_000) as i32 }
    }

    /// The instant that the solver wrote, if it can be held.
    pub fn from_wire_time(written: wire::Timestamp) -> (instant: Option<Timestamp>)
        ensures
            instant == from_wire_time(written),
    {
        if written.nanos < 0 || written.nanos >= 1_000_000_000 {
            return None;
        }
        let millis: i128 = written.seconds as i128 * 1000 + (written.nanos / 1_000_000) as i128;
        if millis < i64::MIN as i128 || millis > i64::MAX as i128 {
            None
        } else {
            Some(Timestamp { millis: millis as i64 })
        }
    }

    pub fn to_proto_train_priority_enum(priority: TrainPriority) -> (told: Result<
        wire::TrainPriority,
        String,
    >)
        ensures
            told == Ok::<wire::TrainPriority, String>(wire_priority(priority)),
    {
        match priority {
            TrainPriority::Emergency => Ok(wire::TrainPriority::PriorityEmergency),
            TrainPriority::Express => Ok(wire::TrainPriority::PriorityExpress),
            TrainPriority::Mail => Ok(wire::TrainPriority::PriorityMail),
            TrainPriority::Passenger => Ok(wire::TrainPriority::PriorityPassenger),
            TrainPriority::Freight => Ok(wire::TrainPriority::PriorityFreight),
            TrainPriority::Maintenance => Ok(wire::TrainPriority::PriorityMaintenance),
        }
    }

    pub fn to_proto_constraint_type(constraint_type: ConstraintType) -> (told: Result<
        wire::ConstraintType,
        String,
    >)
        ensures
            told == Ok::<wire::ConstraintType, String>(wire_constraint_type(constraint_type)),
    {
        Ok(
            match constraint_type {
                ConstraintType::SafetyDistance => wire::ConstraintType::SafetyDistance,
                ConstraintType::PlatformCapacity => wire::ConstraintType::PlatformCapacity,
                ConstraintType::TrainPriority => wire::ConstraintType::TrainPriority,
                ConstraintType::MaintenanceWindow => wire::ConstraintType::MaintenanceWindow,
                ConstraintType::SpeedLimit => wire::ConstraintType::SpeedLimit,
                ConstraintType::CrossingTime => wire::ConstraintType::CrossingTime,
            },
        )
    }

    pub fn to_proto_objective_type(objective: OptimizationObjective) -> (told: Result<
        wire::ObjectiveType,
        String,
    >)
        ensures
            told == Ok::<wire::ObjectiveType, String>(wire_objective_type(objective)),
    {
        Ok(
            match objective {
                OptimizationObjective::MinimizeDelay => wire::ObjectiveType::MinimizeDelay,
                OptimizationObjective::MaximizeThroughput => wire::ObjectiveType::MaximizeThroughput,
                OptimizationObjective::MinimizeEnergyConsumption => wire::ObjectiveType::MinimizeEnergyConsumption,
                OptimizationObjective::BalancedOptimal => wire::ObjectiveType::BalancedOptimal,
            },
        )
    }

    pub fn to_proto_modification_type(change_type: WhatIfChangeType) -> (told: Result<
        wire::ModificationType,
        String,
    >)
        ensures
            told == Ok::<wire::ModificationType, String>(wire_modification_type(change_type)),
    {
        Ok(
            match change_type {
                WhatIfChangeType::AddTrain => wire::ModificationType::AddTrain,
                WhatIfChangeType::RemoveTrain => wire::ModificationType::CancelTrain,
                WhatIfChangeType::DelayTrain => wire::ModificationType::DelayTrain,
                WhatIfChangeType::ChangeRoute => wire::ModificationType::ChangeRoute,
                WhatIfChangeType::BlockSection => wire::ModificationType::DelayTrain,
                WhatIfChangeType::ChangeCapacity => wire::ModificationType::ChangePriority,
            },
        )
    }

    /// The kind of train that a word in lower case names.
    pub fn train_type_named(lowered: &String) -> (kind: wire::TrainType)
        ensures
            kind == train_type_named(lowered@),
    {
        if is_text(lowered, "passenger") {
            wire::TrainType::Passenger
        } else if is_text(lowered, "express") {
            wire::TrainType::Express
        } else if is_text(lowered, "freight") {
            wire::TrainType::Freight
        } else if is_text(lowered, "mail") {
            wire::TrainType::Mail
        } else if is_text(lowered, "maintenance") {
            wire::TrainType::Maintenance
        } else if is_text(lowered, "empty") {
            wire::TrainType::Empty
        } else {
            wire::TrainType::Passenger
        }
    }

    /// The kind of train that a word names, whatever its case.
    pub fn to_proto_train_type(train_type: &str) -> (told: Result<wire::TrainType, String>)
        ensures
            told == Ok::<wire::TrainType, String>(train_type_named(lowercase(train_type@))),
    {
        let lowered = to_lowercase(train_type);
        Ok(OptimizationConverter::train_type_named(&lowered))
    }

    /// The precedence class that a word in lower case names.
    pub fn train_priority_named(lowered: &String) -> (class: wire::TrainPriority)
        ensures
            class == train_priority_named(lowered@),
    {
        if is_text(lowered, "emergency") {
            wire::TrainPriority::PriorityEmergency
        } else if is_text(lowered, "express") {
            wire::TrainPriority::PriorityExpress
        } else if is_text(lowered, "mail") {
            wire::TrainPriority::PriorityMail
        } else if is_text(lowered, "passenger") {
            wire::TrainPriority::PriorityPassenger
        } else if is_text(lowered, "freight") {
            wire::TrainPriority::PriorityFreight
        } else if is_text(lowered, "maintenance") {
            wire::TrainPriority::PriorityMaintenance
        } else {
            wire::TrainPriority::PriorityPassenger
        }
    }

    /// The precedence class that a word names, whatever its case.
    pub fn to_proto_train_priority(priority: &str) -> (told: Result<wire::TrainPriority, String>)
        ensures
            told == Ok::<wire::TrainPriority, String>(
                train_priority_named(lowercase(priority@)),
            ),
    {
        let lowered = to_lowercase(priority);
        Ok(OptimizationConverter::train_priority_named(&lowered))
    }

    pub fn default_optimization_config() -> (config: wire::OptimizationConfig)
        ensures
            config == standing_config(),
    {
        wire::OptimizationConfig {
            max_solver_time_seconds: 30,
            enable_preprocessing: true,
            num_search_workers: 4,
            strategy: wire::SolverStrategy::Automatic,
            enable_detailed_logging: false,
        }
    }

    /// The objective as the solver is told it: no second objective, a
    /// minute to solve, preprocessing on.
    pub fn to_proto_objective(objective: OptimizationObjective) -> (told: Result<
        wire::OptimizationObjective,
        String,
    >)
        ensures
            told matches Ok(o) && o.primary_objective == wire_objective_type(objective)
                && o.secondary_objectives@.len() == 0 && o.time_limit_seconds.thousandths
                == 60_000 && o.enable_preprocessing,
    {
        Ok(
            wire::OptimizationObjective {
                primary_objective: match objective {
                    OptimizationObjective::MinimizeDelay => wire::ObjectiveType::MinimizeDelay,
                    OptimizationObjective::MaximizeThroughput => wire::ObjectiveType::MaximizeThroughput,
                    OptimizationObjective::MinimizeEnergyConsumption => wire::ObjectiveType::MinimizeEnergyConsumption,
                    OptimizationObjective::BalancedOptimal => wire::ObjectiveType::BalancedOptimal,
                },
                secondary_objectives: Vec::new(),
                time_limit_seconds: Milli { thousandths: 60_000 },
                enable_preprocessing: true,
            },
        )
    }

    /// What the solver is told of a train.
    pub fn to_proto_train(train: &Train) -> (told: Result<wire::Train, String>)
        ensures
            told matches Ok(t) && tells_of_train(t, train@),
    {
        let train_type = match train.priority {
            TrainPriority::Express => wire::TrainType::Express,
            TrainPriority::Mail => wire::TrainType::Mail,
            TrainPriority::Freight => wire::TrainType::Freight,
            _ => wire::TrainType::Passenger,
        };
        let priority = match train.priority {
            TrainPriority::Emergency => wire::TrainPriority::PriorityEmergency,
            TrainPriority::Express => wire::TrainPriority::PriorityExpress,
            TrainPriority::Mail => wire::TrainPriority::PriorityMail,
            TrainPriority::Passenger => wire::TrainPriority::PriorityPassenger,
            TrainPriority::Freight => wire::TrainPriority::PriorityFreight,
            TrainPriority::Maintenance => wire::TrainPriority::PriorityMaintenance,
        };
        let capacity: u32 = if train.consist.passenger_coaches > u32::MAX / SEATS_PER_COACH {
            u32::MAX
        } else {
            train.consist.passenger_coaches * SEATS_PER_COACH
        };
        let origin = if train.route.len() > 0 {
            train.route[0].clone()
        } else {
            String::new()
        };
        let destination = if train.route.len() > 0 {
            train.route[train.route.len() - 1].clone()
        } else {
            String::new()
        };
        Ok(
            wire::Train {
                id: train.id.clone(),
                train_number: train.train_number,
                train_type,
                priority,
                capacity_passengers: capacity,
                length_meters: train.consist.total_length_meters,
                max_speed_kmh: train.consist.max_speed_kmh,
                scheduled_departure: Some(
                    OptimizationConverter::to_wire_time(train.eta_next_station),
                ),
                scheduled_arrival: Some(
                    OptimizationConverter::to_wire_time(
                        train.eta_next_station.plus_millis(ASSUMED_RUN_HOURS * MILLIS_PER_HOUR),
                    ),
                ),
                origin_station: origin,
                destination_station: destination,
                route_sections: clone_texts(&train.route),
                characteristics: Some(
                    wire::TrainCharacteristics {
                        acceleration_ms2: Milli { thousandths: 1000 },
                        deceleration_ms2: Milli { thousandths: 1000 },
                        power_kw: Milli { thousandths: 1_000_000 },
                        weight_tons: Milli { thousandths: 400_000 },
                        passenger_load_percent: 80,
                        is_electric: true,
                        required_platforms: Vec::new(),
                    },
                ),
            },
        )
    }

    /// What the solver is told of a constraint, under a fresh identifier.
    pub fn to_proto_constraint(constraint: &OptimizationConstraint) -> (told: Result<
        wire::Constraint,
        String,
    >)
        ensures
            told matches Ok(c) && tells_of_constraint(c, *constraint),
    {
        Ok(
            wire::Constraint {
                id: new_identifier(),
                constraint_type: match constraint.constraint_type {
                    ConstraintType::SafetyDistance => wire::ConstraintType::SafetyDistance,
                    ConstraintType::PlatformCapacity => wire::ConstraintType::PlatformCapacity,
                    ConstraintType::TrainPriority => wire::ConstraintType::TrainPriority,
                    ConstraintType::MaintenanceWindow => wire::ConstraintType::MaintenanceWindow,
                    ConstraintType::SpeedLimit => wire::ConstraintType::SpeedLimit,
                    ConstraintType::CrossingTime => wire::ConstraintType::CrossingTime,
                },
                priority: constraint.priority as u32,
                parameters: clone_parameters(&constraint.parameters),
                is_hard_constraint: constraint.priority <= 3,
            },
        )
    }

    /// What the solver is told of a change to try.
    pub fn to_proto_modification(change: &WhatIfChange) -> (told: Result<
        wire::ScheduleModification,
        String,
    >)
        ensures
            told matches Ok(m) && tells_of_change(m, *change),
    {
        Ok(
            wire::ScheduleModification {
                modification_type: match change.change_type {
                    WhatIfChangeType::AddTrain => wire::ModificationType::AddTrain,
                    WhatIfChangeType::RemoveTrain => wire::ModificationType::CancelTrain,
                    WhatIfChangeType::DelayTrain => wire::ModificationType::DelayTrain,
                    WhatIfChangeType::ChangeRoute => wire::ModificationType::ChangeRoute,
                    WhatIfChangeType::BlockSection => wire::ModificationType::DelayTrain,
                    WhatIfChangeType::ChangeCapacity => wire::ModificationType::ChangePriority,
                },
                train_id: match &change.train_id {
                    Some(id) => id.clone(),
                    None => String::new(),
                },
                parameters: clone_parameters(&change.parameters),
            },
        )
    }

    /// The schedule entry that the solver is told for a train: on the first
    /// platform, arriving two hours after it is due at its next station.
    pub fn train_to_schedule_entry(train: &Train) -> (told: Result<wire::TrainScheduleEntry, String>)
        ensures
            told matches Ok(e) && tells_of_schedule(e, train@),
    {
        Ok(
            wire::TrainScheduleEntry {
                train_id: train.id.clone(),
                train_number: train.train_number,
                scheduled_departure: Some(
                    OptimizationConverter::to_wire_time(train.eta_next_station),
                ),
                scheduled_arrival: Some(
                    OptimizationConverter::to_wire_time(
                        train.eta_next_station.plus_millis(ASSUMED_RUN_HOURS * MILLIS_PER_HOUR),
                    ),
                ),
                platform: 1,
                priority_applied: match train.priority {
                    TrainPriority::Emergency => wire::TrainPriority::PriorityEmergency,
                    TrainPriority::Express => wire::TrainPriority::PriorityExpress,
                    TrainPriority::Mail => wire::TrainPriority::PriorityMail,
                    TrainPriority::Passenger => wire::TrainPriority::PriorityPassenger,
                    TrainPriority::Freight => wire::TrainPriority::PriorityFreight,
                    TrainPriority::Maintenance => wire::TrainPriority::PriorityMaintenance,
                },
                delay_adjustment_minutes: train.delay_minutes,
                conflicts_resolved: Vec::new(),
                speed_profile: Vec::new(),
            },
        )
    }

    /// Reads a schedule entry of the solver at `now`.
    pub fn schedule_update_at(entry: &wire::TrainScheduleEntry, now: Timestamp) -> (update:
        TrainScheduleUpdate)
        ensures
            update@ == schedule_update_of(*entry, now),
    {
        let departure = match entry.scheduled_departure {
            Some(written) => match OptimizationConverter::from_wire_time(written) {
                Some(t) => t,
                None => now,
            },
            None => now,
        };
        let arrival = match entry.scheduled_arrival {
            Some(written) => match OptimizationConverter::from_wire_time(written) {
                Some(t) => t,
                None => now.plus_millis(ASSUMED_RUN_HOURS * MILLIS_PER_HOUR),
            },
            None => now.plus_millis(ASSUMED_RUN_HOURS * MILLIS_PER_HOUR),
        };
        let platform = if entry.platform > 0 {
            let mut text = "PF".to_owned();
            push_decimal(&mut text, entry.platform as u64);
            Some(text)
        } else {
            None
        };
        let ghost wanted = entry.speed_profile@.map_values(
            |p: wire::SpeedProfilePoint| speed_point_of(p),
        );
        let mut profile: Vec<SpeedProfilePoint> = Vec::new();
        let mut i: usize = 0;
        while i < entry.speed_profile.len()
            invariant
                0 <= i <= entry.speed_profile.len(),
                wanted == entry.speed_profile@.map_values(
                    |p: wire::SpeedProfilePoint| speed_point_of(p),
                ),
                profile@ == wanted.take(i as int),
            decreases entry.speed_profile.len() - i,
        {
            let point = entry.speed_profile[i];
            profile.push(
                SpeedProfilePoint {
                    position_km: point.position_km,
                    speed_kmh: point.speed_kmh,
                    time_offset_minutes: point.time_offset_minutes,
                },
            );
            assert(profile@ =~= wanted.take(i as int).push(wanted[i as int]));
            assert(wanted.take(i as int + 1) =~= wanted.take(i as int).push(wanted[i as int]));
            i += 1;
        }
        assert(wanted.take(entry.speed_profile.len() as int) =~= wanted);
        TrainScheduleUpdate {
            train_id: entry.train_id.clone(),
            new_departure_time: departure,
            new_arrival_time: arrival,
            assigned_platform: platform,
            speed_profile: profile,
            delay_adjustment_minutes: entry.delay_adjustment_minutes,
        }
    }

    /// Reads a schedule entry of the solver at the current instant.
    pub fn from_proto_schedule_entry(entry: &wire::TrainScheduleEntry) -> (read: Result<
        TrainScheduleUpdate,
        String,
    >)
        ensures
            read matches Ok(update) && exists|now: Timestamp|
                update@ == #[trigger] schedule_update_of(*entry, now),
    {
        let now = current_time();
        let update = OptimizationConverter::schedule_update_at(entry, now);
        assert(update@ == schedule_update_of(*entry, now));
        Ok(update)
    }

    /// Reads the solver's answer at `now`. An answer without figures cannot
    /// be read.
    pub fn optimization_response_at(response: &wire::OptimizationResponse, now: Timestamp) -> (read:
        Result<OptimizationResponse, String>)
        ensures
            match response.kpis {
                Some(kpis) => read matches Ok(r) && r@ == response_of(*response, kpis, now),
                None => read matches Err(e) && e@ == "Missing performance metrics"@,
            },
    {
        let kpis = match response.kpis {
            Some(k) => k,
            None => {
                return Err("Missing performance metrics".to_owned());
            },
        };
        let ghost wanted = response.optimized_schedule@.map_values(
            |e: wire::TrainScheduleEntry| schedule_update_of(e, now),
        );
        let mut schedule: Vec<TrainScheduleUpdate> = Vec::new();
        let mut i: usize = 0;
        while i < response.optimized_schedule.len()
            invariant
                0 <= i <= response.optimized_schedule.len(),
                wanted == response.optimized_schedule@.map_values(
                    |e: wire::TrainScheduleEntry| schedule_update_of(e, now),
                ),
                views(schedule@) == wanted.take(i as int),
            decreases response.optimized_schedule.len() - i,
        {
            let ghost listed = views(schedule@);
            let update = OptimizationConverter::schedule_update_at(
                &response.optimized_schedule[i],
                now,
            );
            schedule.push(update);
            assert(views(schedule@) =~= listed.push(wanted[i as int]));
            assert(wanted.take(i as int + 1) =~= wanted.take(i as int).push(wanted[i as int]));
            i += 1;
        }
        assert(wanted.take(response.optimized_schedule.len() as int) =~= wanted);
        let success = match response.status {
            wire::OptimizationStatus::Optimal => true,
            wire::OptimizationStatus::Feasible => true,
            _ => false,
        };
        Ok(
            OptimizationResponse {
                success,
                optimized_schedule: schedule,
                objective_value: kpis.total_delay_minutes,
                computation_time_ms: response.execution_time_ms,
                conflicts_resolved: kpis.conflicts_resolved,
                total_delay_reduction_minutes: kpis.total_delay_minutes,
                message: if response.error_message.as_str().is_empty() {
                    response.reasoning.clone()
                } else {
                    response.error_message.clone()
                },
            },
        )
    }

    /// Reads the solver's answer at the current instant.
    pub fn from_proto_optimization_response(response: &wire::OptimizationResponse) -> (read: Result<
        OptimizationResponse,
        String,
    >)
        ensures
            match response.kpis {
                Some(kpis) => read matches Ok(r) && exists|now: Timestamp|
                    r@ == #[trigger] response_of(*response, kpis, now),
                None => read matches Err(e) && e@ == "Missing performance metrics"@,
            },
    {
        let now = current_time();
        let read = OptimizationConverter::optimization_response_at(response, now);
        proof {
            if response.kpis is Some {
                assert(read.unwrap()@ == response_of(*response, response.kpis.unwrap(), now));
            }
        }
        read
    }

    /// Reads an event of the solver's simulation at `now`.
    pub fn simulation_event_at(written: &wire::SimulationEvent, now: Timestamp) -> (event:
        SimulationEvent)
        ensures
            reads_event(event, *written, now),
    {
        SimulationEvent {
            timestamp: match written.timestamp {
                Some(w) => match OptimizationConverter::from_wire_time(w) {
                    Some(t) => t,
                    None => now,
                },
                None => now,
            },
            event_type: written.event_type.clone(),
            train_id: written.train_id.clone(),
            section_id: written.section_id.clone(),
            description: written.description.clone(),
        }
    }

    /// Reads an event of the solver's simulation at the current instant.
    pub fn from_proto_simulation_event(written: &wire::SimulationEvent) -> (read: Result<
        SimulationEvent,
        String,
    >)
        ensures
            read is Ok,
            exists|now: Timestamp| #[trigger] reads_event(read.unwrap(), *written, now),
    {
        let now = current_time();
        let event = OptimizationConverter::simulation_event_at(written, now);
        let read = Ok(event);
        assert(reads_event(read.unwrap(), *written, now));
        read
    }

    /// Reads the solver's simulation answer at `now`. An answer without
    /// results or without comparison cannot be read.
    pub fn simulation_response_at(response: &wire::SimulationResponse, now: Timestamp) -> (read:
        Result<SimulationResponse, String>)
        ensures
            response.simulation_results is None ==> (read matches Err(e) && e@
                == "Missing simulation results"@),
            response.simulation_results is Some && response.performance_comparison is None ==> (
            read matches Err(e) && e@ == "Missing performance comparison"@),
            response.simulation_results is Some && response.performance_comparison is Some ==> (
            read matches Ok(r) && reads_simulation(r, *response, now)),
    {
        let results = match &response.simulation_results {
            Some(r) => r,
            None => {
                return Err("Missing simulation results".to_owned());
            },
        };
        let comparison = match response.performance_comparison {
            Some(c) => c,
            None => {
                return Err("Missing performance comparison".to_owned());
            },
        };
        let mut events: Vec<SimulationEvent> = Vec::new();
        let mut i: usize = 0;
        while i < results.timeline_events.len()
            invariant
                0 <= i <= results.timeline_events.len(),
                events@.len() == i,
                forall|k: int|
                    0 <= k < i ==> reads_event(
                        #[trigger] events@[k],
                        results.timeline_events@[k],
                        now,
                    ),
            decreases results.timeline_events.len() - i,
        {
            let event = OptimizationConverter::simulation_event_at(&results.timeline_events[i], now);
            events.push(event);
            i += 1;
        }
        Ok(
            SimulationResponse {
                success: response.success,
                scenario_name: response.scenario_name.clone(),
                simulation_results: SimulationResults {
                    total_trains_processed: results.total_trains_processed,
                    average_delay_minutes: results.average_delay_minutes,
                    throughput_trains_per_hour: results.throughput_trains_per_hour,
                    conflicts_detected: results.conflicts_detected,
                    utilization_percent: results.utilization_percent,
                    timeline_events: events,
                },
                performance_comparison: PerformanceComparison {
                    baseline_delay_minutes: comparison.baseline_delay_minutes,
                    scenario_delay_minutes: comparison.scenario_delay_minutes,
                    improvement_percent: comparison.improvement_percent,
                    baseline_throughput: comparison.baseline_throughput,
                    scenario_throughput: comparison.scenario_throughput,
                    throughput_improvement_percent: comparison.throughput_improvement_percent,
                },
                recommendations: clone_texts(&response.recommendations),
            },
        )
    }

    /// Reads the solver's simulation answer at the current instant.
    pub fn from_proto_simulation_response(response: &wire::SimulationResponse) -> (read: Result<
        SimulationResponse,
        String,
    >)
        ensures
            response.simulation_results is None ==> (read matches Err(e) && e@
                == "Missing simulation results"@),
            response.simulation_results is Some && response.performance_comparison is None ==> (
            read matches Err(e) && e@ == "Missing performance comparison"@),
            response.simulation_results is Some && response.performance_comparison is Some ==> (
            read matches Ok(r) && exists|now: Timestamp| #[trigger]
                reads_simulation(r, *response, now)),
    {
        let now = current_time();
        let read = OptimizationConverter::simulation_response_at(response, now);
        proof {
            if response.simulation_results is Some && response.performance_comparison is Some {
                assert(reads_simulation(read.unwrap(), *response, now));
            }
        }
        read
    }

    /// What the solver is asked: the request under a fresh identifier, every
    /// train and every constraint told in order, with the standing settings.
    pub fn to_proto_optimization_request(request: &OptimizationRequest) -> (told: Result<
        wire::OptimizationRequest,
        String,
    >)
        ensures
            told matches Ok(t) && {
                &&& t.request_id@.len() == 36
                &&& t.section_id@ == request.section_id@
                &&& t.time_horizon_minutes == request.time_horizon_minutes
                &&& t.trains@.len() == request.trains@.len()
                &&& forall|i: int|
                    0 <= i < request.trains@.len() ==> tells_of_train(
                        #[trigger] t.trains@[i],
                        request.trains@[i]@,
                    )
                &&& t.constraints@.len() == request.constraints@.len()
                &&& forall|i: int|
                    0 <= i < request.constraints@.len() ==> tells_of_constraint(
                        #[trigger] t.constraints@[i],
                        request.constraints@[i],
                    )
                &&& t.objective matches Some(o) && o.primary_objective == wire_objective_type(
                    request.objective,
                )
                &&& t.disruptions@.len() == 0
                &&& t.requested_at is Some
                &&& t.config == Some(standing_config())
            },
    {
        let request_id = new_identifier();
        let requested_at = Some(OptimizationConverter::to_wire_time(current_time()));
        let mut trains: Vec<wire::Train> = Vec::new();
        let mut i: usize = 0;
        while i < request.trains.len()
            invariant
                0 <= i <= request.trains.len(),
                trains@.len() == i,
                forall|k: int|
                    0 <= k < i ==> tells_of_train(#[trigger] trains@[k], request.trains@[k]@),
            decreases request.trains.len() - i,
        {
            match OptimizationConverter::to_proto_train(&request.trains[i]) {
                Ok(train) => {
                    trains.push(train);
                },
                Err(e) => {
                    return Err(e);
                },
            }
            i += 1;
        }
        let mut constraints: Vec<wire::Constraint> = Vec::new();
        let mut j: usize = 0;
        while j < request.constraints.len()
            invariant
                0 <= j <= request.constraints.len(),
                constraints@.len() == j,
                forall|k: int|
                    0 <= k < j ==> tells_of_constraint(
                        #[trigger] constraints@[k],
                        request.constraints@[k],
                    ),
            decreases request.constraints.len() - j,
        {
            match OptimizationConverter::to_proto_constraint(&request.constraints[j]) {
                Ok(constraint) => {
                    constraints.push(constraint);
                },
                Err(e) => {
                    return Err(e);
                },
            }
            j += 1;
        }
        let objective = match OptimizationConverter::to_proto_objective(request.objective) {
            Ok(o) => o,
            Err(e) => {
                return Err(e);
            },
        };
        Ok(
            wire::OptimizationRequest {
                request_id,
                section_id: request.section_id.clone(),
                time_horizon_minutes: request.time_horizon_minutes,
                trains,
                constraints,
                objective: Some(objective),
                disruptions: Vec::new(),
                requested_at,
                config: Some(OptimizationConverter::default_optimization_config()),
            },
        )
    }

    /// What the solver is asked to simulate: the scenario under a fresh
    /// identifier, a schedule entry for every train and a modification for
    /// every change, in order.
    pub fn to_proto_simulation_request(request: &SimulationRequest) -> (told: Result<
        wire::SimulationRequest,
        String,
    >)
        ensures
            told matches Ok(t) && {
                &&& t.request_id@.len() == 36
                &&& t.scenario_name@ == request.scenario_name@
                &&& t.section_id@ == request.section_id@
                &&& t.base_schedule@.len() == request.base_trains@.len()
                &&& forall|i: int|
                    0 <= i < request.base_trains@.len() ==> tells_of_schedule(
                        #[trigger] t.base_schedule@[i],
                        request.base_trains@[i]@,
                    )
                &&& t.modifications@.len() == request.what_if_changes@.len()
                &&& forall|i: int|
                    0 <= i < request.what_if_changes@.len() ==> tells_of_change(
                        #[trigger] t.modifications@[i],
                        request.what_if_changes@[i],
                    )
                &&& t.what_if_conditions@.len() == 0
                &&& t.simulation_duration_hours == request.simulation_duration_hours
            },
    {
        let request_id = new_identifier();
        let mut base_schedule: Vec<wire::TrainScheduleEntry> = Vec::new();
        let mut i: usize = 0;
        while i < request.base_trains.len()
            invariant
                0 <= i <= request.base_trains.len(),
                base_schedule@.len() == i,
                forall|k: int|
                    0 <= k < i ==> tells_of_schedule(
                        #[trigger] base_schedule@[k],
                        request.base_trains@[k]@,
                    ),
            decreases request.base_trains.len() - i,
        {
            match OptimizationConverter::train_to_schedule_entry(&request.base_trains[i]) {
                Ok(entry) => {
                    base_schedule.push(entry);
                },
                Err(e) => {
                    return Err(e);
                },
            }
            i += 1;
        }
        let mut modifications: Vec<wire::ScheduleModification> = Vec::new();
        let mut j: usize = 0;
        while j < request.what_if_changes.len()
            invariant
                0 <= j <= request.what_if_changes.len(),
                modifications@.len() == j,
                forall|k: int|
                    0 <= k < j ==> tells_of_change(
                        #[trigger] modifications@[k],
                        request.what_if_changes@[k],
                    ),
            decreases request.what_if_changes.len() - j,
        {
            match OptimizationConverter::to_proto_modification(&request.what_if_changes[j]) {
                Ok(modification) => {
                    modifications.push(modification);
                },
                Err(e) => {
                    return Err(e);
                },
            }
            j += 1;
        }
        Ok(
            wire::SimulationRequest {
                request_id,
                scenario_name: request.scenario_name.clone(),
                section_id: request.section_id.clone(),
                base_schedule,
                modifications,
                what_if_conditions: Vec::new(),
                simulation_duration_hours: request.simulation_duration_hours,
            },
        )
    }
}

} // verus!
