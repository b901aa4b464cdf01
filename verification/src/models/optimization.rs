//! What is asked of the optimizer and what it answers, as the record store
//! keeps it.

use vstd::prelude::*;
use crate::time::Timestamp;
use crate::models::{Milli, TrainPriority, WeatherType, PerformanceMetrics};
use crate::models::train::Train;
use crate::models::events::DisruptionEvent;
use crate::models::section::MaintenanceBlock;
use crate::runtime::{current_time, new_identifier};

verus! {

#[derive(Debug)]
pub struct OptimizationRequest {
    pub request_id: String,
    pub section_id: String,
    pub time_horizon_minutes: u32,
    pub trains: Vec<Train>,
    pub constraints: Vec<Constraint>,
    pub objective: OptimizationObjective,
    pub disruptions: Vec<DisruptionEvent>,
    pub requested_at: Timestamp,
}

#[derive(Debug)]
pub struct OptimizationResponse {
    pub request_id: String,
    pub status: OptimizationStatus,
    pub optimized_schedule: Vec<TrainScheduleEntry>,
    pub kpis: PerformanceMetrics,
    pub reasoning: String,
    pub confidence_score: Milli,
    pub alternatives: Vec<AlternativeSchedule>,
    pub execution_time_ms: u64,
    pub completed_at: Timestamp,
}

#[derive(Clone, Copy, Debug, PartialEq, Eq, Structural)]
pub enum OptimizationStatus {
    Optimal,
    Feasible,
    Infeasible,
    Unknown,
    TimeLimitExceeded,
}

#[derive(Debug)]
pub struct TrainScheduleEntry {
    pub train_id: String,
    pub train_number: u32,
    pub scheduled_departure: Timestamp,
    pub scheduled_arrival: Timestamp,
    pub platform: Option<u8>,
    pub priority_applied: TrainPriority,
    pub delay_adjustment: i32,
    pub conflicts_resolved: Vec<String>,
}

#[derive(Debug)]
pub struct AlternativeSchedule {
    pub name: String,
    pub description: String,
    pub schedule: Vec<TrainScheduleEntry>,
    pub kpis: PerformanceMetrics,
    pub trade_offs: String,
}

#[derive(Debug)]
pub enum Constraint {
    PrecedenceRule { higher_priority: TrainPriority, lower_priority: TrainPriority },
    BlockOccupancy { block_id: String, max_trains: u32 },
    PlatformCapacity { station: String, capacity: u32 },
    SignalSpacing { minimum_headway_seconds: u32 },
    CrossingWindow { location: String, time_window_minutes: u32 },
    SafetyConstraint { rule: String, description: String },
}

#[derive(Clone, Copy, Debug, PartialEq, Eq, Structural)]
pub enum OptimizationObjective {
    MinimizeDelay,
    MaximizeThroughput,
    BalanceDelayThroughput { delay_weight: Milli, throughput_weight: Milli },
    MinimizeFuelConsumption,
    MaximizeUtilization,
}

#[derive(Debug)]
pub struct SimulationRequest {
    pub scenario_name: String,
    pub section_id: String,
    pub base_schedule: Vec<TrainScheduleEntry>,
    pub modifications: Vec<ScheduleModification>,
    pub what_if_conditions: Vec<WhatIfCondition>,
}

#[derive(Debug)]
pub enum ScheduleModification {
    DelayTrain { train_id: String, delay_minutes: i32 },
    CancelTrain { train_id: String },
    AddTrain { train: Train },
    ChangeRoute { train_id: String, new_route: Vec<String> },
}

#[derive(Debug)]
pub enum WhatIfCondition {
    /// `impact_level` is on a scale from 1 to 10.
    WeatherDisruption { weather_type: WeatherType, impact_level: u8 },
    SignalFailure { block_id: String, duration_minutes: u32 },
    TrackMaintenance { section_id: String, maintenance_block: MaintenanceBlock },
}

/// The horizon of a request that names none: two hours, in minutes.
pub const DEFAULT_TIME_HORIZON_MINUTES: u32 = 120;

/// The headway that the standing constraints ask for: five minutes, in
/// seconds.
pub const DEFAULT_HEADWAY_SECONDS: u32 = 300;

impl Constraint {
    /// Whether this is a rule that gives `higher` precedence over `lower`.
    pub open spec fn is_precedence(&self, higher: TrainPriority, lower: TrainPriority) -> bool {
        *self matches Constraint::PrecedenceRule { higher_priority, lower_priority }
            && higher_priority == higher && lower_priority == lower
    }
}

/// Whether `constraints` are the standing ones: express before freight,
/// mail before passenger, five minutes of headway, one train to a block.
pub open spec fn standing_constraints(constraints: Seq<Constraint>) -> bool {
    &&& constraints.len() == 4
    &&& constraints[0].is_precedence(TrainPriority::Express, TrainPriority::Freight)
    &&& constraints[1].is_precedence(TrainPriority::Mail, TrainPriority::Passenger)
    &&& constraints[2] matches Constraint::SignalSpacing { minimum_headway_seconds }
        && minimum_headway_seconds == DEFAULT_HEADWAY_SECONDS
    &&& constraints[3] matches Constraint::SafetyConstraint { rule, description } && rule@
        == "single_block_occupancy"@ && description@ == "Only one train per block section"@
}

impl OptimizationRequest {
    /// The constraints of a request that names none.
    pub fn default_constraints() -> (constraints: Vec<Constraint>)
        ensures
            standing_constraints(constraints@),
    {
        let mut constraints: Vec<Constraint> = Vec::new();
        constraints.push(
            Constraint::PrecedenceRule {
                higher_priority: TrainPriority::Express,
                lower_priority: TrainPriority::Freight,
            },
        );
        constraints.push(
            Constraint::PrecedenceRule {
                higher_priority: TrainPriority::Mail,
                lower_priority: TrainPriority::Passenger,
            },
        );
        constraints.push(
            Constraint::SignalSpacing { minimum_headway_seconds: DEFAULT_HEADWAY_SECONDS },
        );
        constraints.push(
            Constraint::SafetyConstraint {
                rule: "single_block_occupancy".to_owned(),
                description: "Only one train per block section".to_owned(),
            },
        );
        constraints
    }

    /// A request for `section_id` under the identifier `request_id`, made
    /// at `now`: two hours of horizon, the standing constraints, delay
    /// weighed at 0.7 against throughput at 0.3, no disruption.
    pub fn prepared(request_id: String, now: Timestamp, section_id: String, trains: Vec<Train>) -> (request:
        OptimizationRequest)
        ensures
            request.request_id@ == request_id@,
            request.section_id@ == section_id@,
            request.time_horizon_minutes == DEFAULT_TIME_HORIZON_MINUTES,
            request.trains@ == trains@,
            standing_constraints(request.constraints@),
            request.objective == (OptimizationObjective::BalanceDelayThroughput {
                delay_weight: Milli { thousandths: 700 },
                throughput_weight: Milli { thousandths: 300 },
            }),
            request.disruptions@.len() == 0,
            request.requested_at == now,
    {
        OptimizationRequest {
            request_id,
            section_id,
            time_horizon_minutes: DEFAULT_TIME_HORIZON_MINUTES,
            trains,
            constraints: OptimizationRequest::default_constraints(),
            objective: OptimizationObjective::BalanceDelayThroughput {
                delay_weight: Milli { thousandths: 700 },
                throughput_weight: Milli { thousandths: 300 },
            },
            disruptions: Vec::new(),
            requested_at: now,
        }
    }

    /// A request for `section_id` under a fresh identifier, made at the
    /// current instant.
    pub fn new(section_id: String, trains: Vec<Train>) -> (request: OptimizationRequest)
        ensures
            request.request_id@.len() == 36,
            request.section_id@ == section_id@,
            request.time_horizon_minutes == DEFAULT_TIME_HORIZON_MINUTES,
            request.trains@ == trains@,
            standing_constraints(request.constraints@),
            request.objective == (OptimizationObjective::BalanceDelayThroughput {
                delay_weight: Milli { thousandths: 700 },
                throughput_weight: Milli { thousandths: 300 },
            }),
            request.disruptions@.len() == 0,
    {
        let now = current_time();
        let request_id = new_identifier();
        OptimizationRequest::prepared(request_id, now, section_id, trains)
    }
}

} // verus!
