//! The messages that are exchanged with the solver, as plain values.

use vstd::prelude::*;
use crate::models::Milli;
use crate::services::optimization_service::Parameter;

verus! {

/// An instant as the solver writes it: whole seconds since the Unix epoch
/// and the nanoseconds past them.
#[derive(Clone, Copy, Debug, PartialEq, Eq, Structural)]
pub struct Timestamp {
    pub seconds: i64,
    pub nanos: i32,
}

#[derive(Clone, Copy, Debug, PartialEq, Eq, Structural)]
pub enum TrainType {
    Passenger,
    Express,
    Freight,
    Mail,
    Maintenance,
    Empty,
}

#[derive(Clone, Copy, Debug, PartialEq, Eq, Structural)]
pub enum TrainPriority {
    PriorityEmergency,
    PriorityExpress,
    PriorityMail,
    PriorityPassenger,
    PriorityFreight,
    PriorityMaintenance,
}

#[derive(Clone, Copy, Debug, PartialEq, Eq, Structural)]
pub enum ConstraintType {
    SafetyDistance,
    PlatformCapacity,
    TrainPriority,
    MaintenanceWindow,
    SpeedLimit,
    CrossingTime,
}

#[derive(Clone, Copy, Debug, PartialEq, Eq, Structural)]
pub enum ObjectiveType {
    MinimizeDelay,
    MaximizeThroughput,
    MinimizeEnergyConsumption,
    BalancedOptimal,
}

#[derive(Clone, Copy, Debug, PartialEq, Eq, Structural)]
pub enum ModificationType {
    AddTrain,
    CancelTrain,
    DelayTrain,
    ChangeRoute,
    ChangePriority,
}

#[derive(Clone, Copy, Debug, PartialEq, Eq, Structural)]
pub enum SolverStrategy {
    Automatic,
    FixedSearch,
    PortfolioSearch,
}

#[derive(Clone, Copy, Debug, PartialEq, Eq, Structural)]
pub enum OptimizationStatus {
    Optimal,
    Feasible,
    Infeasible,
    Unknown,
    TimeLimitExceeded,
}

#[derive(Debug)]
pub struct TrainCharacteristics {
    pub acceleration_ms2: Milli,
    pub deceleration_ms2: Milli,
    pub power_kw: Milli,
    pub weight_tons: Milli,
    pub passenger_load_percent: u32,
    pub is_electric: bool,
    pub required_platforms: Vec<String>,
}

#[derive(Debug)]
pub struct Train {
    pub id: String,
    pub train_number: u32,
    pub train_type: TrainType,
    pub priority: TrainPriority,
    pub capacity_passengers: u32,
    pub length_meters: Milli,
    pub max_speed_kmh: Milli,
    pub scheduled_departure: Option<Timestamp>,
    pub scheduled_arrival: Option<Timestamp>,
    pub origin_station: String,
    pub destination_station: String,
    pub route_sections: Vec<String>,
    pub characteristics: Option<TrainCharacteristics>,
}

#[derive(Debug)]
pub struct Constraint {
    pub id: String,
    pub constraint_type: ConstraintType,
    pub priority: u32,
    pub parameters: Vec<Parameter>,
    pub is_hard_constraint: bool,
}

#[derive(Debug)]
pub struct OptimizationObjective {
    pub primary_objective: ObjectiveType,
    pub secondary_objectives: Vec<ObjectiveType>,
    pub time_limit_seconds: Milli,
    pub enable_preprocessing: bool,
}

#[derive(Clone, Copy, Debug, PartialEq, Eq, Structural)]
pub struct OptimizationConfig {
    pub max_solver_time_seconds: u32,
    pub enable_preprocessing: bool,
    pub num_search_workers: u32,
    pub strategy: SolverStrategy,
    pub enable_detailed_logging: bool,
}

#[derive(Debug)]
pub struct OptimizationRequest {
    pub request_id: String,
    pub section_id: String,
    pub time_horizon_minutes: u32,
    pub trains: Vec<Train>,
    pub constraints: Vec<Constraint>,
    pub objective: Option<OptimizationObjective>,
    pub disruptions: Vec<String>,
    pub requested_at: Option<Timestamp>,
    pub config: Option<OptimizationConfig>,
}

#[derive(Clone, Copy, Debug, PartialEq, Eq, Structural)]
pub struct PerformanceMetrics {
    pub total_delay_minutes: Milli,
    pub average_delay_per_train: Milli,
    pub conflicts_resolved: u32,
    pub throughput_trains_per_hour: Milli,
    pub utilization_percent: Milli,
}

#[derive(Clone, Copy, Debug, PartialEq, Eq, Structural)]
pub struct SpeedProfilePoint {
    pub position_km: Milli,
    pub speed_kmh: Milli,
    pub time_offset_minutes: Milli,
}

#[derive(Debug)]
pub struct TrainScheduleEntry {
    pub train_id: String,
    pub train_number: u32,
    pub scheduled_departure: Option<Timestamp>,
    pub scheduled_arrival: Option<Timestamp>,
    pub platform: u32,
    pub priority_applied: TrainPriority,
    pub delay_adjustment_minutes: i32,
    pub conflicts_resolved: Vec<String>,
    pub speed_profile: Vec<SpeedProfilePoint>,
}

#[derive(Debug)]
pub struct OptimizationResponse {
    pub request_id: String,
    pub status: OptimizationStatus,
    pub optimized_schedule: Vec<TrainScheduleEntry>,
    pub kpis: Option<PerformanceMetrics>,
    pub reasoning: String,
    pub execution_time_ms: u64,
    pub error_message: String,
}

#[derive(Debug)]
pub struct ScheduleModification {
    pub modification_type: ModificationType,
    pub train_id: String,
    pub parameters: Vec<Parameter>,
}

#[derive(Debug)]
pub struct SimulationRequest {
    pub request_id: String,
    pub scenario_name: String,
    pub section_id: String,
    pub base_schedule: Vec<TrainScheduleEntry>,
    pub modifications: Vec<ScheduleModification>,
    pub what_if_conditions: Vec<String>,
    pub simulation_duration_hours: Milli,
}

#[derive(Debug)]
pub struct SimulationEvent {
    pub timestamp: Option<Timestamp>,
    pub event_type: String,
    pub train_id: String,
    pub section_id: String,
    pub description: String,
}

#[derive(Debug)]
pub struct SimulationResults {
    pub total_trains_processed: u32,
    pub average_delay_minutes: Milli,
    pub throughput_trains_per_hour: Milli,
    pub conflicts_detected: u32,
    pub utilization_percent: Milli,
    pub timeline_events: Vec<SimulationEvent>,
}

#[derive(Clone, Copy, Debug, PartialEq, Eq, Structural)]
pub struct PerformanceComparison {
    pub baseline_delay_minutes: Milli,
    pub scenario_delay_minutes: Milli,
    pub improvement_percent: Milli,
    pub baseline_throughput: Milli,
    pub scenario_throughput: Milli,
    pub throughput_improvement_percent: Milli,
}

#[derive(Debug)]
pub struct SimulationResponse {
    pub success: bool,
    pub scenario_name: String,
    pub simulation_results: Option<SimulationResults>,
    pub performance_comparison: Option<PerformanceComparison>,
    pub recommendations: Vec<String>,
}

} // verus!
