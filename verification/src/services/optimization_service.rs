//! The optimization orchestrator: it validates a request, has it delegated
//! to the solver, and answers from a locally made schedule whenever the
//! solver cannot be had. Only a request that is not valid ever fails.

use vstd::prelude::*;
use crate::time::{Timestamp, MILLIS_PER_HOUR};
use crate::text::{decimal, push_decimal};
use crate::models::{Milli, views};
use crate::models::train::Train;
use crate::runtime::{current_time, random_in_range};
use crate::services::{Service, ServiceResult, ServiceError, ErrorKind, fails_with};
use crate::services::grpc_client::{GrpcClientConfig, OptimizationClientManager};

verus! {

/// The longest horizon that a request may ask for: one day, in minutes.
pub const MAX_TIME_HORIZON_MINUTES: u32 = 1440;

/// How long the locally made schedule lets every train run, in hours.
pub const FALLBACK_RUN_HOURS: i64 = 2;

#[derive(Debug)]
pub struct OptimizationService {
    pub grpc_client_manager: OptimizationClientManager,
}

/// A named value of a constraint or of a change; `value` is JSON text.
#[derive(Debug)]
pub struct Parameter {
    pub name: String,
    pub value: String,
}

#[derive(Debug)]
pub struct OptimizationRequest {
    pub section_id: String,
    pub trains: Vec<Train>,
    pub constraints: Vec<OptimizationConstraint>,
    pub objective: OptimizationObjective,
    pub time_horizon_minutes: u32,
}

#[derive(Debug)]
pub struct OptimizationConstraint {
    pub constraint_type: ConstraintType,
    /// From 1, the most binding, to 10.
    pub priority: u8,
    pub parameters: Vec<Parameter>,
}

#[derive(Clone, Copy, Debug, PartialEq, Eq, Structural)]
pub enum ConstraintType {
    SafetyDistance,
    PlatformCapacity,
    TrainPriority,
    MaintenanceWindow,
    SpeedLimit,
    CrossingTime,
}

#[derive(Clone, Copy, Debug, PartialEq, Eq, Structural)]
pub enum OptimizationObjective {
    MinimizeDelay,
    MaximizeThroughput,
    MinimizeEnergyConsumption,
    BalancedOptimal,
}

#[derive(Debug)]
pub struct OptimizationResponse {
    pub success: bool,
    pub optimized_schedule: Vec<TrainScheduleUpdate>,
    pub objective_value: Milli,
    pub computation_time_ms: u64,
    pub conflicts_resolved: u32,
    pub total_delay_reduction_minutes: Milli,
    pub message: String,
}

pub struct OptimizationResponseView {
    pub success: bool,
    pub optimized_schedule: Seq<TrainScheduleUpdateView>,
    pub objective_value: Milli,
    pub computation_time_ms: u64,
    pub conflicts_resolved: u32,
    pub total_delay_reduction_minutes: Milli,
    pub message: Seq<char>,
}

impl View for OptimizationResponse {
    type V = OptimizationResponseView;

    open spec fn view(&self) -> OptimizationResponseView {
        OptimizationResponseView {
            success: self.success,
            optimized_schedule: views(self.optimized_schedule@),
            objective_value: self.objective_value,
            computation_time_ms: self.computation_time_ms,
            conflicts_resolved: self.conflicts_resolved,
            total_delay_reduction_minutes: self.total_delay_reduction_minutes,
            message: self.message@,
        }
    }
}

#[derive(Debug)]
pub struct TrainScheduleUpdate {
    pub train_id: String,
    pub new_departure_time: Timestamp,
    pub new_arrival_time: Timestamp,
    pub assigned_platform: Option<String>,
    pub speed_profile: Vec<SpeedProfilePoint>,
    pub delay_adjustment_minutes: i32,
}

pub struct TrainScheduleUpdateView {
    pub train_id: Seq<char>,
    pub new_departure_time: Timestamp,
    pub new_arrival_time: Timestamp,
    pub assigned_platform: Option<Seq<char>>,
    pub speed_profile: Seq<SpeedProfilePoint>,
    pub delay_adjustment_minutes: i32,
}

impl View for TrainScheduleUpdate {
    type V = TrainScheduleUpdateView;

    open spec fn view(&self) -> TrainScheduleUpdateView {
        TrainScheduleUpdateView {
            train_id: self.train_id@,
            new_departure_time: self.new_departure_time,
            new_arrival_time: self.new_arrival_time,
            assigned_platform: crate::models::events::text_of(self.assigned_platform),
            speed_profile: self.speed_profile@,
            delay_adjustment_minutes: self.delay_adjustment_minutes,
        }
    }
}

#[derive(Clone, Copy, Debug, PartialEq, Eq, Structural)]
pub struct SpeedProfilePoint {
    pub position_km: Milli,
    pub speed_kmh: Milli,
    pub time_offset_minutes: Milli,
}

#[derive(Debug)]
pub struct SimulationRequest {
    pub scenario_name: String,
    pub section_id: String,
    pub base_trains: Vec<Train>,
    pub what_if_changes: Vec<WhatIfChange>,
    pub simulation_duration_hours: Milli,
}

#[derive(Debug)]
pub struct WhatIfChange {
    pub change_type: WhatIfChangeType,
    pub train_id: Option<String>,
    pub section_id: Option<String>,
    pub parameters: Vec<Parameter>,
}

#[derive(Clone, Copy, Debug, PartialEq, Eq, Structural)]
pub enum WhatIfChangeType {
    AddTrain,
    RemoveTrain,
    DelayTrain,
    ChangeRoute,
    BlockSection,
    ChangeCapacity,
}

#[derive(Debug)]
pub struct SimulationResponse {
    pub success: bool,
    pub scenario_name: String,
    pub simulation_results: SimulationResults,
    pub performance_comparison: PerformanceComparison,
    pub recommendations: Vec<String>,
}

#[derive(Debug)]
pub struct SimulationResults {
    pub total_trains_processed: u32,
    pub average_delay_minutes: Milli,
    pub throughput_trains_per_hour: Milli,
    pub conflicts_detected: u32,
    pub utilization_percent: Milli,
    pub timeline_events: Vec<SimulationEvent>,
}

#[derive(Debug)]
pub struct SimulationEvent {
    pub timestamp: Timestamp,
    pub event_type: String,
    pub train_id: String,
    pub section_id: String,
    pub description: String,
}

#[derive(Clone, Copy, Debug, PartialEq, Eq, Structural)]
pub struct PerformanceComparison {
    pub baseline_delay_minutes: Milli,
    pub scenario_delay_minutes: Milli,
    pub improvement_percent: Milli,
    pub baseline_throughput: Milli,
    pub scenario_throughput: Milli,
    pub throughput_improvement_percent: Milli,
}

/// Why a request is turned away, if it is: the first rule that it breaks.
pub open spec fn request_defect(section_id: Seq<char>, train_count: nat, horizon: u32) -> Option<
    Seq<char>,
> {
    if section_id.len() == 0 {
        Some("Section ID cannot be empty"@)
    } else if train_count == 0 {
        Some("At least one train required for optimization"@)
    } else if horizon == 0 {
        Some("Time horizon must be greater than 0"@)
    } else if horizon > MAX_TIME_HORIZON_MINUTES {
        Some("Time horizon cannot exceed 24 hours"@)
    } else {
        None
    }
}

impl OptimizationRequest {
    /// Why this request is turned away, if it is.
    pub open spec fn defect(&self) -> Option<Seq<char>> {
        request_defect(self.section_id@, self.trains@.len(), self.time_horizon_minutes)
    }

    /// A request is valid when it names a section, holds at least one train
    /// and asks for a horizon from one minute to one day.
    pub open spec fn valid(&self) -> bool {
        &&& self.section_id@.len() > 0
        &&& self.trains@.len() > 0
        &&& 1 <= self.time_horizon_minutes <= MAX_TIME_HORIZON_MINUTES
    }

    /// The identifiers of the trains of the request, in order.
    pub open spec fn train_ids(&self) -> Seq<Seq<char>> {
        self.trains@.map_values(|t: Train| t.id@)
    }
}

/// A request has a defect exactly when it is not valid.
pub proof fn lemma_defect_iff_invalid(request: OptimizationRequest)
    ensures
        request.defect() is None <==> request.valid(),
{
}

/// What chance decides for one train of a locally made schedule.
#[derive(Clone, Copy, Debug, PartialEq, Eq, Structural)]
pub struct TrainDraw {
    /// Minutes by which the train's delay changes, from -10 to 5.
    pub delay_adjustment: i32,
    /// The platform, from 1 to 6.
    pub platform: u8,
}

/// What chance decides for a locally made schedule.
#[derive(Debug)]
pub struct FallbackDraws {
    /// From 0 to 5.
    pub conflicts_resolved: u32,
    /// From 0 to 30 minutes.
    pub delay_reduction: Milli,
    pub per_train: Vec<TrainDraw>,
}

impl TrainDraw {
    pub open spec fn in_range(self) -> bool {
        -10 <= self.delay_adjustment <= 5 && 1 <= self.platform <= 6
    }
}

impl FallbackDraws {
    /// Whether every draw lies in the range that the fallback draws from.
    pub open spec fn in_range(&self) -> bool {
        &&& self.conflicts_resolved <= 5
        &&& 0 <= self.delay_reduction.thousandths <= 30_000
        &&& forall|i: int| 0 <= i < self.per_train@.len() ==> (#[trigger] self.per_train@[i]).in_range()
    }
}

/// The speed profile of every locally made schedule entry: 60 km/h at the
/// start, 80 km/h at kilometre 50 after half an hour.
pub open spec fn fallback_profile() -> Seq<SpeedProfilePoint> {
    seq![
        SpeedProfilePoint {
            position_km: Milli { thousandths: 0 },
            speed_kmh: Milli { thousandths: 60_000 },
            time_offset_minutes: Milli { thousandths: 0 },
        },
        SpeedProfilePoint {
            position_km: Milli { thousandths: 50_000 },
            speed_kmh: Milli { thousandths: 80_000 },
            time_offset_minutes: Milli { thousandths: 30_000 },
        },
    ]
}

/// The locally made schedule entry of one train.
pub open spec fn fallback_entry(train_id: Seq<char>, now: Timestamp, draw: TrainDraw)
    -> TrainScheduleUpdateView {
    TrainScheduleUpdateView {
        train_id,
        new_departure_time: now,
        new_arrival_time: now.spec_plus_millis(FALLBACK_RUN_HOURS * MILLIS_PER_HOUR),
        assigned_platform: Some("PF"@ + decimal(draw.platform as nat)),
        speed_profile: fallback_profile(),
        delay_adjustment_minutes: draw.delay_adjustment,
    }
}

/// The words that mark an answer as made locally.
pub open spec fn fallback_message() -> Seq<char> {
    "Schedule generated by local fallback: solver unavailable"@
}

/// The answer that is made locally for a request: one entry for each train
/// of the request, in order.
pub open spec fn fallback_response(
    train_ids: Seq<Seq<char>>,
    now: Timestamp,
    conflicts_resolved: u32,
    delay_reduction: Milli,
    draws: Seq<TrainDraw>,
) -> OptimizationResponseView {
    OptimizationResponseView {
        success: true,
        optimized_schedule: Seq::new(
            train_ids.len(),
            |i: int| fallback_entry(train_ids[i], now, draws[i]),
        ),
        objective_value: Milli { thousandths: 95_500 },
        computation_time_ms: 500,
        conflicts_resolved,
        total_delay_reduction_minutes: delay_reduction,
        message: fallback_message(),
    }
}

/// What came of the attempt to have the solver answer.
#[derive(Debug)]
pub enum SolverOutcome {
    /// The solver answered; an answer that says "infeasible" is an answer.
    Answered(OptimizationResponse),
    /// The solver could not be reached, broke the protocol or took too long.
    Unavailable(String),
}

/// What the orchestrator does next with a request.
#[derive(Debug)]
pub enum OptimizationStep {
    /// The request is not valid: it ends here, and the solver is not asked.
    Reject(ServiceError),
    /// The request is valid: the solver is to be asked, and to be waited
    /// for no longer than this many seconds.
    Delegate { timeout_seconds: u64 },
    /// The request is answered.
    Complete(OptimizationResponse),
}

impl OptimizationService {
    pub fn new() -> (service: OptimizationService)
        ensures
            service.grpc_client_manager.is_disconnected(),
            service.grpc_client_manager.config.is_default(),
    {
        OptimizationService {
            grpc_client_manager: OptimizationClientManager::new(GrpcClientConfig::default()),
        }
    }

    pub fn with_config(grpc_config: GrpcClientConfig) -> (service: OptimizationService)
        ensures
            service.grpc_client_manager.is_disconnected(),
            service.grpc_client_manager.config == grpc_config,
    {
        OptimizationService { grpc_client_manager: OptimizationClientManager::new(grpc_config) }
    }

    /// The objectives that a request can name.
    pub fn get_available_objectives(&self) -> (objectives: Vec<OptimizationObjective>)
        ensures
            objectives@ == seq![
                OptimizationObjective::MinimizeDelay,
                OptimizationObjective::MaximizeThroughput,
                OptimizationObjective::MinimizeEnergyConsumption,
                OptimizationObjective::BalancedOptimal,
            ],
    {
        let mut objectives = Vec::new();
        objectives.push(OptimizationObjective::MinimizeDelay);
        objectives.push(OptimizationObjective::MaximizeThroughput);
        objectives.push(OptimizationObjective::MinimizeEnergyConsumption);
        objectives.push(OptimizationObjective::BalancedOptimal);
        assert(objectives@ =~= seq![
            OptimizationObjective::MinimizeDelay,
            OptimizationObjective::MaximizeThroughput,
            OptimizationObjective::MinimizeEnergyConsumption,
            OptimizationObjective::BalancedOptimal,
        ]);
        objectives
    }

    /// Accepts a valid request and turns any other away with the first rule
    /// that it breaks.
    pub fn validate_request(&self, request: &OptimizationRequest) -> (checked: ServiceResult<()>)
        ensures
            checked is Ok <==> request.valid(),
            match request.defect() {
                Some(reason) => fails_with(checked, ErrorKind::Validation, reason),
                None => checked is Ok,
            },
    {
        if request.section_id.as_str().is_empty() {
            return Err(ServiceError::Validation("Section ID cannot be empty".to_owned()));
        }
        if request.trains.len() == 0 {
            return Err(
                ServiceError::Validation("At least one train required for optimization".to_owned()),
            );
        }
        if request.time_horizon_minutes == 0 {
            return Err(ServiceError::Validation("Time horizon must be greater than 0".to_owned()));
        }
        if request.time_horizon_minutes > MAX_TIME_HORIZON_MINUTES {
            return Err(ServiceError::Validation("Time horizon cannot exceed 24 hours".to_owned()));
        }
        Ok(())
    }

    /// The locally made entry of one train.
    pub fn fallback_entry(train: &Train, now: Timestamp, draw: TrainDraw) -> (entry:
        TrainScheduleUpdate)
        ensures
            entry@ == fallback_entry(train.id@, now, draw),
    {
        let mut platform = "PF".to_owned();
        push_decimal(&mut platform, draw.platform as u64);
        let mut speed_profile: Vec<SpeedProfilePoint> = Vec::new();
        speed_profile.push(
            SpeedProfilePoint {
                position_km: Milli { thousandths: 0 },
                speed_kmh: Milli { thousandths: 60_000 },
                time_offset_minutes: Milli { thousandths: 0 },
            },
        );
        speed_profile.push(
            SpeedProfilePoint {
                position_km: Milli { thousandths: 50_000 },
                speed_kmh: Milli { thousandths: 80_000 },
                time_offset_minutes: Milli { thousandths: 30_000 },
            },
        );
        assert(speed_profile@ =~= fallback_profile());
        TrainScheduleUpdate {
            train_id: train.id.clone(),
            new_departure_time: now,
            new_arrival_time: now.plus_millis(FALLBACK_RUN_HOURS * MILLIS_PER_HOUR),
            assigned_platform: Some(platform),
            speed_profile,
            delay_adjustment_minutes: draw.delay_adjustment,
        }
    }

    /// The answer that is made locally for `request` at `now` from what
    /// chance decided in `draws`: it has the shape of a solver's answer, with
    /// one entry for each train of the request.
    pub fn fallback_response(&self, request: &OptimizationRequest, now: Timestamp, draws: &FallbackDraws) -> (response:
        OptimizationResponse)
        requires
            draws.per_train@.len() == request.trains@.len(),
        ensures
            response@ == fallback_response(
                request.train_ids(),
                now,
                draws.conflicts_resolved,
                draws.delay_reduction,
                draws.per_train@,
            ),
    {
        let mut schedule: Vec<TrainScheduleUpdate> = Vec::new();
        let mut i: usize = 0;
        while i < request.trains.len()
            invariant
                0 <= i <= request.trains.len(),
                draws.per_train@.len() == request.trains@.len(),
                schedule@.len() == i,
                forall|k: int|
                    0 <= k < i ==> (#[trigger] schedule@[k])@ == fallback_entry(
                        request.trains@[k].id@,
                        now,
                        draws.per_train@[k],
                    ),
            decreases request.trains.len() - i,
        {
            let entry = OptimizationService::fallback_entry(
                &request.trains[i],
                now,
                draws.per_train[i],
            );
            schedule.push(entry);
            i += 1;
        }
        let response = OptimizationResponse {
            success: true,
            optimized_schedule: schedule,
            objective_value: Milli { thousandths: 95_500 },
            computation_time_ms: 500,
            conflicts_resolved: draws.conflicts_resolved,
            total_delay_reduction_minutes: draws.delay_reduction,
            message: "Schedule generated by local fallback: solver unavailable".to_owned(),
        };
        assert(response@.optimized_schedule =~= fallback_response(
            request.train_ids(),
            now,
            draws.conflicts_resolved,
            draws.delay_reduction,
            draws.per_train@,
        ).optimized_schedule);
        response
    }

    /// Lets chance decide what a locally made schedule leaves open.
    pub fn draw_fallback(train_count: usize) -> (draws: FallbackDraws)
        ensures
            draws.per_train@.len() == train_count,
            draws.in_range(),
    {
        let conflicts_resolved = random_in_range(0, 5) as u32;
        let delay_reduction = Milli { thousandths: random_in_range(0, 30_000) };
        let mut per_train: Vec<TrainDraw> = Vec::new();
        let mut i: usize = 0;
        while i < train_count
            invariant
                0 <= i <= train_count,
                per_train@.len() == i,
                forall|k: int| 0 <= k < i ==> (#[trigger] per_train@[k]).in_range(),
            decreases train_count - i,
        {
            let delay_adjustment = random_in_range(-10, 5) as i32;
            let platform = random_in_range(1, 6) as u8;
            per_train.push(TrainDraw { delay_adjustment, platform });
            i += 1;
        }
        FallbackDraws { conflicts_resolved, delay_reduction, per_train }
    }

    /// Answers `request` locally, at the current instant and with fresh
    /// draws. Whatever is drawn, the answer reports success and holds one
    /// entry for each train of the request, in order.
    pub fn mock_optimization(&self, request: &OptimizationRequest) -> (response:
        OptimizationResponse)
        ensures
            exists|now: Timestamp, draws: FallbackDraws|
                draws.in_range() && draws.per_train@.len() == request.trains@.len() && response@
                    == #[trigger] fallback_response(
                    request.train_ids(),
                    now,
                    draws.conflicts_resolved,
                    draws.delay_reduction,
                    draws.per_train@,
                ),
            response.success,
            response.optimized_schedule@.len() == request.trains@.len(),
    {
        let now = current_time();
        let draws = OptimizationService::draw_fallback(request.trains.len());
        let response = self.fallback_response(request, now, &draws);
        assert(response@ == fallback_response(
            request.train_ids(),
            now,
            draws.conflicts_resolved,
            draws.delay_reduction,
            draws.per_train@,
        ));
        assert(response@.optimized_schedule.len() == request.trains@.len());
        response
    }

    /// Settles a valid request once the solver was tried: the solver's
    /// answer as it came, or a locally made one where the solver could not
    /// be had. The failure of the solver does not show in the result.
    pub fn settle(&self, request: &OptimizationRequest, outcome: SolverOutcome) -> (response:
        OptimizationResponse)
        ensures
            match outcome {
                SolverOutcome::Answered(answer) => response == answer,
                SolverOutcome::Unavailable(_) => response.success
                    && response.optimized_schedule@.len() == request.trains@.len()
                    && exists|now: Timestamp, draws: FallbackDraws|
                    draws.in_range() && draws.per_train@.len() == request.trains@.len()
                        && response@ == #[trigger] fallback_response(
                        request.train_ids(),
                        now,
                        draws.conflicts_resolved,
                        draws.delay_reduction,
                        draws.per_train@,
                    ),
            },
    {
        match outcome {
            SolverOutcome::Answered(answer) => answer,
            SolverOutcome::Unavailable(_) => self.mock_optimization(request),
        }
    }

    /// One step of the orchestration of `request`. Before the solver was
    /// tried (`attempt` is `None`) a valid request is delegated, with the
    /// configured bound on the wait; after it the
    /// request is completed with the solver's answer or with a locally made
    /// one. A request that is not valid is rejected at every step, so the
    /// solver is never asked on its behalf.
    pub fn optimize_schedule(&self, request: &OptimizationRequest, attempt: Option<SolverOutcome>) -> (step:
        OptimizationStep)
        ensures
            match request.defect() {
                Some(reason) => step matches OptimizationStep::Reject(e) && e.spec_kind()
                    == ErrorKind::Validation && e.detail() == reason,
                None => match attempt {
                    None => step matches OptimizationStep::Delegate { timeout_seconds }
                        && timeout_seconds == self.grpc_client_manager.config.timeout_seconds,
                    Some(SolverOutcome::Answered(answer)) => step matches OptimizationStep::Complete(
                        response,
                    ) && response == answer,
                    Some(SolverOutcome::Unavailable(_)) => step matches OptimizationStep::Complete(
                        response,
                    ) && response.success && response.optimized_schedule@.len()
                        == request.trains@.len() && response.optimized_schedule@.len() > 0
                        && forall|i: int|
                        0 <= i < request.trains@.len() ==> (
                        #[trigger] response.optimized_schedule@[i]).train_id@
                            == request.trains@[i].id@,
                },
            },
    {
        match self.validate_request(request) {
            Err(e) => OptimizationStep::Reject(e),
            Ok(()) => match attempt {
                None => OptimizationStep::Delegate {
                    timeout_seconds: self.grpc_client_manager.config.timeout_seconds,
                },
                Some(outcome) => {
                    let response = self.settle(request, outcome);
                    proof {
                        if outcome is Unavailable {
                            let (now, draws) = choose|now: Timestamp, draws: FallbackDraws|
                                draws.in_range() && draws.per_train@.len()
                                    == request.trains@.len() && response@
                                    == #[trigger] fallback_response(
                                    request.train_ids(),
                                    now,
                                    draws.conflicts_resolved,
                                    draws.delay_reduction,
                                    draws.per_train@,
                                );
                            assert forall|i: int| 0 <= i < request.trains@.len() implies (
                            #[trigger] response.optimized_schedule@[i]).train_id@
                                == request.trains@[i].id@ by {
                                assert(response@.optimized_schedule[i] == fallback_entry(
                                    request.train_ids()[i],
                                    now,
                                    draws.per_train@[i],
                                ));
                            }
                        }
                    }
                    OptimizationStep::Complete(response)
                },
            },
        }
    }

    /// Whether the solver can be had: it can exactly while a connection to
    /// it stands.
    pub fn is_optimizer_available(&self) -> (available: bool)
        ensures
            available == self.grpc_client_manager.is_connected(),
    {
        self.grpc_client_manager.health_check()
    }

    /// The error that stands for a solver that could not be connected to.
    pub fn connection_failure(reason: &str) -> (error: ServiceError)
        ensures
            error.spec_kind() == ErrorKind::Optimization,
            error.detail() == "Failed to connect to optimizer: "@ + reason@,
    {
        let mut text = "Failed to connect to optimizer: ".to_owned();
        text.append(reason);
        ServiceError::Optimization(text)
    }

    /// The error that stands for a solver call that failed.
    pub fn delegation_failure(reason: &str) -> (error: ServiceError)
        ensures
            error.spec_kind() == ErrorKind::Optimization,
            error.detail() == "Optimization failed: "@ + reason@,
    {
        let mut text = "Optimization failed: ".to_owned();
        text.append(reason);
        ServiceError::Optimization(text)
    }
}

impl Service for OptimizationService {
    fn name(&self) -> (name: &'static str)
        ensures
            name@ == "OptimizationService"@,
    {
        "OptimizationService"
    }
}

/// A request whose horizon is zero or longer than a day is not valid,
/// whatever else it holds.
pub proof fn lemma_horizon_out_of_range_is_invalid(request: OptimizationRequest)
    requires
        request.time_horizon_minutes == 0 || request.time_horizon_minutes > 1440,
    ensures
        !request.valid(),
        request.defect() is Some,
{
}

/// A locally made answer reports success and holds exactly one entry for
/// each train asked about, under that train's identifier; each entry has a
/// speed profile and does not arrive before it departs.
pub proof fn lemma_fallback_is_complete(
    train_ids: Seq<Seq<char>>,
    now: Timestamp,
    conflicts_resolved: u32,
    delay_reduction: Milli,
    draws: Seq<TrainDraw>,
)
    ensures
        ({
            let response = fallback_response(
                train_ids,
                now,
                conflicts_resolved,
                delay_reduction,
                draws,
            );
            &&& response.success
            &&& response.optimized_schedule.len() == train_ids.len()
            &&& response.computation_time_ms > 0
            &&& forall|i: int|
                0 <= i < train_ids.len() ==> {
                    let entry = #[trigger] response.optimized_schedule[i];
                    &&& entry.train_id == train_ids[i]
                    &&& entry.speed_profile.len() == 2
                    &&& entry.new_departure_time.millis <= entry.new_arrival_time.millis
                    &&& entry.assigned_platform is Some
                }
        }),
{
}

} // verus!
