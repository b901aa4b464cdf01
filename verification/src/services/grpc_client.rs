//! The link to the solver: its settings and the state of the one
//! connection that all requests share. The connection itself stands outside.

use vstd::prelude::*;
use crate::time::{Timestamp, MILLIS_PER_HOUR};
use crate::text::{parse_unsigned, parsed_unsigned};
use crate::models::{Milli, views};
use crate::models::optimization::{TrainScheduleEntry, Constraint};
use crate::runtime::{current_time, random_in_range};
use crate::services::optimization_service::{OptimizationResponse, OptimizationResponseView,
    TrainScheduleUpdate, TrainScheduleUpdateView, SpeedProfilePoint, SimulationResponse,
    SimulationRequest, OptimizationService, fallback_profile};
use crate::services::simulation::{SimulationDraws, comparison_from};

verus! {

#[derive(Debug)]
pub struct GrpcClientConfig {
    pub endpoint: String,
    pub timeout_seconds: u64,
    pub max_retries: u32,
    pub retry_delay_ms: u64,
}

impl GrpcClientConfig {
    /// Whether these are the settings that are used where nothing else is
    /// said: the solver on this machine, thirty seconds of patience, three
    /// tries a second apart.
    pub open spec fn is_default(&self) -> bool {
        &&& self.endpoint@ == "http://localhost:50051"@
        &&& self.timeout_seconds == 30
        &&& self.max_retries == 3
        &&& self.retry_delay_ms == 1000
    }
}

impl Default for GrpcClientConfig {
    fn default() -> (config: Self)
        ensures
            config.is_default(),
            config.endpoint@ == "http://localhost:50051"@,
            config.timeout_seconds == 30,
            config.max_retries == 3,
            config.retry_delay_ms == 1000,
    {
        GrpcClientConfig {
            endpoint: "http://localhost:50051".to_owned(),
            timeout_seconds: 30,
            max_retries: 3,
            retry_delay_ms: 1000,
        }
    }
}

/// Where the one connection to the solver stands.
#[derive(Clone, Copy, Debug, PartialEq, Eq, Structural)]
pub enum ConnectionState {
    Disconnected,
    Connected,
    Reconnecting,
}

/// What is to be done to have a client at hand.
#[derive(Debug)]
pub enum ClientAction {
    /// The connection stands: use it.
    Reuse,
    /// No connection stands: open one to this endpoint, with this timeout.
    Connect { endpoint: String, timeout_seconds: u64 },
}

/// The manager of the one, lazily made connection to the solver.
#[derive(Debug)]
pub struct OptimizationClientManager {
    pub config: GrpcClientConfig,
    pub state: ConnectionState,
}

impl OptimizationClientManager {
    pub open spec fn is_disconnected(&self) -> bool {
        self.state == ConnectionState::Disconnected
    }

    pub open spec fn is_connected(&self) -> bool {
        self.state == ConnectionState::Connected
    }

    /// A manager without a connection: none is made before it is needed.
    pub fn new(config: GrpcClientConfig) -> (manager: OptimizationClientManager)
        ensures
            manager.config == config,
            manager.is_disconnected(),
    {
        OptimizationClientManager { config, state: ConnectionState::Disconnected }
    }

    /// What is to be done to have a client: nothing while connected, else a
    /// connection attempt to the configured endpoint. The state stays as it
    /// is until the attempt is reported with `connection_result`.
    pub fn get_client(&self) -> (action: ClientAction)
        ensures
            self.is_connected() ==> action is Reuse,
            !self.is_connected() ==> (action matches ClientAction::Connect {
                endpoint,
                timeout_seconds,
            } && endpoint@ == self.config.endpoint@ && timeout_seconds
                == self.config.timeout_seconds),
    {
        match self.state {
            ConnectionState::Connected => ClientAction::Reuse,
            _ => ClientAction::Connect {
                endpoint: self.config.endpoint.clone(),
                timeout_seconds: self.config.timeout_seconds,
            },
        }
    }

    /// Reports how a connection attempt ended: a connection that was made is
    /// kept for every later request, a failed attempt leaves none.
    pub fn connection_result(&mut self, connected: bool)
        ensures
            final(self).config == old(self).config,
            final(self).state == if connected {
                ConnectionState::Connected
            } else {
                ConnectionState::Disconnected
            },
    {
        self.state = if connected {
            ConnectionState::Connected
        } else {
            ConnectionState::Disconnected
        };
    }

    /// Whether the solver counts as available after the client was asked
    /// for: it does exactly when a connection stands.
    pub fn health_check(&self) -> (healthy: bool)
        ensures
            healthy == self.is_connected(),
    {
        match self.state {
            ConnectionState::Connected => true,
            _ => false,
        }
    }

    /// Gives up the connection, if any, and asks for a new one.
    pub fn reconnect(&mut self) -> (action: ClientAction)
        ensures
            final(self).config == old(self).config,
            final(self).state == ConnectionState::Reconnecting,
            action matches ClientAction::Connect { endpoint, timeout_seconds } && endpoint@
                == old(self).config.endpoint@ && timeout_seconds
                == old(self).config.timeout_seconds,
    {
        self.state = ConnectionState::Reconnecting;
        ClientAction::Connect {
            endpoint: self.config.endpoint.clone(),
            timeout_seconds: self.config.timeout_seconds,
        }
    }
}

/// How far a request to the solver has come.
#[derive(Debug)]
pub struct OptimizationStatus {
    pub request_id: String,
    pub progress_percent: Milli,
    pub current_phase: String,
    pub estimated_completion_ms: u64,
}

/// The client of the solver: where it calls and how long it waits.
#[derive(Debug)]
pub struct OptimizationGrpcClient {
    pub endpoint: String,
    pub timeout_seconds: u64,
}

/// What the environment says of the link to the solver; a variable that is
/// not set is `None`.
#[derive(Debug)]
pub struct GrpcEnvironment {
    pub endpoint: Option<String>,
    pub timeout_seconds: Option<String>,
    pub max_retries: Option<String>,
    pub retry_delay_ms: Option<String>,
}

/// The number that a variable holds, or `fallback` where the variable is
/// not set or holds no number up to `max`.
pub open spec fn number_or(variable: Option<String>, max: nat, fallback: nat) -> nat {
    match variable {
        Some(text) => match parsed_unsigned(text@, max) {
            Some(n) => n,
            None => fallback,
        },
        None => fallback,
    }
}

fn read_number(variable: &Option<String>, max: u64, fallback: u64) -> (number: u64)
    requires
        fallback <= max,
    ensures
        number == number_or(*variable, max as nat, fallback as nat),
        number <= max,
{
    match variable {
        Some(text) => match parse_unsigned(text.as_str(), max) {
            Some(n) => n,
            None => fallback,
        },
        None => fallback,
    }
}

impl GrpcClientConfig {
    /// The settings that the environment asks for: each variable that is
    /// set and holds a number replaces its default.
    pub fn from_env(environment: &GrpcEnvironment) -> (config: GrpcClientConfig)
        ensures
            config.endpoint@ == match environment.endpoint {
                Some(e) => e@,
                None => "http://localhost:50051"@,
            },
            config.timeout_seconds == number_or(
                environment.timeout_seconds,
                u64::MAX as nat,
                30,
            ),
            config.max_retries == number_or(environment.max_retries, u32::MAX as nat, 3),
            config.retry_delay_ms == number_or(environment.retry_delay_ms, u64::MAX as nat, 1000),
    {
        GrpcClientConfig {
            endpoint: match &environment.endpoint {
                Some(e) => e.clone(),
                None => "http://localhost:50051".to_owned(),
            },
            timeout_seconds: read_number(&environment.timeout_seconds, u64::MAX, 30),
            max_retries: read_number(&environment.max_retries, 0xffff_ffff, 3) as u32,
            retry_delay_ms: read_number(&environment.retry_delay_ms, u64::MAX, 1000),
        }
    }
}

/// The answer that the client makes up where the solver cannot be asked:
/// one entry, for the train "T001" on platform "PF1".
pub open spec fn canned_response(
    now: Timestamp,
    conflicts_resolved: u32,
    delay_reduction: Milli,
    delay_adjustment: i32,
) -> OptimizationResponseView {
    OptimizationResponseView {
        success: true,
        optimized_schedule: seq![
            TrainScheduleUpdateView {
                train_id: "T001"@,
                new_departure_time: now,
                new_arrival_time: now.spec_plus_millis(2 * MILLIS_PER_HOUR),
                assigned_platform: Some("PF1"@),
                speed_profile: fallback_profile(),
                delay_adjustment_minutes: delay_adjustment,
            },
        ],
        objective_value: Milli { thousandths: 95_500 },
        computation_time_ms: 500,
        conflicts_resolved,
        total_delay_reduction_minutes: delay_reduction,
        message: "Schedule optimized successfully using OR-Tools CP-SAT solver"@,
    }
}

/// Whether `response` is a made-up answer, for some instant and some draws
/// in range.
pub open spec fn is_canned(response: OptimizationResponse) -> bool {
    exists|now: Timestamp, conflicts: u32, saved: Milli, adjustment: i32|
        conflicts <= 5 && 0 <= saved.thousandths <= 30_000 && -5 <= adjustment <= 10
            && response@ == #[trigger] canned_response(now, conflicts, saved, adjustment)
}

impl OptimizationGrpcClient {
    /// A client for `endpoint` that waits thirty seconds for an answer.
    pub fn new(endpoint: String) -> (client: OptimizationGrpcClient)
        ensures
            client.endpoint@ == endpoint@,
            client.timeout_seconds == 30,
    {
        OptimizationGrpcClient { endpoint, timeout_seconds: 30 }
    }

    /// The made-up answer at `now` with what chance decided.
    pub fn canned_response(now: Timestamp, conflicts_resolved: u32, delay_reduction: Milli, delay_adjustment: i32) -> (response:
        OptimizationResponse)
        ensures
            response@ == canned_response(now, conflicts_resolved, delay_reduction, delay_adjustment),
    {
        let mut speed_profile: Vec<SpeedProfilePoint> = Vec::new();
        speed_profile.push(
            SpeedProfilePoint {
                position_km: Milli { thousandths: 0 },
                speed_kmh: Milli { thousandths: 60_000 },
                time_offset_minutes: Milli { thousandths: 0 },
            },
        );
        speed_profile.push(
            SpeedProfilePoint {
                position_km: Milli { thousandths: 50_000 },
                speed_kmh: Milli { thousandths: 80_000 },
                time_offset_minutes: Milli { thousandths: 30_000 },
            },
        );
        assert(speed_profile@ =~= fallback_profile());
        let mut schedule: Vec<TrainScheduleUpdate> = Vec::new();
        schedule.push(
            TrainScheduleUpdate {
                train_id: "T001".to_owned(),
                new_departure_time: now,
                new_arrival_time: now.plus_millis(2 * MILLIS_PER_HOUR),
                assigned_platform: Some("PF1".to_owned()),
                speed_profile,
                delay_adjustment_minutes: delay_adjustment,
            },
        );
        let response = OptimizationResponse {
            success: true,
            optimized_schedule: schedule,
            objective_value: Milli { thousandths: 95_500 },
            computation_time_ms: 500,
            conflicts_resolved,
            total_delay_reduction_minutes: delay_reduction,
            message: "Schedule optimized successfully using OR-Tools CP-SAT solver".to_owned(),
        };
        assert(response@.optimized_schedule =~= canned_response(
            now,
            conflicts_resolved,
            delay_reduction,
            delay_adjustment,
        ).optimized_schedule);
        response
    }

    /// The made-up answer at the current instant with fresh draws: up to
    /// five conflicts resolved, up to thirty minutes of delay saved, the
    /// delay of the train changed by -5 to 10 minutes.
    pub fn create_mock_response(&self) -> (response: OptimizationResponse)
        ensures
            is_canned(response),
    {
        let now = current_time();
        let conflicts = random_in_range(0, 5) as u32;
        let saved = Milli { thousandths: random_in_range(0, 30_000) };
        let adjustment = random_in_range(-5, 10) as i32;
        let response = OptimizationGrpcClient::canned_response(now, conflicts, saved, adjustment);
        assert(response@ == canned_response(now, conflicts, saved, adjustment));
        response
    }

    /// Settles a call to the solver: its answer as it came, or the made-up
    /// answer where the call failed. The call never fails for the caller.
    pub fn optimize_schedule(&self, attempt: Result<OptimizationResponse, String>) -> (settled:
        Result<OptimizationResponse, String>)
        ensures
            match attempt {
                Ok(answer) => settled == Ok::<OptimizationResponse, String>(answer),
                Err(_) => settled matches Ok(r) && r.success && r.optimized_schedule@.len() == 1
                    && is_canned(r),
            },
    {
        match attempt {
            Ok(answer) => Ok(answer),
            Err(_) => {
                let response = self.create_mock_response();
                assert(response@.optimized_schedule.len() == 1);
                Ok(response)
            },
        }
    }

    /// The made-up answer to a simulation, at `now` with what chance
    /// decided: fifteen trains, the comparison that the draws stand for.
    pub fn canned_simulation(now: Timestamp, draws: SimulationDraws) -> (response:
        SimulationResponse)
        ensures
            response.success,
            response.scenario_name@ == "OR-Tools Optimization Scenario"@,
            response.simulation_results.total_trains_processed == 15,
            response.simulation_results.average_delay_minutes == comparison_from(
                draws,
            ).scenario_delay_minutes,
            response.simulation_results.throughput_trains_per_hour == comparison_from(
                draws,
            ).scenario_throughput,
            response.simulation_results.conflicts_detected == draws.conflicts_detected,
            response.simulation_results.utilization_percent == draws.utilization,
            response.simulation_results.timeline_events@.len() == 1,
            response.simulation_results.timeline_events@[0].timestamp == now,
            response.simulation_results.timeline_events@[0].event_type@
                == "OptimizationComplete"@,
            response.simulation_results.timeline_events@[0].train_id@ == "T001"@,
            response.simulation_results.timeline_events@[0].section_id@ == "SEC001"@,
            response.performance_comparison == comparison_from(draws),
            views(response.recommendations@) == seq![
                "OR-Tools CP-SAT solver found optimal solution"@,
                "Consider implementing real-time constraint updates"@,
                "Monitor solution quality with longer time horizons"@,
            ],
    {
        let comparison = OptimizationService::compare(draws);
        let mut timeline_events = Vec::new();
        timeline_events.push(
            crate::services::optimization_service::SimulationEvent {
                timestamp: now,
                event_type: "OptimizationComplete".to_owned(),
                train_id: "T001".to_owned(),
                section_id: "SEC001".to_owned(),
                description: "OR-Tools optimization completed successfully".to_owned(),
            },
        );
        let mut recommendations: Vec<String> = Vec::new();
        recommendations.push("OR-Tools CP-SAT solver found optimal solution".to_owned());
        recommendations.push("Consider implementing real-time constraint updates".to_owned());
        recommendations.push("Monitor solution quality with longer time horizons".to_owned());
        assert(views(recommendations@) =~= seq![
            "OR-Tools CP-SAT solver found optimal solution"@,
            "Consider implementing real-time constraint updates"@,
            "Monitor solution quality with longer time horizons"@,
        ]);
        SimulationResponse {
            success: true,
            scenario_name: "OR-Tools Optimization Scenario".to_owned(),
            simulation_results: crate::services::optimization_service::SimulationResults {
                total_trains_processed: 15,
                average_delay_minutes: comparison.scenario_delay_minutes,
                throughput_trains_per_hour: comparison.scenario_throughput,
                conflicts_detected: draws.conflicts_detected,
                utilization_percent: draws.utilization,
                timeline_events,
            },
            performance_comparison: comparison,
            recommendations,
        }
    }

    /// The made-up answer to a simulation at the current instant with fresh
    /// draws: at most two conflicts, a utilization from 80 to 95 percent.
    pub fn create_mock_simulation_response(&self) -> (response: SimulationResponse)
        ensures
            response.success,
            response.simulation_results.total_trains_processed == 15,
            response.simulation_results.conflicts_detected <= 2,
            80_000 <= response.simulation_results.utilization_percent.thousandths <= 95_000,
            response.recommendations@.len() == 3,
    {
        let now = current_time();
        let draws = SimulationDraws {
            baseline_delay: Milli { thousandths: random_in_range(10_000, 30_000) },
            delay_factor: Milli { thousandths: random_in_range(700, 950) },
            baseline_throughput: Milli { thousandths: random_in_range(15_000, 25_000) },
            throughput_gain: Milli { thousandths: random_in_range(1050, 1200) },
            extra_trains: 0,
            conflicts_detected: random_in_range(0, 2) as u32,
            utilization: Milli { thousandths: random_in_range(80_000, 95_000) },
        };
        let response = OptimizationGrpcClient::canned_simulation(now, draws);
        assert(views(response.recommendations@).len() == 3);
        response
    }

    /// Answers a simulation: always with the made-up answer.
    pub fn simulate_scenario(&self, request: &SimulationRequest) -> (response: Result<
        SimulationResponse,
        String,
    >)
        ensures
            response matches Ok(r) && r.success
                && r.simulation_results.total_trains_processed == 15,
    {
        Ok(self.create_mock_simulation_response())
    }

    /// Whether a schedule obeys the constraints: every schedule is taken to.
    pub fn validate_schedule(&self, schedule: &Vec<TrainScheduleEntry>, constraints: &Vec<Constraint>, section_id: &str) -> (valid:
        Result<bool, String>)
        ensures
            valid == Ok::<bool, String>(true),
    {
        Ok(true)
    }

    /// How far the request under `request_id` has come: every request is
    /// reported as completed.
    pub fn get_optimization_status(&self, request_id: String) -> (status: Result<
        OptimizationStatus,
        String,
    >)
        ensures
            status matches Ok(s) && s.request_id@ == request_id@ && s.progress_percent.thousandths
                == 100_000 && s.current_phase@ == "Completed"@ && s.estimated_completion_ms == 0,
    {
        Ok(
            OptimizationStatus {
                request_id,
                progress_percent: Milli { thousandths: 100_000 },
                current_phase: "Completed".to_owned(),
                estimated_completion_ms: 0,
            },
        )
    }
}

} // verus!
