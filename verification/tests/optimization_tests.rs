use railway_backend::models::train::{Train, TrainConsist, TrainStatus};
use railway_backend::models::{Direction, GeoPoint, Milli, TrainPriority};
use railway_backend::services::grpc_client::{
    ClientAction, ConnectionState, GrpcClientConfig, GrpcEnvironment, OptimizationClientManager,
    OptimizationGrpcClient,
};
use railway_backend::services::optimization_service::{
    ConstraintType, FallbackDraws, OptimizationConstraint, OptimizationObjective,
    OptimizationRequest, OptimizationResponse, OptimizationService, OptimizationStep, Parameter,
    SimulationRequest, SolverOutcome, TrainDraw, WhatIfChange, WhatIfChangeType,
};
use railway_backend::services::simulation::SimulationDraws;
use railway_backend::services::{ErrorKind, Service};
use railway_backend::time::Timestamp;

fn create_sample_train_with_id(id: &str, number: u32, priority: TrainPriority) -> Train {
    Train {
        id: id.to_string(),
        train_number: number,
        name: format!("Train {}", number),
        priority,
        current_section: "S001".to_string(),
        position: GeoPoint { latitude_e7: 0, longitude_e7: 0 },
        delay_minutes: 0,
        eta_next_station: Timestamp { millis: 1_700_000_000_000 },
        speed_kmh: Milli { thousandths: 80_000 },
        direction: Direction::Up,
        consist: TrainConsist::default(),
        status: TrainStatus::Running,
        route: vec!["Origin".to_string(), "Intermediate".to_string(), "Destination".to_string()],
        created_at: Timestamp { millis: 1_700_000_000_000 },
        updated_at: Timestamp { millis: 1_700_000_000_000 },
    }
}

fn create_sample_train() -> Train {
    create_sample_train_with_id("T-sample", 12345, TrainPriority::Express)
}

fn parameter(name: &str, value: &str) -> Parameter {
    Parameter { name: name.to_string(), value: value.to_string() }
}

fn create_sample_optimization_request() -> OptimizationRequest {
    OptimizationRequest {
        section_id: "TEST_SECTION_001".to_string(),
        trains: vec![create_sample_train()],
        constraints: vec![OptimizationConstraint {
            constraint_type: ConstraintType::SafetyDistance,
            priority: 1,
            parameters: vec![parameter("min_distance_seconds", "300")],
        }],
        objective: OptimizationObjective::BalancedOptimal,
        time_horizon_minutes: 120,
    }
}

fn create_sample_simulation_request() -> SimulationRequest {
    SimulationRequest {
        scenario_name: "Test Simulation Scenario".to_string(),
        section_id: "TEST_SECTION_001".to_string(),
        base_trains: vec![create_sample_train()],
        what_if_changes: vec![],
        simulation_duration_hours: Milli { thousandths: 2_000 },
    }
}

fn create_multiple_sample_trains() -> Vec<Train> {
    vec![
        create_sample_train_with_id("T001", 12001, TrainPriority::Express),
        create_sample_train_with_id("T002", 12002, TrainPriority::Passenger),
        create_sample_train_with_id("T003", 12003, TrainPriority::Freight),
    ]
}

fn unavailable() -> Option<SolverOutcome> {
    Some(SolverOutcome::Unavailable("connection refused".to_string()))
}

fn completed(step: OptimizationStep) -> OptimizationResponse {
    match step {
        OptimizationStep::Complete(response) => response,
        other => panic!("not completed: {:?}", other),
    }
}

#[test]
fn test_optimization_service_initialization() {
    let service = OptimizationService::new();
    assert_eq!(service.name(), "OptimizationService");
}

#[test]
fn test_optimization_service_with_custom_config() {
    let grpc_config = GrpcClientConfig {
        endpoint: "http://localhost:50051".to_string(),
        timeout_seconds: 30,
        max_retries: 3,
        retry_delay_ms: 1000,
    };
    let service = OptimizationService::with_config(grpc_config);
    assert_eq!(service.name(), "OptimizationService");
    assert_eq!(service.grpc_client_manager.state, ConnectionState::Disconnected);
}

#[test]
fn test_optimization_request_validation() {
    let service = OptimizationService::new();

    let valid_request = create_sample_optimization_request();
    assert!(service.validate_request(&valid_request).is_ok());

    let mut invalid_request = create_sample_optimization_request();
    invalid_request.section_id = "".to_string();
    assert!(service.validate_request(&invalid_request).is_err());

    invalid_request = create_sample_optimization_request();
    invalid_request.trains = vec![];
    assert!(service.validate_request(&invalid_request).is_err());

    invalid_request = create_sample_optimization_request();
    invalid_request.time_horizon_minutes = 0;
    assert!(service.validate_request(&invalid_request).is_err());

    invalid_request = create_sample_optimization_request();
    invalid_request.time_horizon_minutes = 2000; // > 24 hours
    assert!(service.validate_request(&invalid_request).is_err());
}

#[test]
fn validation_names_the_first_broken_rule() {
    let service = OptimizationService::new();
    let mut request = create_sample_optimization_request();
    request.section_id = String::new();
    request.trains = vec![];
    request.time_horizon_minutes = 0;
    let error = service.validate_request(&request).unwrap_err();
    assert_eq!(error.kind(), ErrorKind::Validation);
    assert_eq!(error.message(), "Validation error: Section ID cannot be empty");
    request.section_id = "S".to_string();
    assert_eq!(
        service.validate_request(&request).unwrap_err().message(),
        "Validation error: At least one train required for optimization"
    );
    request.trains = vec![create_sample_train()];
    assert_eq!(
        service.validate_request(&request).unwrap_err().message(),
        "Validation error: Time horizon must be greater than 0"
    );
    request.time_horizon_minutes = 1441;
    assert_eq!(
        service.validate_request(&request).unwrap_err().message(),
        "Validation error: Time horizon cannot exceed 24 hours"
    );
    request.time_horizon_minutes = 1440;
    assert!(service.validate_request(&request).is_ok());
    request.time_horizon_minutes = 1;
    assert!(service.validate_request(&request).is_ok());
}

#[test]
fn an_invalid_horizon_is_rejected_before_the_solver_is_asked() {
    let service = OptimizationService::new();
    for horizon in [0u32, 1441, 2000, u32::MAX] {
        let mut request = create_sample_optimization_request();
        request.time_horizon_minutes = horizon;
        // before any attempt: no delegation is asked for
        match service.optimize_schedule(&request, None) {
            OptimizationStep::Reject(error) => assert_eq!(error.kind(), ErrorKind::Validation),
            other => panic!("not rejected: {:?}", other),
        }
        // and whatever an attempt would have brought, the request stays rejected
        assert!(matches!(
            service.optimize_schedule(&request, unavailable()),
            OptimizationStep::Reject(_)
        ));
    }
    assert!(matches!(
        service.optimize_schedule(&create_sample_optimization_request(), None),
        OptimizationStep::Delegate { timeout_seconds: 30 }
    ));
    let patient = OptimizationService::with_config(GrpcClientConfig {
        endpoint: "http://solver".to_string(),
        timeout_seconds: 90,
        max_retries: 1,
        retry_delay_ms: 1,
    });
    assert!(matches!(
        patient.optimize_schedule(&create_sample_optimization_request(), None),
        OptimizationStep::Delegate { timeout_seconds: 90 }
    ));
}

#[test]
fn test_optimization_schedule_basic() {
    let service = OptimizationService::new();
    let request = create_sample_optimization_request();
    let response = completed(service.optimize_schedule(&request, unavailable()));
    assert!(response.success);
    assert!(!response.optimized_schedule.is_empty());
    assert!(response.computation_time_ms > 0);
    assert!(!response.message.is_empty());
}

#[test]
fn test_simulation_scenario_basic() {
    let service = OptimizationService::new();
    let request = create_sample_simulation_request();
    let response = service.simulate_scenario(&request);
    assert!(response.is_ok());
    let response = response.unwrap();
    assert!(response.success);
    assert!(!response.scenario_name.is_empty());
    assert!(response.simulation_results.total_trains_processed > 0);
    assert!(!response.recommendations.is_empty());
}

#[test]
fn test_optimization_objectives() {
    let service = OptimizationService::new();
    let objectives = service.get_available_objectives();
    assert!(!objectives.is_empty());
    assert!(objectives.contains(&OptimizationObjective::MinimizeDelay));
    assert!(objectives.contains(&OptimizationObjective::MaximizeThroughput));
    assert!(objectives.contains(&OptimizationObjective::BalancedOptimal));
    assert_eq!(objectives.len(), 4);
}

#[test]
fn test_optimization_with_different_objectives() {
    let service = OptimizationService::new();
    let objectives_to_test = vec![
        OptimizationObjective::MinimizeDelay,
        OptimizationObjective::MaximizeThroughput,
        OptimizationObjective::MinimizeEnergyConsumption,
        OptimizationObjective::BalancedOptimal,
    ];
    for objective in objectives_to_test {
        let mut request = create_sample_optimization_request();
        request.objective = objective;
        let response = completed(service.optimize_schedule(&request, unavailable()));
        assert!(response.success);
        match objective {
            OptimizationObjective::MinimizeDelay => {
                assert!(response.total_delay_reduction_minutes.thousandths >= 0);
            }
            _ => {
                assert!(response.computation_time_ms > 0);
            }
        }
    }
}

#[test]
fn test_optimization_with_constraints() {
    let service = OptimizationService::new();
    let constraints = vec![
        OptimizationConstraint {
            constraint_type: ConstraintType::SafetyDistance,
            priority: 1,
            parameters: vec![parameter("min_distance_seconds", "300")],
        },
        OptimizationConstraint {
            constraint_type: ConstraintType::PlatformCapacity,
            priority: 2,
            parameters: vec![parameter("max_capacity", "2")],
        },
        OptimizationConstraint {
            constraint_type: ConstraintType::TrainPriority,
            priority: 1,
            parameters: vec![parameter("enforce_priority", "true")],
        },
    ];
    let mut request = create_sample_optimization_request();
    request.constraints = constraints;
    let response = completed(service.optimize_schedule(&request, unavailable()));
    assert!(response.success);
    assert!(response.conflicts_resolved <= 5);
}

#[test]
fn test_optimization_with_multiple_trains() {
    let service = OptimizationService::new();
    let mut request = create_sample_optimization_request();
    request.trains = create_multiple_sample_trains();
    let response = completed(service.optimize_schedule(&request, unavailable()));
    assert!(response.success);
    assert_eq!(response.optimized_schedule.len(), request.trains.len());
    for train in &request.trains {
        let schedule_update =
            response.optimized_schedule.iter().find(|update| update.train_id == train.id);
        assert!(schedule_update.is_some(), "Missing schedule for train {}", train.id);
        let update = schedule_update.unwrap();
        assert!(!update.speed_profile.is_empty());
        assert!(update.new_departure_time.millis <= update.new_arrival_time.millis);
    }
}

#[test]
fn test_simulation_with_what_if_changes() {
    let service = OptimizationService::new();
    let what_if_changes = vec![
        WhatIfChange {
            change_type: WhatIfChangeType::DelayTrain,
            train_id: Some("T001".to_string()),
            section_id: None,
            parameters: vec![parameter("delay_minutes", "15")],
        },
        WhatIfChange {
            change_type: WhatIfChangeType::AddTrain,
            train_id: None,
            section_id: Some("SEC001".to_string()),
            parameters: vec![parameter("train_type", "\"EXPRESS\""), parameter("capacity", "400")],
        },
    ];
    let mut request = create_sample_simulation_request();
    request.what_if_changes = what_if_changes;
    let response = service.simulate_scenario(&request).unwrap();
    assert!(response.success);
    assert!(response.performance_comparison.improvement_percent.thousandths != 0);
}

#[test]
fn test_concurrent_optimization_requests() {
    let service = OptimizationService::new();
    let mut results = Vec::new();
    for i in 0..5 {
        let mut request = create_sample_optimization_request();
        request.section_id = format!("SECTION_{}", i);
        request.trains = vec![create_sample_train_with_id(
            &format!("T-{}", i),
            100 + i,
            TrainPriority::Mail,
        )];
        results.push(service.optimize_schedule(&request, unavailable()));
    }
    assert_eq!(results.len(), 5);
    for (i, result) in results.into_iter().enumerate() {
        let response = completed(result);
        assert!(response.success);
        assert_eq!(response.optimized_schedule.len(), 1);
        assert_eq!(response.optimized_schedule[0].train_id, format!("T-{}", i));
    }
}

#[test]
fn the_solvers_answer_is_passed_on_as_it_came() {
    let service = OptimizationService::new();
    let answer = OptimizationResponse {
        success: false,
        optimized_schedule: vec![],
        objective_value: Milli { thousandths: 1_250 },
        computation_time_ms: 77,
        conflicts_resolved: 9,
        total_delay_reduction_minutes: Milli { thousandths: -500 },
        message: "infeasible".to_string(),
    };
    let response = completed(service.optimize_schedule(
        &create_sample_optimization_request(),
        Some(SolverOutcome::Answered(answer)),
    ));
    assert!(!response.success);
    assert!(response.optimized_schedule.is_empty());
    assert_eq!(response.objective_value, Milli { thousandths: 1_250 });
    assert_eq!(response.computation_time_ms, 77);
    assert_eq!(response.conflicts_resolved, 9);
    assert_eq!(response.message, "infeasible");
}

#[test]
fn the_fallback_answer_is_exact_for_given_draws() {
    let service = OptimizationService::new();
    let mut request = create_sample_optimization_request();
    request.trains = create_multiple_sample_trains();
    let draws = FallbackDraws {
        conflicts_resolved: 3,
        delay_reduction: Milli { thousandths: 12_500 },
        per_train: vec![
            TrainDraw { delay_adjustment: -10, platform: 1 },
            TrainDraw { delay_adjustment: 5, platform: 6 },
            TrainDraw { delay_adjustment: 0, platform: 4 },
        ],
    };
    let now = Timestamp { millis: 1_000_000 };
    let response = service.fallback_response(&request, now, &draws);
    assert!(response.success);
    assert_eq!(response.objective_value, Milli { thousandths: 95_500 });
    assert_eq!(response.computation_time_ms, 500);
    assert_eq!(response.conflicts_resolved, 3);
    assert_eq!(response.total_delay_reduction_minutes, Milli { thousandths: 12_500 });
    assert_eq!(response.message, "Schedule generated by local fallback: solver unavailable");
    assert_eq!(response.optimized_schedule.len(), 3);
    let second = &response.optimized_schedule[1];
    assert_eq!(second.train_id, "T002");
    assert_eq!(second.new_departure_time, now);
    assert_eq!(second.new_arrival_time, Timestamp { millis: 1_000_000 + 7_200_000 });
    assert_eq!(second.assigned_platform, Some("PF6".to_string()));
    assert_eq!(second.delay_adjustment_minutes, 5);
    assert_eq!(second.speed_profile.len(), 2);
    assert_eq!(second.speed_profile[0].speed_kmh, Milli { thousandths: 60_000 });
    assert_eq!(second.speed_profile[0].position_km, Milli { thousandths: 0 });
    assert_eq!(second.speed_profile[1].position_km, Milli { thousandths: 50_000 });
    assert_eq!(second.speed_profile[1].speed_kmh, Milli { thousandths: 80_000 });
    assert_eq!(second.speed_profile[1].time_offset_minutes, Milli { thousandths: 30_000 });
    assert_eq!(response.optimized_schedule[0].delay_adjustment_minutes, -10);
    assert_eq!(response.optimized_schedule[2].assigned_platform, Some("PF4".to_string()));
}

#[test]
fn fallback_draws_stay_in_range() {
    for _ in 0..50 {
        let draws = OptimizationService::draw_fallback(4);
        assert!(draws.conflicts_resolved <= 5);
        assert!((0..=30_000).contains(&draws.delay_reduction.thousandths));
        assert_eq!(draws.per_train.len(), 4);
        for draw in &draws.per_train {
            assert!((-10..=5).contains(&draw.delay_adjustment));
            assert!((1..=6).contains(&draw.platform));
        }
    }
    assert!(OptimizationService::draw_fallback(0).per_train.is_empty());
}

#[test]
fn solver_failures_read_as_optimization_errors() {
    let connect = OptimizationService::connection_failure("refused");
    assert_eq!(connect.kind(), ErrorKind::Optimization);
    assert_eq!(
        connect.message(),
        "Optimization error: Failed to connect to optimizer: refused"
    );
    assert_eq!(
        OptimizationService::delegation_failure("timeout").message(),
        "Optimization error: Optimization failed: timeout"
    );
}

#[test]
fn the_simulation_is_exact_for_given_draws() {
    let service = OptimizationService::new();
    let draws = SimulationDraws {
        baseline_delay: Milli { thousandths: 20_000 },
        delay_factor: Milli { thousandths: 800 },
        baseline_throughput: Milli { thousandths: 20_000 },
        throughput_gain: Milli { thousandths: 1_100 },
        extra_trains: 4,
        conflicts_detected: 2,
        utilization: Milli { thousandths: 88_000 },
    };
    let now = Timestamp { millis: 5 };
    let response = service.simulation_response(&create_sample_simulation_request(), now, draws);
    assert!(response.success);
    assert_eq!(response.scenario_name, "Test Simulation Scenario");
    assert_eq!(response.simulation_results.total_trains_processed, 5);
    assert_eq!(response.simulation_results.average_delay_minutes, Milli { thousandths: 16_000 });
    assert_eq!(
        response.simulation_results.throughput_trains_per_hour,
        Milli { thousandths: 22_000 }
    );
    assert_eq!(response.simulation_results.conflicts_detected, 2);
    assert_eq!(response.simulation_results.utilization_percent, Milli { thousandths: 88_000 });
    assert_eq!(response.simulation_results.timeline_events.len(), 1);
    assert_eq!(response.simulation_results.timeline_events[0].section_id, "TEST_SECTION_001");
    assert_eq!(response.simulation_results.timeline_events[0].event_type, "TrainDeparture");
    assert_eq!(response.simulation_results.timeline_events[0].timestamp, now);
    let comparison = response.performance_comparison;
    assert_eq!(comparison.baseline_delay_minutes, Milli { thousandths: 20_000 });
    assert_eq!(comparison.scenario_delay_minutes, Milli { thousandths: 16_000 });
    // (20 - 16) / 20 = 20 %
    assert_eq!(comparison.improvement_percent, Milli { thousandths: 20_000 });
    assert_eq!(comparison.scenario_throughput, Milli { thousandths: 22_000 });
    // (22 - 20) / 20 = 10 %
    assert_eq!(comparison.throughput_improvement_percent, Milli { thousandths: 10_000 });
    assert_eq!(response.recommendations.len(), 3);
    assert_eq!(response.recommendations[1], "Optimize signal timing for peak hours");
    assert_eq!(OptimizationService::compare(draws), comparison);
}

#[test]
fn the_connection_is_made_lazily_and_reused() {
    let mut manager = OptimizationClientManager::new(GrpcClientConfig::default());
    assert_eq!(manager.state, ConnectionState::Disconnected);
    assert!(!manager.health_check());
    match manager.get_client() {
        ClientAction::Connect { endpoint, timeout_seconds } => {
            assert_eq!(endpoint, "http://localhost:50051");
            assert_eq!(timeout_seconds, 30);
        }
        ClientAction::Reuse => panic!("reuse without a connection"),
    }
    manager.connection_result(false);
    assert_eq!(manager.state, ConnectionState::Disconnected);
    assert!(matches!(manager.get_client(), ClientAction::Connect { .. }));
    manager.connection_result(true);
    assert_eq!(manager.state, ConnectionState::Connected);
    assert!(manager.health_check());
    assert!(matches!(manager.get_client(), ClientAction::Reuse));
    assert!(matches!(manager.get_client(), ClientAction::Reuse));
    assert!(matches!(manager.reconnect(), ClientAction::Connect { .. }));
    assert_eq!(manager.state, ConnectionState::Reconnecting);
    assert!(!manager.health_check());
    assert!(matches!(manager.get_client(), ClientAction::Connect { .. }));
    manager.connection_result(true);
    assert_eq!(manager.state, ConnectionState::Connected);
    let mut service = OptimizationService::new();
    assert!(!service.is_optimizer_available());
    service.grpc_client_manager.connection_result(true);
    assert!(service.is_optimizer_available());
}

#[test]
fn client_settings_come_from_the_environment_or_default() {
    let nothing = GrpcEnvironment {
        endpoint: None,
        timeout_seconds: None,
        max_retries: None,
        retry_delay_ms: None,
    };
    let config = GrpcClientConfig::from_env(&nothing);
    assert_eq!(config.endpoint, "http://localhost:50051");
    assert_eq!(config.timeout_seconds, 30);
    assert_eq!(config.max_retries, 3);
    assert_eq!(config.retry_delay_ms, 1000);
    let set = GrpcEnvironment {
        endpoint: Some("http://solver:9000".to_string()),
        timeout_seconds: Some("45".to_string()),
        max_retries: Some("many".to_string()),
        retry_delay_ms: Some("250".to_string()),
    };
    let config = GrpcClientConfig::from_env(&set);
    assert_eq!(config.endpoint, "http://solver:9000");
    assert_eq!(config.timeout_seconds, 45);
    assert_eq!(config.max_retries, 3);
    assert_eq!(config.retry_delay_ms, 250);
    let default = GrpcClientConfig::default();
    assert_eq!(default.endpoint, "http://localhost:50051");
    assert_eq!(default.max_retries, 3);
}

#[test]
fn the_client_answers_from_a_canned_response_when_the_call_fails() {
    let client = OptimizationGrpcClient::new("http://solver".to_string());
    assert_eq!(client.timeout_seconds, 30);
    let settled = client.optimize_schedule(Err("unreachable".to_string())).unwrap();
    assert!(settled.success);
    assert_eq!(settled.optimized_schedule.len(), 1);
    assert_eq!(settled.optimized_schedule[0].train_id, "T001");
    assert_eq!(settled.optimized_schedule[0].assigned_platform, Some("PF1".to_string()));
    assert!((-5..=10).contains(&settled.optimized_schedule[0].delay_adjustment_minutes));
    assert_eq!(
        settled.message,
        "Schedule optimized successfully using OR-Tools CP-SAT solver"
    );
    let canned = OptimizationGrpcClient::canned_response(
        Timestamp { millis: 10 },
        2,
        Milli { thousandths: 7_000 },
        -3,
    );
    assert_eq!(canned.conflicts_resolved, 2);
    assert_eq!(canned.total_delay_reduction_minutes, Milli { thousandths: 7_000 });
    assert_eq!(canned.optimized_schedule[0].delay_adjustment_minutes, -3);
    assert_eq!(canned.optimized_schedule[0].new_arrival_time, Timestamp { millis: 7_200_010 });

    let simulated = client.simulate_scenario(&create_sample_simulation_request()).unwrap();
    assert_eq!(simulated.scenario_name, "OR-Tools Optimization Scenario");
    assert_eq!(simulated.simulation_results.total_trains_processed, 15);
    assert!(simulated.simulation_results.conflicts_detected <= 2);
    assert_eq!(client.validate_schedule(&Vec::new(), &Vec::new(), "S"), Ok(true));
    let status = client.get_optimization_status("r-1".to_string()).unwrap();
    assert_eq!(status.request_id, "r-1");
    assert_eq!(status.progress_percent, Milli { thousandths: 100_000 });
    assert_eq!(status.current_phase, "Completed");
    assert_eq!(status.estimated_completion_ms, 0);
}

#[test]
fn a_new_orchestrator_has_the_usual_settings_and_no_connection() {
    let service = OptimizationService::new();
    assert_eq!(service.grpc_client_manager.config.endpoint, "http://localhost:50051");
    assert_eq!(service.grpc_client_manager.config.timeout_seconds, 30);
    assert_eq!(service.grpc_client_manager.config.max_retries, 3);
    assert_eq!(service.grpc_client_manager.config.retry_delay_ms, 1000);
    assert_eq!(service.grpc_client_manager.state, ConnectionState::Disconnected);
}
