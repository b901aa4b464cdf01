use railway_backend::models::train::{Train, TrainConsist, TrainStatus};
use railway_backend::models::{Direction, GeoPoint, Milli, TrainPriority};
use railway_backend::services::optimization_converter::OptimizationConverter;
use railway_backend::services::optimization_service::{
    ConstraintType, OptimizationConstraint, OptimizationObjective, OptimizationRequest, Parameter,
    SimulationRequest, WhatIfChange, WhatIfChangeType,
};
use railway_backend::services::wire;
use railway_backend::time::Timestamp;

fn sample(id: &str, priority: TrainPriority, route: &[&str]) -> Train {
    Train {
        id: id.to_string(),
        train_number: 12345,
        name: "Sample".to_string(),
        priority,
        current_section: "S".to_string(),
        position: GeoPoint { latitude_e7: 0, longitude_e7: 0 },
        delay_minutes: 7,
        eta_next_station: Timestamp { millis: 1_700_000_000_250 },
        speed_kmh: Milli { thousandths: 80_000 },
        direction: Direction::Up,
        consist: TrainConsist::default(),
        status: TrainStatus::Running,
        route: route.iter().map(|s| s.to_string()).collect(),
        created_at: Timestamp { millis: 0 },
        updated_at: Timestamp { millis: 0 },
    }
}

#[test]
fn instants_are_written_as_seconds_and_nanoseconds() {
    assert_eq!(
        OptimizationConverter::to_wire_time(Timestamp { millis: 1_700_000_000_250 }),
        wire::Timestamp { seconds: 1_700_000_000, nanos: 250_000_000 }
    );
    assert_eq!(
        OptimizationConverter::to_wire_time(Timestamp { millis: -1 }),
        wire::Timestamp { seconds: -1, nanos: 999_000_000 }
    );
    assert_eq!(
        OptimizationConverter::to_wire_time(Timestamp { millis: -2_000 }),
        wire::Timestamp { seconds: -2, nanos: 0 }
    );
    assert_eq!(
        OptimizationConverter::to_wire_time(Timestamp { millis: 0 }),
        wire::Timestamp { seconds: 0, nanos: 0 }
    );
    for millis in [0, 1, -1, 999, -999, 1_000, -1_000, 1_700_000_000_123, i64::MAX, i64::MIN] {
        let there = OptimizationConverter::to_wire_time(Timestamp { millis });
        assert_eq!(OptimizationConverter::from_wire_time(there), Some(Timestamp { millis }));
    }
}

#[test]
fn instants_that_cannot_be_held_are_not_read() {
    let read = |seconds, nanos| OptimizationConverter::from_wire_time(wire::Timestamp { seconds, nanos });
    assert_eq!(read(5, 123_456_789), Some(Timestamp { millis: 5_123 }));
    assert_eq!(read(5, -1), None);
    assert_eq!(read(5, 1_000_000_000), None);
    assert_eq!(read(i64::MAX, 0), None);
    assert_eq!(read(i64::MIN, 0), None);
    assert_eq!(read(9_223_372_036_854_775, 807_000_000), Some(Timestamp { millis: i64::MAX }));
    assert_eq!(read(9_223_372_036_854_775, 808_000_000), None);
}

#[test]
fn enumerations_are_told_in_the_solvers_words() {
    assert_eq!(
        OptimizationConverter::to_proto_train_priority_enum(TrainPriority::Emergency),
        Ok(wire::TrainPriority::PriorityEmergency)
    );
    assert_eq!(
        OptimizationConverter::to_proto_train_priority_enum(TrainPriority::Maintenance),
        Ok(wire::TrainPriority::PriorityMaintenance)
    );
    assert_eq!(
        OptimizationConverter::to_proto_constraint_type(ConstraintType::CrossingTime),
        Ok(wire::ConstraintType::CrossingTime)
    );
    assert_eq!(
        OptimizationConverter::to_proto_objective_type(OptimizationObjective::BalancedOptimal),
        Ok(wire::ObjectiveType::BalancedOptimal)
    );
    let told = |c| OptimizationConverter::to_proto_modification_type(c).unwrap();
    assert_eq!(told(WhatIfChangeType::AddTrain), wire::ModificationType::AddTrain);
    assert_eq!(told(WhatIfChangeType::RemoveTrain), wire::ModificationType::CancelTrain);
    assert_eq!(told(WhatIfChangeType::DelayTrain), wire::ModificationType::DelayTrain);
    assert_eq!(told(WhatIfChangeType::ChangeRoute), wire::ModificationType::ChangeRoute);
    assert_eq!(told(WhatIfChangeType::BlockSection), wire::ModificationType::DelayTrain);
    assert_eq!(told(WhatIfChangeType::ChangeCapacity), wire::ModificationType::ChangePriority);
}

#[test]
fn words_are_read_whatever_their_case() {
    let kind = |w: &str| OptimizationConverter::to_proto_train_type(w).unwrap();
    assert_eq!(kind("EXPRESS"), wire::TrainType::Express);
    assert_eq!(kind("Freight"), wire::TrainType::Freight);
    assert_eq!(kind("mail"), wire::TrainType::Mail);
    assert_eq!(kind("MAINTENANCE"), wire::TrainType::Maintenance);
    assert_eq!(kind("Empty"), wire::TrainType::Empty);
    assert_eq!(kind("passenger"), wire::TrainType::Passenger);
    assert_eq!(kind("tram"), wire::TrainType::Passenger);
    assert_eq!(kind(""), wire::TrainType::Passenger);
    let class = |w: &str| OptimizationConverter::to_proto_train_priority(w).unwrap();
    assert_eq!(class("Emergency"), wire::TrainPriority::PriorityEmergency);
    assert_eq!(class("EXPRESS"), wire::TrainPriority::PriorityExpress);
    assert_eq!(class("mail"), wire::TrainPriority::PriorityMail);
    assert_eq!(class("FREIGHT"), wire::TrainPriority::PriorityFreight);
    assert_eq!(class("maintenance"), wire::TrainPriority::PriorityMaintenance);
    assert_eq!(class("other"), wire::TrainPriority::PriorityPassenger);
    // the reading in lower case itself is exact
    assert_eq!(
        OptimizationConverter::train_type_named(&"EXPRESS".to_string()),
        wire::TrainType::Passenger
    );
}

#[test]
fn a_train_is_told_with_its_schedule_and_seats() {
    let told =
        OptimizationConverter::to_proto_train(&sample("T1", TrainPriority::Mail, &["A", "B", "C"]))
            .unwrap();
    assert_eq!(told.id, "T1");
    assert_eq!(told.train_number, 12345);
    assert_eq!(told.train_type, wire::TrainType::Mail);
    assert_eq!(told.priority, wire::TrainPriority::PriorityMail);
    assert_eq!(told.capacity_passengers, 12 * 72);
    assert_eq!(told.length_meters, Milli { thousandths: 300_000 });
    assert_eq!(told.max_speed_kmh, Milli { thousandths: 110_000 });
    assert_eq!(
        told.scheduled_departure,
        Some(wire::Timestamp { seconds: 1_700_000_000, nanos: 250_000_000 })
    );
    assert_eq!(
        told.scheduled_arrival,
        Some(wire::Timestamp { seconds: 1_700_007_200, nanos: 250_000_000 })
    );
    assert_eq!(told.origin_station, "A");
    assert_eq!(told.destination_station, "C");
    assert_eq!(told.route_sections, vec!["A", "B", "C"]);
    let characteristics = told.characteristics.unwrap();
    assert_eq!(characteristics.weight_tons, Milli { thousandths: 400_000 });
    assert_eq!(characteristics.passenger_load_percent, 80);
    assert!(characteristics.is_electric);

    let kinds = [
        (TrainPriority::Emergency, wire::TrainType::Passenger),
        (TrainPriority::Express, wire::TrainType::Express),
        (TrainPriority::Freight, wire::TrainType::Freight),
        (TrainPriority::Passenger, wire::TrainType::Passenger),
        (TrainPriority::Maintenance, wire::TrainType::Passenger),
    ];
    for (priority, kind) in kinds {
        let told = OptimizationConverter::to_proto_train(&sample("T", priority, &[])).unwrap();
        assert_eq!(told.train_type, kind);
        assert_eq!(told.origin_station, "");
        assert_eq!(told.destination_station, "");
    }
    let mut long = sample("T", TrainPriority::Express, &["A"]);
    long.consist.passenger_coaches = u32::MAX;
    assert_eq!(
        OptimizationConverter::to_proto_train(&long).unwrap().capacity_passengers,
        u32::MAX
    );
}

fn parameter(name: &str, value: &str) -> Parameter {
    Parameter { name: name.to_string(), value: value.to_string() }
}

#[test]
fn constraints_and_changes_are_told_with_their_parameters() {
    let told = OptimizationConverter::to_proto_constraint(&OptimizationConstraint {
        constraint_type: ConstraintType::SpeedLimit,
        priority: 3,
        parameters: vec![parameter("limit", "80"), parameter("unit", "\"kmh\"")],
    })
    .unwrap();
    assert_eq!(told.id.len(), 36);
    assert_eq!(told.constraint_type, wire::ConstraintType::SpeedLimit);
    assert_eq!(told.priority, 3);
    assert!(told.is_hard_constraint);
    assert_eq!(told.parameters.len(), 2);
    assert_eq!(told.parameters[1].name, "unit");
    assert_eq!(told.parameters[1].value, "\"kmh\"");
    let soft = OptimizationConverter::to_proto_constraint(&OptimizationConstraint {
        constraint_type: ConstraintType::SafetyDistance,
        priority: 4,
        parameters: vec![],
    })
    .unwrap();
    assert!(!soft.is_hard_constraint);
    assert_ne!(soft.id, told.id);

    let change = OptimizationConverter::to_proto_modification(&WhatIfChange {
        change_type: WhatIfChangeType::BlockSection,
        train_id: None,
        section_id: Some("S".to_string()),
        parameters: vec![parameter("minutes", "15")],
    })
    .unwrap();
    assert_eq!(change.modification_type, wire::ModificationType::DelayTrain);
    assert_eq!(change.train_id, "");
    assert_eq!(change.parameters[0].value, "15");
}

#[test]
fn requests_are_told_whole() {
    let request = OptimizationRequest {
        section_id: "SEC".to_string(),
        trains: vec![
            sample("T1", TrainPriority::Express, &["A", "B"]),
            sample("T2", TrainPriority::Freight, &["C"]),
        ],
        constraints: vec![OptimizationConstraint {
            constraint_type: ConstraintType::PlatformCapacity,
            priority: 1,
            parameters: vec![],
        }],
        objective: OptimizationObjective::MaximizeThroughput,
        time_horizon_minutes: 90,
    };
    let told = OptimizationConverter::to_proto_optimization_request(&request).unwrap();
    assert_eq!(told.request_id.len(), 36);
    assert_eq!(told.section_id, "SEC");
    assert_eq!(told.time_horizon_minutes, 90);
    assert_eq!(told.trains.len(), 2);
    assert_eq!(told.trains[1].id, "T2");
    assert_eq!(told.trains[1].train_type, wire::TrainType::Freight);
    assert_eq!(told.constraints.len(), 1);
    assert_eq!(told.constraints[0].constraint_type, wire::ConstraintType::PlatformCapacity);
    let objective = told.objective.unwrap();
    assert_eq!(objective.primary_objective, wire::ObjectiveType::MaximizeThroughput);
    assert_eq!(objective.time_limit_seconds, Milli { thousandths: 60_000 });
    assert!(objective.enable_preprocessing);
    assert!(told.disruptions.is_empty());
    assert!(told.requested_at.unwrap().seconds > 1_500_000_000);
    let config = told.config.unwrap();
    assert_eq!(config, OptimizationConverter::default_optimization_config());
    assert_eq!(config.max_solver_time_seconds, 30);
    assert_eq!(config.num_search_workers, 4);
    assert_eq!(config.strategy, wire::SolverStrategy::Automatic);
    assert!(!config.enable_detailed_logging);

    let simulation = SimulationRequest {
        scenario_name: "what if".to_string(),
        section_id: "SEC".to_string(),
        base_trains: vec![sample("T1", TrainPriority::Mail, &["A"])],
        what_if_changes: vec![WhatIfChange {
            change_type: WhatIfChangeType::RemoveTrain,
            train_id: Some("T1".to_string()),
            section_id: None,
            parameters: vec![],
        }],
        simulation_duration_hours: Milli { thousandths: 2_500 },
    };
    let told = OptimizationConverter::to_proto_simulation_request(&simulation).unwrap();
    assert_eq!(told.scenario_name, "what if");
    assert_eq!(told.base_schedule.len(), 1);
    assert_eq!(told.base_schedule[0].train_id, "T1");
    assert_eq!(told.base_schedule[0].platform, 1);
    assert_eq!(told.base_schedule[0].delay_adjustment_minutes, 7);
    assert_eq!(told.base_schedule[0].priority_applied, wire::TrainPriority::PriorityMail);
    assert_eq!(told.modifications.len(), 1);
    assert_eq!(told.modifications[0].modification_type, wire::ModificationType::CancelTrain);
    assert_eq!(told.modifications[0].train_id, "T1");
    assert_eq!(told.simulation_duration_hours, Milli { thousandths: 2_500 });
}

fn entry(platform: u32, departure: Option<wire::Timestamp>) -> wire::TrainScheduleEntry {
    wire::TrainScheduleEntry {
        train_id: "T1".to_string(),
        train_number: 1,
        scheduled_departure: departure,
        scheduled_arrival: None,
        platform,
        priority_applied: wire::TrainPriority::PriorityExpress,
        delay_adjustment_minutes: -4,
        conflicts_resolved: vec![],
        speed_profile: vec![wire::SpeedProfilePoint {
            position_km: Milli { thousandths: 1_500 },
            speed_kmh: Milli { thousandths: 70_000 },
            time_offset_minutes: Milli { thousandths: 2_000 },
        }],
    }
}

#[test]
fn schedule_entries_are_read_with_defaults_for_what_is_missing() {
    let now = Timestamp { millis: 1_000 };
    let read = OptimizationConverter::schedule_update_at(
        &entry(3, Some(wire::Timestamp { seconds: 50, nanos: 5_000_000 })),
        now,
    );
    assert_eq!(read.train_id, "T1");
    assert_eq!(read.new_departure_time, Timestamp { millis: 50_005 });
    assert_eq!(read.new_arrival_time, Timestamp { millis: 7_201_000 });
    assert_eq!(read.assigned_platform, Some("PF3".to_string()));
    assert_eq!(read.delay_adjustment_minutes, -4);
    assert_eq!(read.speed_profile.len(), 1);
    assert_eq!(read.speed_profile[0].position_km, Milli { thousandths: 1_500 });
    let bare = OptimizationConverter::schedule_update_at(&entry(0, None), now);
    assert_eq!(bare.new_departure_time, now);
    assert_eq!(bare.assigned_platform, None);
    let unreadable = OptimizationConverter::schedule_update_at(
        &entry(12, Some(wire::Timestamp { seconds: 50, nanos: -1 })),
        now,
    );
    assert_eq!(unreadable.new_departure_time, now);
    assert_eq!(unreadable.assigned_platform, Some("PF12".to_string()));
    assert!(OptimizationConverter::from_proto_schedule_entry(&entry(1, None)).is_ok());
}

fn response(status: wire::OptimizationStatus, error: &str) -> wire::OptimizationResponse {
    wire::OptimizationResponse {
        request_id: "r".to_string(),
        status,
        optimized_schedule: vec![entry(2, None), entry(0, None)],
        kpis: Some(wire::PerformanceMetrics {
            total_delay_minutes: Milli { thousandths: 42_500 },
            average_delay_per_train: Milli { thousandths: 1_000 },
            conflicts_resolved: 6,
            throughput_trains_per_hour: Milli { thousandths: 12_000 },
            utilization_percent: Milli { thousandths: 70_000 },
        }),
        reasoning: "because".to_string(),
        execution_time_ms: 321,
        error_message: error.to_string(),
    }
}

#[test]
fn the_solvers_answer_is_read() {
    let now = Timestamp { millis: 10 };
    let read = OptimizationConverter::optimization_response_at(
        &response(wire::OptimizationStatus::Feasible, ""),
        now,
    )
    .unwrap();
    assert!(read.success);
    assert_eq!(read.optimized_schedule.len(), 2);
    assert_eq!(read.optimized_schedule[0].assigned_platform, Some("PF2".to_string()));
    assert_eq!(read.optimized_schedule[1].assigned_platform, None);
    assert_eq!(read.objective_value, Milli { thousandths: 42_500 });
    assert_eq!(read.total_delay_reduction_minutes, Milli { thousandths: 42_500 });
    assert_eq!(read.computation_time_ms, 321);
    assert_eq!(read.conflicts_resolved, 6);
    assert_eq!(read.message, "because");
    let optimal = OptimizationConverter::from_proto_optimization_response(&response(
        wire::OptimizationStatus::Optimal,
        "",
    ))
    .unwrap();
    assert!(optimal.success);
    for status in [
        wire::OptimizationStatus::Infeasible,
        wire::OptimizationStatus::Unknown,
        wire::OptimizationStatus::TimeLimitExceeded,
    ] {
        let read =
            OptimizationConverter::optimization_response_at(&response(status, "no way"), now)
                .unwrap();
        assert!(!read.success);
        assert_eq!(read.message, "no way");
    }
    let mut without = response(wire::OptimizationStatus::Optimal, "");
    without.kpis = None;
    assert_eq!(
        OptimizationConverter::from_proto_optimization_response(&without).unwrap_err(),
        "Missing performance metrics"
    );
}

fn simulation_response() -> wire::SimulationResponse {
    wire::SimulationResponse {
        success: true,
        scenario_name: "s".to_string(),
        simulation_results: Some(wire::SimulationResults {
            total_trains_processed: 9,
            average_delay_minutes: Milli { thousandths: 3_000 },
            throughput_trains_per_hour: Milli { thousandths: 4_000 },
            conflicts_detected: 1,
            utilization_percent: Milli { thousandths: 5_000 },
            timeline_events: vec![wire::SimulationEvent {
                timestamp: Some(wire::Timestamp { seconds: 1, nanos: 0 }),
                event_type: "x".to_string(),
                train_id: "T".to_string(),
                section_id: "S".to_string(),
                description: "d".to_string(),
            }],
        }),
        performance_comparison: Some(wire::PerformanceComparison {
            baseline_delay_minutes: Milli { thousandths: 1 },
            scenario_delay_minutes: Milli { thousandths: 2 },
            improvement_percent: Milli { thousandths: 3 },
            baseline_throughput: Milli { thousandths: 4 },
            scenario_throughput: Milli { thousandths: 5 },
            throughput_improvement_percent: Milli { thousandths: 6 },
        }),
        recommendations: vec!["r1".to_string(), "r2".to_string()],
    }
}

#[test]
fn the_solvers_simulation_is_read() {
    let read = OptimizationConverter::from_proto_simulation_response(&simulation_response()).unwrap();
    assert!(read.success);
    assert_eq!(read.scenario_name, "s");
    assert_eq!(read.simulation_results.total_trains_processed, 9);
    assert_eq!(read.simulation_results.conflicts_detected, 1);
    assert_eq!(read.simulation_results.timeline_events.len(), 1);
    assert_eq!(read.simulation_results.timeline_events[0].timestamp, Timestamp { millis: 1_000 });
    assert_eq!(read.simulation_results.timeline_events[0].train_id, "T");
    assert_eq!(read.performance_comparison.improvement_percent, Milli { thousandths: 3 });
    assert_eq!(
        read.performance_comparison.throughput_improvement_percent,
        Milli { thousandths: 6 }
    );
    assert_eq!(read.recommendations, vec!["r1", "r2"]);
    let mut no_results = simulation_response();
    no_results.simulation_results = None;
    no_results.performance_comparison = None;
    assert_eq!(
        OptimizationConverter::from_proto_simulation_response(&no_results).unwrap_err(),
        "Missing simulation results"
    );
    let mut no_comparison = simulation_response();
    no_comparison.performance_comparison = None;
    assert_eq!(
        OptimizationConverter::from_proto_simulation_response(&no_comparison).unwrap_err(),
        "Missing performance comparison"
    );
    let event = wire::SimulationEvent {
        timestamp: None,
        event_type: "e".to_string(),
        train_id: "t".to_string(),
        section_id: "s".to_string(),
        description: "d".to_string(),
    };
    let at = OptimizationConverter::simulation_event_at(&event, Timestamp { millis: 77 });
    assert_eq!(at.timestamp, Timestamp { millis: 77 });
    assert_eq!(at.event_type, "e");
    assert!(OptimizationConverter::from_proto_simulation_event(&event).is_ok());
}
