use railway_backend::models::events::{
    DisruptionEvent, DisruptionType, EventSeverity, TrainEvent, TrainEventType,
};
use railway_backend::models::optimization::{
    Constraint, OptimizationObjective, OptimizationRequest,
};
use railway_backend::models::section::Section;
use railway_backend::models::train::{Train, TrainConsist, TrainStatus};
use railway_backend::models::{
    clone_texts, contains_text, distinct_texts, Direction, GeoPoint, Milli, TrackType,
    TrainPriority,
};
use railway_backend::time::Timestamp;

const NOW: Timestamp = Timestamp { millis: 1_000_000 };

fn texts(list: &[&str]) -> Vec<String> {
    list.iter().map(|s| s.to_string()).collect()
}

#[test]
fn priorities_have_their_ordinals() {
    assert_eq!(TrainPriority::Emergency.value(), 1);
    assert_eq!(TrainPriority::Mail.value(), 2);
    assert_eq!(TrainPriority::Express.value(), 3);
    assert_eq!(TrainPriority::Passenger.value(), 4);
    assert_eq!(TrainPriority::Freight.value(), 5);
    assert_eq!(TrainPriority::Maintenance.value(), 6);
}

#[test]
fn a_new_train_is_scheduled_at_rest_and_on_time() {
    let train = Train::registered(
        "id-1".to_string(),
        NOW,
        12001,
        "Shatabdi".to_string(),
        TrainPriority::Express,
        texts(&["NDLS", "AGC"]),
    );
    assert_eq!(train.id, "id-1");
    assert_eq!(train.train_number, 12001);
    assert_eq!(train.name, "Shatabdi");
    assert_eq!(train.priority, TrainPriority::Express);
    assert_eq!(train.priority_value(), 3);
    assert_eq!(train.current_section, "");
    assert_eq!(train.position, GeoPoint { latitude_e7: 0, longitude_e7: 0 });
    assert_eq!(train.delay_minutes, 0);
    assert!(!train.is_delayed());
    assert_eq!(train.speed_kmh, Milli { thousandths: 0 });
    assert_eq!(train.direction, Direction::Up);
    assert_eq!(train.status, TrainStatus::Scheduled);
    assert_eq!(train.route, texts(&["NDLS", "AGC"]));
    assert_eq!(train.created_at, NOW);
    assert_eq!(train.updated_at, NOW);
    assert_eq!(train.eta_next_station, NOW);
    assert_eq!(train.consist.locomotive_type, "WDM-3A");
    assert_eq!(train.consist.total_coaches, 12);
    assert_eq!(train.consist.passenger_coaches, 12);
    assert_eq!(train.consist.freight_wagons, 0);
    assert_eq!(train.consist.total_length_meters, Milli { thousandths: 300_000 });
    assert_eq!(train.consist.max_speed_kmh, Milli { thousandths: 110_000 });

    let fresh = Train::new(1, "N".to_string(), TrainPriority::Mail, texts(&["A"]));
    let other = Train::new(1, "N".to_string(), TrainPriority::Mail, texts(&["A"]));
    assert_eq!(fresh.id.len(), 36);
    assert_ne!(fresh.id, other.id);
    assert_eq!(fresh.created_at, fresh.updated_at);
    assert!(fresh.created_at.millis > 1_500_000_000_000);
    let copy = fresh.clone();
    assert_eq!(copy.id, fresh.id);
    assert_eq!(copy.route, fresh.route);
}

#[test]
fn delays_add_up_and_mark_the_train() {
    let mut train = Train::registered(
        "t".to_string(),
        NOW,
        1,
        "N".to_string(),
        TrainPriority::Mail,
        texts(&["A"]),
    );
    let later = Timestamp { millis: 2_000_000 };
    train.add_delay_at(-5, later);
    assert_eq!(train.delay_minutes, -5);
    assert_eq!(train.status, TrainStatus::Scheduled);
    assert_eq!(train.updated_at, later);
    train.add_delay_at(5, later);
    assert_eq!(train.delay_minutes, 0);
    assert_eq!(train.status, TrainStatus::Scheduled);
    train.add_delay_at(1, later);
    assert_eq!(train.delay_minutes, 1);
    assert_eq!(train.status, TrainStatus::Delayed);
    assert!(train.is_delayed());
    train.add_delay(9);
    assert_eq!(train.delay_minutes, 10);
    assert!(train.updated_at.millis > 1_500_000_000_000);
    train.update_position_at(
        GeoPoint { latitude_e7: 3, longitude_e7: 4 },
        Milli { thousandths: 5 },
        NOW,
    );
    assert_eq!(train.position, GeoPoint { latitude_e7: 3, longitude_e7: 4 });
    assert_eq!(train.speed_kmh, Milli { thousandths: 5 });
    assert_eq!(train.updated_at, NOW);
    train.update_position(GeoPoint { latitude_e7: 0, longitude_e7: 0 }, Milli::zero());
    assert!(train.updated_at.millis > 1_500_000_000_000);
}

#[test]
fn statuses_on_the_rails_are_active() {
    assert!(TrainStatus::Running.is_active());
    assert!(TrainStatus::Delayed.is_active());
    assert!(TrainStatus::AtStation.is_active());
    assert!(!TrainStatus::Scheduled.is_active());
    assert!(!TrainStatus::Terminated.is_active());
    assert!(!TrainStatus::Cancelled.is_active());
}

#[test]
fn quantities_are_held_in_thousandths() {
    assert_eq!(Milli::from_units(120), Milli { thousandths: 120_000 });
    assert_eq!(Milli::from_units(-3), Milli { thousandths: -3_000 });
    assert_eq!(Milli::from_units(i32::MAX).thousandths, 2_147_483_647_000);
    assert_eq!(Milli::zero().thousandths, 0);
    assert!(Milli { thousandths: 1 }.is_positive());
    assert!(!Milli { thousandths: 0 }.is_positive());
    assert!(!Milli { thousandths: -1 }.is_positive());
}

#[test]
fn sections_hold_trains_up_to_their_capacity() {
    let mut section = Section::opened(
        "s1".to_string(),
        NOW,
        "Main".to_string(),
        "A".to_string(),
        "B".to_string(),
        TrackType::Double,
        Milli { thousandths: 12_500 },
    );
    assert_eq!(section.capacity, 2);
    assert_eq!(section.speed_limit_kmh, Milli { thousandths: 100_000 });
    assert_eq!(section.distance_km, Milli { thousandths: 12_500 });
    assert!(!section.is_at_capacity());
    assert_eq!(section.utilization(), Milli { thousandths: 0 });
    let later = Timestamp { millis: 2_000_000 };
    assert!(section.add_train_at("T1".to_string(), later));
    assert_eq!(section.updated_at, later);
    assert!(!section.add_train_at("T1".to_string(), NOW));
    assert_eq!(section.updated_at, later);
    assert_eq!(section.utilization(), Milli { thousandths: 50_000 });
    assert!(section.add_train("T2".to_string()));
    assert!(section.is_at_capacity());
    assert_eq!(section.utilization(), Milli { thousandths: 100_000 });
    assert!(!section.add_train("T3".to_string()));
    assert_eq!(section.current_trains, texts(&["T1", "T2"]));
    assert!(!section.remove_train_at("T9", NOW));
    assert!(section.remove_train_at("T1", NOW));
    assert_eq!(section.updated_at, NOW);
    assert_eq!(section.current_trains, texts(&["T2"]));
    assert!(section.remove_train("T2"));
    assert!(section.current_trains.is_empty());
    assert!(!section.remove_train("T2"));

    let capacity = |track| {
        Section::new("n".to_string(), "a".to_string(), "b".to_string(), track, Milli::zero())
            .capacity
    };
    assert_eq!(capacity(TrackType::Single), 1);
    assert_eq!(capacity(TrackType::Double), 2);
    assert_eq!(capacity(TrackType::Multiple), 4);
    let fresh = Section::new(
        "n".to_string(),
        "a".to_string(),
        "b".to_string(),
        TrackType::Single,
        Milli::zero(),
    );
    assert_eq!(fresh.id.len(), 36);
    assert_eq!(fresh.created_at, fresh.updated_at);

    let mut third = fresh;
    third.capacity = 3;
    third.current_trains = texts(&["x"]);
    assert_eq!(third.utilization(), Milli { thousandths: 33_333 });
    third.capacity = 0;
    assert_eq!(third.utilization(), Milli { thousandths: 0 });
    assert!(third.is_at_capacity());
}

#[test]
fn events_are_graded_by_the_delay_they_note() {
    let spot = GeoPoint { latitude_e7: 1, longitude_e7: 2 };
    let bare = || {
        TrainEvent::recorded("e".to_string(), NOW, "t".to_string(), TrainEventType::Delay, spot)
    };
    let event = bare();
    assert_eq!(event.id, "e");
    assert_eq!(event.train_id, "t");
    assert_eq!(event.timestamp, NOW);
    assert_eq!(event.location, spot);
    assert!(event.station_code.is_none());
    assert!(event.section_id.is_none());
    assert!(event.metadata.speed_kmh.is_none());
    assert!(event.metadata.delay_minutes.is_none());
    assert!(event.metadata.platform.is_none());
    assert_eq!(event.metadata.severity, EventSeverity::Low);
    for (delay, severity) in [
        (-1, EventSeverity::Low),
        (10, EventSeverity::Low),
        (11, EventSeverity::Medium),
        (30, EventSeverity::Medium),
        (31, EventSeverity::High),
        (500, EventSeverity::High),
    ] {
        let graded = bare().with_delay(delay);
        assert_eq!(graded.metadata.delay_minutes, Some(delay));
        assert_eq!(graded.metadata.severity, severity);
    }
    let fast = bare().with_delay(40).with_speed(Milli { thousandths: 99_000 });
    assert_eq!(fast.metadata.speed_kmh, Some(Milli { thousandths: 99_000 }));
    assert_eq!(fast.metadata.severity, EventSeverity::High);
    let live = TrainEvent::new("t".to_string(), TrainEventType::Arrival, spot);
    assert_eq!(live.id.len(), 36);
    assert_eq!(live.event_type, TrainEventType::Arrival);
}

#[test]
fn disruptions_last_until_they_end() {
    let mut disruption = DisruptionEvent::opened(
        "d".to_string(),
        NOW,
        DisruptionType::SignalFailure,
        texts(&["S1"]),
        "signal down".to_string(),
        6,
    );
    assert!(disruption.is_active());
    assert_eq!(disruption.duration_minutes(), None);
    assert!(disruption.affected_trains.is_empty());
    assert!(disruption.response_actions.is_empty());
    assert_eq!(disruption.impact_level, 6);
    assert_eq!(disruption.start_time, NOW);
    disruption.end_time = Some(Timestamp { millis: NOW.millis + 90 * 60_000 + 59_999 });
    assert!(!disruption.is_active());
    assert_eq!(disruption.duration_minutes(), Some(90));
    disruption.end_time = Some(Timestamp { millis: NOW.millis - 61_000 });
    assert_eq!(disruption.duration_minutes(), Some(-1));
    let live = DisruptionEvent::new(DisruptionType::Weather, texts(&[]), "fog".to_string(), 2);
    assert_eq!(live.id.len(), 36);
    assert!(live.is_active());
    assert_eq!(live.description, "fog");
    assert_eq!(DisruptionType::RollingStockFailure.name(), "RollingStockFailure");
    assert_eq!(DisruptionType::Weather.name(), "Weather");
}

#[test]
fn stored_requests_start_from_the_standing_constraints() {
    let request = OptimizationRequest::prepared("r".to_string(), NOW, "SEC".to_string(), vec![]);
    assert_eq!(request.request_id, "r");
    assert_eq!(request.section_id, "SEC");
    assert_eq!(request.time_horizon_minutes, 120);
    assert_eq!(request.requested_at, NOW);
    assert!(request.disruptions.is_empty());
    assert_eq!(
        request.objective,
        OptimizationObjective::BalanceDelayThroughput {
            delay_weight: Milli { thousandths: 700 },
            throughput_weight: Milli { thousandths: 300 },
        }
    );
    assert_eq!(request.constraints.len(), 4);
    assert!(matches!(
        request.constraints[0],
        Constraint::PrecedenceRule {
            higher_priority: TrainPriority::Express,
            lower_priority: TrainPriority::Freight
        }
    ));
    assert!(matches!(
        request.constraints[1],
        Constraint::PrecedenceRule {
            higher_priority: TrainPriority::Mail,
            lower_priority: TrainPriority::Passenger
        }
    ));
    assert!(matches!(
        request.constraints[2],
        Constraint::SignalSpacing { minimum_headway_seconds: 300 }
    ));
    match &request.constraints[3] {
        Constraint::SafetyConstraint { rule, description } => {
            assert_eq!(rule, "single_block_occupancy");
            assert_eq!(description, "Only one train per block section");
        }
        other => panic!("unexpected constraint {:?}", other),
    }
    assert_eq!(OptimizationRequest::new("S".to_string(), vec![]).request_id.len(), 36);
    assert_eq!(OptimizationRequest::default_constraints().len(), 4);
}

#[test]
fn lists_of_texts_are_copied_searched_and_thinned() {
    let list = texts(&["b", "a", "b", "c", "a"]);
    assert_eq!(clone_texts(&list), list);
    assert!(contains_text(&list, "c"));
    assert!(!contains_text(&list, "d"));
    assert!(!contains_text(&Vec::new(), ""));
    assert_eq!(distinct_texts(&list), texts(&["b", "a", "c"]));
    assert_eq!(distinct_texts(&Vec::new()), Vec::<String>::new());
    assert_eq!(TrainConsist::default().clone().locomotive_type, "WDM-3A");
}

#[test]
fn the_state_of_a_section_is_put_together() {
    let mut section = Section::opened(
        "s1".to_string(),
        NOW,
        "Main".to_string(),
        "A".to_string(),
        "B".to_string(),
        TrackType::Multiple,
        Milli { thousandths: 1_000 },
    );
    section.current_trains = texts(&["T1"]);
    section.maintenance_blocks = vec![railway_backend::models::section::MaintenanceBlock {
        id: "m1".to_string(),
        section_id: "s1".to_string(),
        block_type: "rail".to_string(),
        start_time: NOW,
        end_time: NOW,
        description: "grinding".to_string(),
        affects_capacity: true,
    }];
    let trains = vec![
        Train::registered("T1".to_string(), NOW, 1, "a".to_string(), TrainPriority::Mail, texts(&["x"])),
        Train::registered("T2".to_string(), NOW, 2, "b".to_string(), TrainPriority::Mail, texts(&["x"])),
    ];
    let later = Timestamp { millis: 9_000_000 };
    let state = railway_backend::models::section::SectionState::get_section_state(
        &section,
        &trains,
        vec![],
        later,
    );
    assert_eq!(state.section_id, "s1");
    assert_eq!(state.capacity, 4);
    assert_eq!(state.current_occupancy, 2);
    assert_eq!(state.active_trains, texts(&["T1", "T2"]));
    assert_eq!(state.maintenance_blocks.len(), 1);
    assert_eq!(state.maintenance_blocks[0].description, "grinding");
    assert!(state.conflicts.is_empty());
    assert_eq!(state.utilization_percent, Milli { thousandths: 25_000 });
    assert_eq!(state.last_updated, later);
    assert_eq!(state.signal_status, railway_backend::models::SignalStatus::Green);
    assert_eq!(state.weather_condition, railway_backend::models::WeatherType::Clear);
}
