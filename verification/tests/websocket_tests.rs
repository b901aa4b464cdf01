use railway_backend::models::events::{DisruptionEvent, DisruptionType};
use railway_backend::models::train::{Train, TrainConsist, TrainStatus};
use railway_backend::models::{Direction, GeoPoint, Milli, TrainPriority};
use railway_backend::services::train_service::{
    AlertSeverity, AlertType, ConflictSeverity, ConflictType, TrainAlert, TrainConflict,
};
use railway_backend::time::Timestamp;
use railway_backend::websocket::{
    ClientInfo, Inbound, SocketAction, SocketEvent, TickPlan, WebSocketManager, WsMessage,
};

const T0: Timestamp = Timestamp { millis: 1_000 };
const T1: Timestamp = Timestamp { millis: 2_000 };
const T2: Timestamp = Timestamp { millis: 3_000 };

fn ids(list: &[&str]) -> Vec<String> {
    list.iter().map(|s| s.to_string()).collect()
}

fn sorted(mut list: Vec<String>) -> Vec<String> {
    list.sort();
    list
}

fn train(id: &str) -> Train {
    Train {
        id: id.to_string(),
        train_number: 1,
        name: "N".to_string(),
        priority: TrainPriority::Mail,
        current_section: "S".to_string(),
        position: GeoPoint { latitude_e7: 286_139_000, longitude_e7: 772_090_000 },
        delay_minutes: 4,
        eta_next_station: T0,
        speed_kmh: Milli { thousandths: 72_500 },
        direction: Direction::Up,
        consist: TrainConsist::default(),
        status: TrainStatus::Running,
        route: vec!["A".to_string()],
        created_at: T0,
        updated_at: T0,
    }
}

fn update_for(id: &str) -> WsMessage {
    WebSocketManager::train_update(&train(id), T1)
}

#[test]
fn an_update_reaches_only_the_observers_that_follow_the_train() {
    let mut manager = WebSocketManager::new();
    manager.connect_as("c1".to_string(), T0);
    manager.connect_as("c2".to_string(), T0);
    manager.subscribe("c1", &ids(&["T1"]), T1);
    assert_eq!(manager.recipients(&update_for("T2")), Vec::<String>::new());
    assert_eq!(manager.recipients(&update_for("T1")), ids(&["c1"]));
    let c1 = manager.client("c1").unwrap();
    assert!(c1.wants(&update_for("T1")));
    assert!(!c1.wants(&update_for("T2")));
    manager.subscribe("c2", &ids(&["T2", "T1"]), T1);
    assert_eq!(manager.recipients(&update_for("T1")), ids(&["c1", "c2"]));
    assert_eq!(manager.recipients(&update_for("T2")), ids(&["c2"]));
}

#[test]
fn a_second_subscription_replaces_the_first() {
    let mut manager = WebSocketManager::new();
    manager.connect_as("c1".to_string(), T0);
    manager.subscribe("c1", &ids(&["T1", "T2"]), T1);
    manager.subscribe("c1", &ids(&["T3"]), T2);
    let client = manager.client("c1").unwrap();
    assert_eq!(client.subscribed_trains, ids(&["T3"]));
    assert_eq!(client.last_activity, T2);
    assert_eq!(client.connected_at, T0);
    assert!(!client.wants(&update_for("T1")));
    assert!(!client.wants(&update_for("T2")));
    assert!(client.wants(&update_for("T3")));
    assert_eq!(manager.get_all_subscribed_trains(), ids(&["T3"]));
    // sections are a dimension of their own
    manager.subscribe_sections("c1", &ids(&["S1"]), T2);
    manager.subscribe_sections("c1", &ids(&["S2", "S2"]), T2);
    let client = manager.client("c1").unwrap();
    assert_eq!(client.subscribed_sections, ids(&["S2"]));
    assert_eq!(client.subscribed_trains, ids(&["T3"]));
}

#[test]
fn section_updates_are_filtered_and_other_messages_go_to_everyone() {
    let mut manager = WebSocketManager::new();
    manager.connect_as("c1".to_string(), T0);
    manager.connect_as("c2".to_string(), T0);
    manager.subscribe_sections("c2", &ids(&["S9"]), T1);
    let on_s9 = WebSocketManager::section_update("S9", 3, ids(&["x"]), T1);
    let on_s1 = WebSocketManager::section_update("S1", 0, Vec::new(), T1);
    assert_eq!(manager.recipients(&on_s9), ids(&["c2"]));
    assert_eq!(manager.recipients(&on_s1), Vec::<String>::new());
    let error = WsMessage::Error { message: "e".to_string(), timestamp: T1 };
    assert_eq!(manager.recipients(&error), ids(&["c1", "c2"]));
    assert_eq!(manager.broadcast(&on_s1), ids(&["c1", "c2"]));
    assert_eq!(WebSocketManager::new().broadcast(&error), Vec::<String>::new());
}

#[test]
fn connecting_registers_and_confirms() {
    let mut manager = WebSocketManager::new();
    assert_eq!(manager.client_count(), 0);
    let confirmation = manager.connect_as("c1".to_string(), T0);
    match confirmation {
        WsMessage::Connected { client_id, timestamp } => {
            assert_eq!(client_id, "c1");
            assert_eq!(timestamp, T0);
        }
        _ => panic!("not a confirmation"),
    }
    assert_eq!(manager.client_count(), 1);
    let client = manager.client("c1").unwrap();
    assert_eq!(client.client_id, "c1");
    assert!(client.subscribed_trains.is_empty());
    assert!(client.subscribed_sections.is_empty());
    assert_eq!(client.connected_at, T0);
    assert_eq!(client.last_activity, T0);

    let (key, message) = manager.connect();
    assert_eq!(key.len(), 36);
    assert!(matches!(message, WsMessage::Connected { ref client_id, .. } if *client_id == key));
    assert_eq!(manager.client_count(), 2);
    let (other, _) = manager.connect();
    assert_ne!(other, key);
    assert_eq!(manager.client_count(), 3);

    manager.disconnect("c1");
    assert_eq!(manager.client_count(), 2);
    assert!(manager.client("c1").is_none());
    manager.remove_client("nobody");
    assert_eq!(manager.client_count(), 2);
}

#[test]
fn adding_under_a_known_key_replaces() {
    let mut manager = WebSocketManager::new();
    let mut first = ClientInfo::connected("c1".to_string(), T0);
    first.follow_trains(&ids(&["T1"]), T0);
    manager.add_client("c1".to_string(), first);
    manager.add_client("c2".to_string(), ClientInfo::connected("c2".to_string(), T0));
    manager.add_client("c1".to_string(), ClientInfo::connected("c1".to_string(), T2));
    assert_eq!(manager.client_count(), 2);
    let client = manager.client("c1").unwrap();
    assert!(client.subscribed_trains.is_empty());
    assert_eq!(client.connected_at, T2);
}

#[test]
fn subscribed_trains_are_the_union_without_repeats() {
    let mut manager = WebSocketManager::new();
    assert!(manager.get_all_subscribed_trains().is_empty());
    manager.connect_as("c1".to_string(), T0);
    manager.connect_as("c2".to_string(), T0);
    manager.connect_as("c3".to_string(), T0);
    manager.subscribe("c1", &ids(&["T1", "T2", "T1"]), T1);
    manager.subscribe("c2", &ids(&["T2", "T3"]), T1);
    assert_eq!(sorted(manager.get_all_subscribed_trains()), ids(&["T1", "T2", "T3"]));
    manager.disconnect("c1");
    assert_eq!(sorted(manager.get_all_subscribed_trains()), ids(&["T2", "T3"]));
    // a subscription of an observer that is not connected changes nothing
    manager.subscribe("ghost", &ids(&["T9"]), T1);
    assert_eq!(manager.client_count(), 2);
    assert_eq!(sorted(manager.get_all_subscribed_trains()), ids(&["T2", "T3"]));
}

#[test]
fn inbound_messages_subscribe_or_are_passed_over() {
    let mut manager = WebSocketManager::new();
    manager.connect_as("c1".to_string(), T0);
    let subscribe = Inbound::Message(WsMessage::Subscribe { train_ids: ids(&["T1"]) });
    assert!(manager.handle_client_message("c1", &subscribe, T1));
    assert_eq!(manager.client("c1").unwrap().subscribed_trains, ids(&["T1"]));
    let sections = Inbound::Message(WsMessage::SubscribeSection { section_ids: ids(&["S1"]) });
    assert!(manager.handle_client_message("c1", &sections, T1));
    assert_eq!(manager.client("c1").unwrap().subscribed_sections, ids(&["S1"]));

    assert!(!manager.handle_client_message("c1", &Inbound::Malformed, T2));
    let stray = Inbound::Message(WsMessage::Error { message: "x".to_string(), timestamp: T2 });
    assert!(!manager.handle_client_message("c1", &stray, T2));
    let client = manager.client("c1").unwrap();
    assert_eq!(client.subscribed_trains, ids(&["T1"]));
    assert_eq!(client.last_activity, T1);
    assert_eq!(manager.client_count(), 1);
}

#[test]
fn only_a_close_or_a_failure_ends_the_connection() {
    let mut manager = WebSocketManager::new();
    manager.connect_as("c1".to_string(), T0);
    manager.connect_as("c2".to_string(), T0);
    assert_eq!(
        manager.on_socket_event("c1", &SocketEvent::Text(Inbound::Malformed), T1),
        SocketAction::KeepOpen
    );
    assert_eq!(manager.on_socket_event("c1", &SocketEvent::Other, T1), SocketAction::KeepOpen);
    let subscribe =
        SocketEvent::Text(Inbound::Message(WsMessage::Subscribe { train_ids: ids(&["T7"]) }));
    assert_eq!(manager.on_socket_event("c1", &subscribe, T1), SocketAction::KeepOpen);
    assert_eq!(manager.get_all_subscribed_trains(), ids(&["T7"]));
    assert_eq!(manager.client_count(), 2);
    assert_eq!(
        manager.on_socket_event("c1", &SocketEvent::CloseRequested, T2),
        SocketAction::Disconnect
    );
    assert!(manager.client("c1").is_none());
    assert!(manager.get_all_subscribed_trains().is_empty());
    assert_eq!(
        manager.on_socket_event("c2", &SocketEvent::WriteFailed, T2),
        SocketAction::Disconnect
    );
    assert_eq!(manager.client_count(), 0);
    manager.connect_as("c3".to_string(), T0);
    assert_eq!(
        manager.on_socket_event("c3", &SocketEvent::ReadFailed, T2),
        SocketAction::Disconnect
    );
    assert_eq!(manager.client_count(), 0);
}

#[test]
fn activity_is_noted_for_connected_observers() {
    let mut manager = WebSocketManager::new();
    manager.connect_as("c1".to_string(), T0);
    manager.activity_at("c1", T2);
    assert_eq!(manager.client("c1").unwrap().last_activity, T2);
    assert_eq!(manager.client("c1").unwrap().connected_at, T0);
    manager.activity_at("nobody", T2);
    assert_eq!(manager.client_count(), 1);
    manager.update_client_activity("c1");
    assert!(manager.client("c1").unwrap().last_activity.millis > 1_500_000_000_000);
}

fn alert() -> TrainAlert {
    TrainAlert {
        id: "T1-delay".to_string(),
        train_id: "T1".to_string(),
        alert_type: AlertType::HighDelay,
        severity: AlertSeverity::Critical,
        message: "late".to_string(),
        current_section: "S".to_string(),
        created_at: T1,
    }
}

fn conflict() -> TrainConflict {
    TrainConflict {
        id: "A-B".to_string(),
        train_a_id: "A".to_string(),
        train_b_id: "B".to_string(),
        section_id: "SEC4".to_string(),
        conflict_type: ConflictType::HeadOn,
        severity: ConflictSeverity::High,
        estimated_time_to_conflict: 100_000_000,
        distance_meters: 1_000,
        relative_speed_kmh: Milli { thousandths: 36_000 },
        detected_at: T2,
    }
}

#[test]
fn messages_are_built_from_what_they_report() {
    match update_for("T1") {
        WsMessage::TrainUpdate { train_id, position, speed_kmh, delay_minutes, status, timestamp } => {
            assert_eq!(train_id, "T1");
            assert_eq!(position, GeoPoint { latitude_e7: 286_139_000, longitude_e7: 772_090_000 });
            assert_eq!(speed_kmh, Milli { thousandths: 72_500 });
            assert_eq!(delay_minutes, 4);
            assert_eq!(status, TrainStatus::Running);
            assert_eq!(timestamp, T1);
        }
        _ => panic!("not a train update"),
    }
    let manager = WebSocketManager::new();
    match manager.send_train_alert(&alert()) {
        WsMessage::SystemAlert { alert_type, message, severity, timestamp } => {
            assert_eq!(alert_type, "HighDelay");
            assert_eq!(message, "late");
            assert_eq!(severity, "Critical");
            assert_eq!(timestamp, T1);
        }
        _ => panic!("not a system alert"),
    }
    match WebSocketManager::conflict_alert(&conflict()) {
        WsMessage::SystemAlert { alert_type, message, severity, timestamp } => {
            assert_eq!(alert_type, "ConflictDetected");
            assert_eq!(message, "Conflict detected in section SEC4 between trains");
            assert_eq!(severity, "High");
            assert_eq!(timestamp, T2);
        }
        _ => panic!("not a system alert"),
    }
    let disruption = DisruptionEvent::opened(
        "D1".to_string(),
        T0,
        DisruptionType::Weather,
        ids(&["S1", "S2"]),
        "fog".to_string(),
        7,
    );
    match WebSocketManager::disruption_alert(&disruption, T2) {
        WsMessage::DisruptionAlert {
            disruption_id,
            disruption_type,
            affected_sections,
            impact_level,
            description,
            timestamp,
        } => {
            assert_eq!(disruption_id, "D1");
            assert_eq!(disruption_type, DisruptionType::Weather);
            assert_eq!(affected_sections, ids(&["S1", "S2"]));
            assert_eq!(impact_level, 7);
            assert_eq!(description, "fog");
            assert_eq!(timestamp, T2);
        }
        _ => panic!("not a disruption alert"),
    }
    assert!(matches!(
        manager.send_disruption_alert(&disruption),
        WsMessage::DisruptionAlert { impact_level: 7, .. }
    ));
    assert!(matches!(
        manager.send_section_update("S3", 2, Vec::new()),
        WsMessage::SectionUpdate { occupancy: 2, .. }
    ));
    assert!(matches!(manager.send_train_update(&train("T5")), WsMessage::TrainUpdate { .. }));
}

#[test]
fn a_tick_is_idle_until_some_observer_follows_a_train() {
    let mut manager = WebSocketManager::new();
    assert!(matches!(manager.begin_tick(), TickPlan::Idle));
    manager.connect_as("c1".to_string(), T0);
    assert!(matches!(manager.begin_tick(), TickPlan::Idle));
    manager.subscribe("c1", &ids(&["T2", "T1"]), T1);
    match manager.begin_tick() {
        TickPlan::Fetch { train_ids } => assert_eq!(sorted(train_ids), ids(&["T1", "T2"])),
        TickPlan::Idle => panic!("idle with subscriptions"),
    }
}

#[test]
fn a_tick_pushes_updates_then_alerts_then_conflicts() {
    let fetched = vec![Some(train("T1")), None, Some(train("T3"))];
    let messages =
        WebSocketManager::tick_messages(&fetched, &vec![alert(), alert()], &vec![conflict()], T2);
    assert_eq!(messages.len(), 5);
    assert!(matches!(&messages[0], WsMessage::TrainUpdate { train_id, timestamp, .. }
        if train_id == "T1" && *timestamp == T2));
    assert!(matches!(&messages[1], WsMessage::TrainUpdate { train_id, .. } if train_id == "T3"));
    assert!(matches!(&messages[2], WsMessage::SystemAlert { alert_type, .. }
        if alert_type == "HighDelay"));
    assert!(matches!(&messages[3], WsMessage::SystemAlert { alert_type, .. }
        if alert_type == "HighDelay"));
    assert!(matches!(&messages[4], WsMessage::SystemAlert { alert_type, severity, .. }
        if alert_type == "ConflictDetected" && severity == "High"));
    // a tick in which nothing could be fetched still reports alerts
    let only_alerts =
        WebSocketManager::tick_messages(&vec![None, None], &vec![alert()], &Vec::new(), T2);
    assert_eq!(only_alerts.len(), 1);
    assert!(WebSocketManager::tick_messages(&Vec::new(), &Vec::new(), &Vec::new(), T2).is_empty());
}
