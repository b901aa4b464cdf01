use railway_backend::config::{ExternalApiConfig, IngestionConfig};
use railway_backend::models::events::{EventSeverity, TrainEventType};
use railway_backend::models::train::{Train, TrainStatus};
use railway_backend::models::{GeoPoint, Milli, TrainPriority};
use railway_backend::services::ingestion_service::{
    IncomingStationData, IncomingTrainData, IngestAction, IngestionService, TrainRecordDraws,
};
use railway_backend::services::Service;
use railway_backend::time::Timestamp;

const NOW: Timestamp = Timestamp { millis: 1_700_000_000_000 };

fn record(number: u32, status: &str) -> IncomingTrainData {
    IncomingTrainData {
        train_number: number,
        current_station: "NDLS".to_string(),
        delay_minutes: 12,
        speed_kmh: Milli { thousandths: 64_500 },
        position: GeoPoint { latitude_e7: 286_000_000, longitude_e7: 772_000_000 },
        timestamp: NOW,
        status: status.to_string(),
        next_station: Some("GZB".to_string()),
        eta_next_station: Some(Timestamp { millis: NOW.millis + 900_000 }),
    }
}

fn known(id: &str, number: u32) -> Train {
    let mut train = Train::registered(
        id.to_string(),
        Timestamp { millis: 5 },
        number,
        "Known".to_string(),
        TrainPriority::Express,
        vec!["X".to_string()],
    );
    train.status = TrainStatus::Running;
    train
}

#[test]
fn statuses_are_read_whatever_their_case() {
    let service = IngestionService::new();
    assert_eq!(service.parse_train_status("Running"), TrainStatus::Running);
    assert_eq!(service.parse_train_status("DELAYED"), TrainStatus::Delayed);
    assert_eq!(service.parse_train_status("AtStation"), TrainStatus::AtStation);
    assert_eq!(service.parse_train_status("at_station"), TrainStatus::AtStation);
    assert_eq!(service.parse_train_status("scheduled"), TrainStatus::Scheduled);
    assert_eq!(service.parse_train_status("Terminated"), TrainStatus::Terminated);
    assert_eq!(service.parse_train_status("CANCELLED"), TrainStatus::Cancelled);
    assert_eq!(service.parse_train_status("lost"), TrainStatus::Scheduled);
    assert_eq!(service.parse_train_status(""), TrainStatus::Scheduled);
    assert_eq!(IngestionService::status_named(&"Running".to_string()), TrainStatus::Scheduled);
    assert_eq!(IngestionService::status_named(&"running".to_string()), TrainStatus::Running);
}

#[test]
fn a_record_of_a_known_train_refreshes_it() {
    let service = IngestionService::new();
    let active = vec![known("a", 100), known("b", 200), known("c", 200)];
    match service.ingest_at(&record(200, "Delayed"), &active, "fresh".to_string(), NOW) {
        IngestAction::Update(train) => {
            assert_eq!(train.id, "b");
            assert_eq!(train.name, "Known");
            assert_eq!(train.priority, TrainPriority::Express);
            assert_eq!(train.position, GeoPoint { latitude_e7: 286_000_000, longitude_e7: 772_000_000 });
            assert_eq!(train.speed_kmh, Milli { thousandths: 64_500 });
            assert_eq!(train.delay_minutes, 12);
            assert_eq!(train.status, TrainStatus::Delayed);
            assert_eq!(train.updated_at, NOW);
            assert_eq!(train.created_at, Timestamp { millis: 5 });
            assert_eq!(train.eta_next_station, Timestamp { millis: 5 });
        }
        other => panic!("not an update: {:?}", other),
    }
}

#[test]
fn a_record_of_an_unknown_train_registers_it() {
    let service = IngestionService::new();
    let active = vec![known("a", 100)];
    match service.ingest_at(&record(12249, "RUNNING"), &active, "fresh".to_string(), NOW) {
        IngestAction::Create(train) => {
            assert_eq!(train.id, "fresh");
            assert_eq!(train.train_number, 12249);
            assert_eq!(train.name, "Train 12249");
            assert_eq!(train.priority, TrainPriority::Passenger);
            assert_eq!(train.route, vec!["NDLS"]);
            assert_eq!(train.status, TrainStatus::Running);
            assert_eq!(train.delay_minutes, 12);
            assert_eq!(train.speed_kmh, Milli { thousandths: 64_500 });
            assert_eq!(train.eta_next_station, Timestamp { millis: NOW.millis + 900_000 });
            assert_eq!(train.created_at, NOW);
            assert_eq!(train.current_section, "");
        }
        other => panic!("not a creation: {:?}", other),
    }
    let mut no_eta = record(7, "odd");
    no_eta.eta_next_station = None;
    let train = service.train_from_data("i".to_string(), NOW, &no_eta);
    assert_eq!(train.eta_next_station, NOW);
    assert_eq!(train.status, TrainStatus::Scheduled);
    let live = service.create_train_from_data(&record(8, "running")).unwrap();
    assert_eq!(live.id.len(), 36);
    assert_eq!(live.name, "Train 8");
    assert!(matches!(
        service.process_incoming_train_data(&record(100, "running"), &active).unwrap(),
        IngestAction::Update(_)
    ));
    assert!(matches!(
        service.process_incoming_train_data(&record(101, "running"), &active).unwrap(),
        IngestAction::Create(_)
    ));
}

#[test]
fn a_fleet_gives_rise_to_delay_and_speed_events() {
    let service = IngestionService::new();
    let mut late_and_moving = known("a", 1);
    late_and_moving.delay_minutes = 35;
    late_and_moving.speed_kmh = Milli { thousandths: 80_000 };
    let mut standing = known("b", 2);
    standing.delay_minutes = 0;
    standing.speed_kmh = Milli { thousandths: 0 };
    let mut moving = known("c", 3);
    moving.delay_minutes = -2;
    moving.speed_kmh = Milli { thousandths: 1 };
    let events = service.generate_events(&vec![late_and_moving, standing, moving]);
    assert_eq!(events.len(), 3);
    assert_eq!(events[0].train_id, "a");
    assert_eq!(events[0].event_type, TrainEventType::Delay);
    assert_eq!(events[0].metadata.delay_minutes, Some(35));
    assert_eq!(events[0].metadata.severity, EventSeverity::High);
    assert_eq!(events[1].train_id, "a");
    assert_eq!(events[1].event_type, TrainEventType::SpeedChange);
    assert_eq!(events[1].metadata.speed_kmh, Some(Milli { thousandths: 80_000 }));
    assert_eq!(events[2].train_id, "c");
    assert_eq!(events[2].event_type, TrainEventType::SpeedChange);
    assert_ne!(events[0].id, events[1].id);
    assert!(service.generate_events(&vec![]).is_empty());
}

#[test]
fn a_cycle_is_reported_whatever_fails() {
    let service = IngestionService::new();
    let report = service.perform_single_ingestion(Some(5), Some(3), Some(8), 120, NOW).unwrap();
    assert_eq!(report.trains_processed, 5);
    assert_eq!(report.stations_processed, 3);
    assert_eq!(report.events_generated, 8);
    assert_eq!(report.errors_encountered, 0);
    assert_eq!(report.processing_time_ms, 120);
    assert_eq!(report.timestamp, NOW);
    let report = service.perform_single_ingestion(None, Some(3), None, 7, NOW).unwrap();
    assert_eq!(report.trains_processed, 0);
    assert_eq!(report.stations_processed, 3);
    assert_eq!(report.events_generated, 0);
    assert_eq!(report.errors_encountered, 2);
    let report = service.perform_single_ingestion(None, None, None, 0, NOW).unwrap();
    assert_eq!(report.errors_encountered, 3);
    assert_eq!(
        service.trigger_manual_ingestion(Some(1), None, Some(2), 5, NOW).unwrap(),
        service.perform_single_ingestion(Some(1), None, Some(2), 5, NOW).unwrap()
    );
}

fn feed(name: &str, timeout: u64, enabled: bool) -> ExternalApiConfig {
    ExternalApiConfig {
        name: name.to_string(),
        url: "u".to_string(),
        api_key: None,
        timeout_seconds: timeout,
        enabled,
    }
}

#[test]
fn the_client_waits_as_long_as_the_first_enabled_feed_asks() {
    let with = |feeds: Vec<ExternalApiConfig>| {
        IngestionService::with_config(IngestionConfig {
            enabled: true,
            external_apis: feeds,
            polling_interval_seconds: 1,
            batch_size: 1,
            retry_attempts: 1,
            retry_delay_seconds: 1,
        })
        .http_timeout_seconds()
    };
    assert_eq!(with(vec![]), 10);
    assert_eq!(with(vec![feed("a", 3, false), feed("b", 4, false)]), 10);
    assert_eq!(with(vec![feed("a", 3, false), feed("b", 4, true), feed("c", 5, true)]), 4);
    assert_eq!(with(vec![feed("a", 3, true)]), 3);
    assert_eq!(IngestionService::new().http_timeout_seconds(), 10);
    assert!(!IngestionService::feed_health(&feed("a", 1, false), true));
    assert!(!IngestionService::feed_health(&feed("a", 1, true), false));
    assert!(IngestionService::feed_health(&feed("a", 1, true), true));
}

#[test]
fn the_service_starts_with_two_feeds_switched_off() {
    let service = IngestionService::new();
    assert_eq!(service.name(), "IngestionService");
    assert!(service.config.enabled);
    assert_eq!(service.config.external_apis.len(), 2);
    assert_eq!(service.config.external_apis[0].name, "trains");
    assert_eq!(
        service.config.external_apis[1].url,
        "https://api.indianrailway.gov.in/stations/status"
    );
    assert!(service.config.external_apis.iter().all(|f| !f.enabled && f.timeout_seconds == 10));
    assert_eq!(service.config.polling_interval_seconds, 30);
    assert_eq!(service.config.batch_size, 100);
    let stats = service.get_ingestion_stats(NOW).unwrap();
    assert_eq!(stats.total_records_processed, 1250);
    assert_eq!(stats.successful_ingestions, 1195);
    assert_eq!(stats.failed_ingestions, 55);
    assert_eq!(stats.average_processing_time_ms, Milli { thousandths: 125_500 });
    assert_eq!(stats.last_ingestion, Some(NOW));
    assert_eq!(stats.uptime_hours, Milli { thousandths: 24_500 });
    let station = IncomingStationData {
        station_code: "NDLS".to_string(),
        station_name: "New Delhi".to_string(),
        platform_count: 16,
        current_occupancy: 4,
        trains_in_station: vec![],
        delays_reported: 0,
        timestamp: NOW,
    };
    assert!(service.process_incoming_station_data(&station).is_ok());
}

#[test]
fn made_up_records_are_exact_for_given_draws() {
    let draws = TrainRecordDraws {
        station: 2,
        next_station: 4,
        north: 1_234_567,
        east: 7_654_321,
        delay_minutes: -3,
        speed_kmh: Milli { thousandths: 99_000 },
        status: 1,
        eta_minutes: 20,
    };
    let record = IngestionService::mock_train_record(3, NOW, draws);
    assert_eq!(record.train_number, 12723);
    assert_eq!(record.current_station, "AGC");
    assert_eq!(record.next_station, Some("BPL".to_string()));
    assert_eq!(
        record.position,
        GeoPoint { latitude_e7: 287_234_567, longitude_e7: 779_654_321 }
    );
    assert_eq!(record.delay_minutes, -3);
    assert_eq!(record.speed_kmh, Milli { thousandths: 99_000 });
    assert_eq!(record.status, "Delayed");
    assert_eq!(record.timestamp, NOW);
    assert_eq!(record.eta_next_station, Some(Timestamp { millis: NOW.millis + 1_200_000 }));
    let station = IngestionService::mock_station_record(1, NOW, 3, 2);
    assert_eq!(station.station_code, "GZB");
    assert_eq!(station.station_name, "Ghaziabad");
    assert_eq!(station.platform_count, 8);
    assert_eq!(station.current_occupancy, 3);
    assert_eq!(station.trains_in_station, vec!["T10000", "T10001", "T10002"]);
    assert_eq!(station.delays_reported, 2);
}

#[test]
fn made_up_records_stay_in_range() {
    let service = IngestionService::new();
    for _ in 0..20 {
        let records = service.generate_mock_train_data().unwrap();
        let numbers: Vec<u32> = records.iter().map(|r| r.train_number).collect();
        assert_eq!(numbers, vec![12249, 12648, 12951, 12723, 22691]);
        for record in &records {
            assert!(["NDLS", "GZB", "AGC", "JHS", "BPL"].contains(&record.current_station.as_str()));
            assert!((-5..=45).contains(&record.delay_minutes));
            assert!((0..=120_000).contains(&record.speed_kmh.thousandths));
            assert!((286_000_000..386_000_000).contains(&record.position.latitude_e7));
            assert!((772_000_000..922_000_000).contains(&record.position.longitude_e7));
            assert!(["Running", "Delayed", "AtStation", "Scheduled"]
                .contains(&record.status.as_str()));
            let eta = record.eta_next_station.unwrap().millis - record.timestamp.millis;
            assert!((15 * 60_000..=120 * 60_000).contains(&eta));
        }
        let stations = service.generate_mock_station_data().unwrap();
        let platforms: Vec<u32> = stations.iter().map(|s| s.platform_count).collect();
        assert_eq!(platforms, vec![16, 8, 6, 7, 10]);
        for station in &stations {
            assert!(station.current_occupancy <= station.platform_count);
            assert_eq!(station.trains_in_station.len() as u32, station.current_occupancy);
            assert!(station.delays_reported <= 5);
        }
    }
}
