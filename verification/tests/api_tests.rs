use railway_backend::api::analytics::{
    calculate_kpis, calculate_section_analytics, calculate_system_overview, AnalyticsQuery,
};
use railway_backend::api::trains::{
    create_train, delete_train, get_all_trains, get_delayed_trains, get_train_status,
    get_trains_in_section, update_train, CreateTrainRequest, PerformanceHistoryQuery,
    TrainListQuery, TrainStatusInfo, TrainStatusQuery, TrainStatusResponse, UpdateTrainRequest,
};
use railway_backend::api::ingestion::overall_health;
use railway_backend::api::optimization::{health_check, optimization_failure, simulation_failure};
use railway_backend::api::ApiError;
use railway_backend::models::events::{DisruptionEvent, DisruptionType};
use railway_backend::models::train::{Train, TrainStatus};
use railway_backend::models::{
    Direction, GeoPoint, Milli, PriorityBreakdown, TrainPriority, TrainStatistics,
};
use railway_backend::services::train_service::TrainService;
use railway_backend::services::ServiceError;
use railway_backend::time::Timestamp;

const NOW: Timestamp = Timestamp { millis: 1_700_000_000_000 };

fn train(id: &str, number: u32, name: &str, section: &str, delay: i32, status: TrainStatus) -> Train {
    let mut t = Train::registered(
        id.to_string(),
        Timestamp { millis: 1 },
        number,
        name.to_string(),
        TrainPriority::Passenger,
        vec!["A".to_string()],
    );
    t.current_section = section.to_string();
    t.delay_minutes = delay;
    t.status = status;
    t.speed_kmh = Milli { thousandths: 60_000 };
    t
}

fn fleet() -> Vec<Train> {
    vec![
        train("a", 12001, "Shatabdi Express", "S1", 0, TrainStatus::Running),
        train("b", 12002, "Mumbai Mail", "S2", 20, TrainStatus::Delayed),
        train("c", 22003, "Chennai Express", "S1", -4, TrainStatus::Running),
        train("d", 30004, "Goods", "S1", 7, TrainStatus::AtStation),
    ]
}

fn shown(response: &TrainStatusResponse) -> Vec<&str> {
    response.trains.iter().map(|t| t.id.as_str()).collect()
}

#[test]
fn errors_map_to_statuses() {
    let status = |e: ServiceError| ApiError::Service(e).status_code();
    assert_eq!(status(ServiceError::NotFound("x".to_string())), 404);
    assert_eq!(status(ServiceError::Conflict("x".to_string())), 409);
    assert_eq!(status(ServiceError::Validation("x".to_string())), 400);
    assert_eq!(status(ServiceError::Database("x".to_string())), 500);
    assert_eq!(status(ServiceError::ExternalApi("x".to_string())), 500);
    assert_eq!(status(ServiceError::Optimization("x".to_string())), 500);
    assert_eq!(ApiError::Validation("x".to_string()).status_code(), 400);
    assert_eq!(ApiError::NotFound("x".to_string()).status_code(), 404);
    assert_eq!(ApiError::NotFound("x".to_string()).message(), "Not found: x");
    assert_eq!(ApiError::Validation("bad".to_string()).message(), "Validation error: bad");
    let wrapped: ApiError = ServiceError::Conflict("dup".to_string()).into();
    assert_eq!(wrapped.message(), "Service error: Conflict detected: dup");
    assert_eq!(wrapped.status_code(), 409);
}

#[test]
fn status_queries_filter_limit_and_summarize() {
    let everything = TrainStatusQuery {
        status: None,
        section_id: None,
        priority: None,
        delayed_only: None,
        limit: None,
    };
    let response = get_train_status(&fleet(), &everything, NOW);
    assert_eq!(shown(&response), vec!["a", "b", "c", "d"]);
    assert_eq!(response.total_count, 4);
    assert_eq!(response.delayed_count, 2);
    assert_eq!(response.on_time_count, 2);
    // (0 + 20 - 4 + 7) / 4 = 5.75
    assert_eq!(response.average_delay_minutes, Milli { thousandths: 5_750 });
    assert_eq!(response.timestamp, NOW);

    let narrowed = TrainStatusQuery {
        status: None,
        section_id: Some("S1".to_string()),
        priority: Some(TrainPriority::Passenger),
        delayed_only: Some(false),
        limit: Some(2),
    };
    let response = get_train_status(&fleet(), &narrowed, NOW);
    assert_eq!(shown(&response), vec!["a", "c"]);
    assert_eq!(response.delayed_count, 0);
    assert_eq!(response.average_delay_minutes, Milli { thousandths: -2_000 });

    let delayed = TrainStatusQuery {
        status: Some(TrainStatus::AtStation),
        section_id: None,
        priority: None,
        delayed_only: Some(true),
        limit: None,
    };
    assert_eq!(shown(&get_train_status(&fleet(), &delayed, NOW)), vec!["d"]);
    let none = get_train_status(&Vec::new(), &everything, NOW);
    assert_eq!(none.total_count, 0);
    assert_eq!(none.average_delay_minutes, Milli { thousandths: 0 });

    let late = get_delayed_trains(&fleet(), NOW);
    assert_eq!(shown(&late), vec!["b", "d"]);
    assert_eq!(late.delayed_count, 2);
    assert_eq!(late.on_time_count, 0);
    assert_eq!(late.average_delay_minutes, Milli { thousandths: 13_500 });
    let in_section = get_trains_in_section(&fleet(), "S1", NOW);
    assert_eq!(shown(&in_section), vec!["a", "c", "d"]);
    assert_eq!(in_section.delayed_count, 1);
    assert_eq!(in_section.on_time_count, 2);
    assert_eq!(in_section.average_delay_minutes, Milli { thousandths: 1_000 });
}

#[test]
fn a_train_is_shown_without_its_consist() {
    let info = TrainStatusInfo::from(train("a", 1, "N", "S", 3, TrainStatus::Delayed));
    assert_eq!(info.id, "a");
    assert_eq!(info.train_number, 1);
    assert_eq!(info.name, "N");
    assert_eq!(info.current_section, "S");
    assert_eq!(info.delay_minutes, 3);
    assert_eq!(info.status, TrainStatus::Delayed);
    assert_eq!(info.route, vec!["A"]);
    assert_eq!(info.updated_at, Timestamp { millis: 1 });
}

#[test]
fn lists_are_paged_then_searched() {
    let query = |page, per_page, status, search: Option<&str>| TrainListQuery {
        page,
        per_page,
        status,
        search: search.map(|s| s.to_string()),
    };
    let list = |q: &TrainListQuery| {
        let r = get_all_trains(&fleet(), q, NOW);
        (
            r.trains.iter().map(|t| t.id.clone()).collect::<Vec<String>>(),
            r.total_count,
            r.page,
            r.per_page,
            r.total_pages,
        )
    };
    let ids = |l: &[&str]| l.iter().map(|s| s.to_string()).collect::<Vec<String>>();
    assert_eq!(list(&query(None, None, None, None)), (ids(&["a", "b", "c", "d"]), 4, 1, 50, 1));
    assert_eq!(list(&query(Some(2), Some(3), None, None)), (ids(&["d"]), 4, 2, 3, 2));
    assert_eq!(list(&query(Some(1), Some(1), None, None)), (ids(&["a"]), 4, 1, 1, 4));
    assert_eq!(list(&query(Some(0), Some(0), None, None)), (ids(&["a"]), 4, 1, 1, 4));
    assert_eq!(
        list(&query(None, None, None, Some("EXPRESS"))),
        (ids(&["a", "c"]), 4, 1, 50, 1)
    );
    assert_eq!(list(&query(None, None, None, Some("1200"))).0, ids(&["a", "b"]));
    assert_eq!(list(&query(None, None, None, Some("00"))).0, ids(&["a", "b", "c", "d"]));
    assert_eq!(
        list(&query(None, None, Some(TrainStatus::Running), Some("chennai"))).0,
        ids(&["c"])
    );
    assert_eq!(list(&query(None, None, Some(TrainStatus::Cancelled), None)).0, ids(&[]));
    // the page is cut before the search narrows it
    assert_eq!(list(&query(Some(1), Some(2), None, Some("goods"))).0, ids(&[]));
    assert_eq!(list(&query(Some(2), Some(2), None, Some("goods"))).0, ids(&["d"]));
    let empty = get_all_trains(&Vec::new(), &query(None, None, None, None), NOW);
    assert_eq!((empty.total_count, empty.total_pages), (0, 0));
}

#[test]
fn requests_build_the_trains_they_ask_for() {
    let created = create_train(CreateTrainRequest {
        train_number: 555,
        name: "New".to_string(),
        priority: TrainPriority::Mail,
        route: vec!["A".to_string(), "B".to_string()],
        current_section: Some("S5".to_string()),
        position: None,
    });
    assert_eq!(created.id.len(), 36);
    assert_eq!(created.train_number, 555);
    assert_eq!(created.current_section, "S5");
    assert_eq!(created.position, GeoPoint { latitude_e7: 0, longitude_e7: 0 });
    assert_eq!(created.status, TrainStatus::Scheduled);

    let mut existing = train("old", 1, "Old", "S1", 9, TrainStatus::Running);
    existing.direction = Direction::Down;
    let replaced = update_train(
        "the-id",
        UpdateTrainRequest {
            train_number: 2,
            name: "Renamed".to_string(),
            priority: TrainPriority::Freight,
            route: vec!["Z".to_string()],
            current_section: None,
            position: Some(GeoPoint { latitude_e7: 7, longitude_e7: 8 }),
            status: Some(TrainStatus::AtStation),
            direction: None,
        },
        existing,
        NOW,
    );
    assert_eq!(replaced.id, "the-id");
    assert_eq!(replaced.train_number, 2);
    assert_eq!(replaced.name, "Renamed");
    assert_eq!(replaced.priority, TrainPriority::Freight);
    assert_eq!(replaced.route, vec!["Z"]);
    assert_eq!(replaced.current_section, "S1");
    assert_eq!(replaced.position, GeoPoint { latitude_e7: 7, longitude_e7: 8 });
    assert_eq!(replaced.status, TrainStatus::AtStation);
    assert_eq!(replaced.direction, Direction::Down);
    assert_eq!(replaced.delay_minutes, 9);
    assert_eq!(replaced.speed_kmh, Milli { thousandths: 60_000 });
    assert_eq!(replaced.created_at, Timestamp { millis: 1 });
    assert_eq!(replaced.updated_at, NOW);

    let gone = delete_train("T7", NOW);
    assert!(gone.success);
    assert_eq!(gone.message, "Train T7 deleted successfully");
    assert_eq!(gone.timestamp, NOW);
}

#[test]
fn queries_default_to_a_day() {
    assert_eq!(AnalyticsQuery { hours: None, section_id: None }.hours_or_default(), 24);
    assert_eq!(AnalyticsQuery { hours: Some(6), section_id: None }.hours_or_default(), 6);
    assert_eq!(PerformanceHistoryQuery { hours: None }.hours_or_default(), 24);
    assert_eq!(PerformanceHistoryQuery { hours: Some(0) }.hours_or_default(), 0);
}

fn disruption(ended: bool) -> DisruptionEvent {
    let mut d = DisruptionEvent::opened(
        "d".to_string(),
        Timestamp { millis: 0 },
        DisruptionType::Weather,
        vec![],
        "x".to_string(),
        1,
    );
    if ended {
        d.end_time = Some(Timestamp { millis: 10 });
    }
    d
}

#[test]
fn key_figures_are_computed_from_the_fleet() {
    let service = TrainService::new();
    let trains = fleet();
    let statistics = service.calculate_train_statistics(&trains);
    let disruptions = vec![disruption(true), disruption(false), disruption(true)];
    let kpis = calculate_kpis(&statistics, &trains, &disruptions, 24, NOW);
    // two of four trains are at most five minutes late
    assert_eq!(kpis.punctuality_percent, Milli { thousandths: 50_000 });
    assert_eq!(kpis.average_delay_minutes, Milli { thousandths: 13_500 });
    // 4 / 24 = 0.1666...
    assert_eq!(kpis.throughput_trains_per_hour, Milli { thousandths: 166 });
    assert_eq!(kpis.utilization_percent, Milli { thousandths: 75_000 });
    assert_eq!(kpis.conflicts_resolved, 2);
    assert_eq!(kpis.total_trains_processed, 4);
    assert_eq!(kpis.period_hours, 24);
    assert_eq!(kpis.timestamp, NOW);
    let empty = TrainStatistics {
        total_active_trains: 0,
        delayed_trains: 0,
        on_time_trains: 0,
        average_delay_minutes: Milli { thousandths: 0 },
        priority_breakdown: PriorityBreakdown {
            emergency: 0,
            mail: 0,
            express: 0,
            passenger: 0,
            freight: 0,
            maintenance: 0,
        },
    };
    let kpis = calculate_kpis(&empty, &Vec::new(), &Vec::new(), 0, NOW);
    assert_eq!(kpis.punctuality_percent, Milli { thousandths: 100_000 });
    assert_eq!(kpis.throughput_trains_per_hour, Milli { thousandths: 0 });
    assert_eq!(kpis.conflicts_resolved, 0);

    let overview = calculate_system_overview(&trains, &disruptions, NOW);
    assert_eq!(overview.total_active_trains, 4);
    assert_eq!(overview.delayed_trains, 2);
    assert_eq!(overview.on_time_trains, 2);
    assert_eq!(overview.total_sections, 50);
    assert_eq!(overview.active_disruptions, 1);
    assert_eq!(overview.system_utilization, Milli { thousandths: 68_500 });
    assert_eq!(overview.average_speed_kmh, Milli { thousandths: 60_000 });
    assert_eq!(overview.last_updated, NOW);
    let sections = calculate_section_analytics();
    assert_eq!(sections.len(), 2);
    assert_eq!(sections[0].section_name, "Delhi-Gurgaon");
    assert_eq!(sections[1].conflicts, 5);
    assert_eq!(sections[1].average_delay, Milli { thousandths: 15_200 });
}

#[test]
fn failures_are_told_with_their_class() {
    let reply = optimization_failure(&ServiceError::Validation("no trains".to_string()));
    assert_eq!((reply.status, reply.error.as_str(), reply.details.as_str()), (400, "Validation failed", "no trains"));
    let reply = optimization_failure(&ServiceError::Optimization("solver died".to_string()));
    assert_eq!((reply.status, reply.error.as_str(), reply.details.as_str()), (500, "Optimization failed", "solver died"));
    let reply = optimization_failure(&ServiceError::Database("down".to_string()));
    assert_eq!(
        (reply.status, reply.error.as_str(), reply.details.as_str()),
        (500, "Internal server error", "Database error: down")
    );
    let reply = simulation_failure(&ServiceError::Validation("bad".to_string()));
    assert_eq!((reply.status, reply.error.as_str(), reply.details.as_str()), (400, "Validation failed", "bad"));
    let reply = simulation_failure(&ServiceError::Optimization("x".to_string()));
    assert_eq!(
        (reply.status, reply.error.as_str(), reply.details.as_str()),
        (500, "Simulation failed", "Optimization error: x")
    );
    let healthy = health_check(true).unwrap();
    assert_eq!(healthy.status, "healthy");
    assert!(healthy.optimizer_available);
    let unhealthy = health_check(false).unwrap_err();
    assert_eq!(unhealthy.status, "unhealthy");
    assert_eq!(unhealthy.message, "Optimization service is not available");
    assert_eq!(overall_health(&vec![]), "healthy");
    assert_eq!(overall_health(&vec![true, true]), "healthy");
    assert_eq!(overall_health(&vec![true, false, true]), "degraded");
}
