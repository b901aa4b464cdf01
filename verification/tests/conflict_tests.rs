use railway_backend::models::train::{Train, TrainConsist, TrainStatus};
use railway_backend::models::{Direction, GeoPoint, Milli, TrainPriority};
use railway_backend::services::conflict_detection::{ConflictDetectionService, MeasuredGap};
use railway_backend::services::train_service::{ConflictSeverity, ConflictType, TrainService};
use railway_backend::services::Service;
use railway_backend::time::Timestamp;

fn running(id: &str, section: &str, direction: Direction, speed_thousandths: i64) -> Train {
    Train {
        id: id.to_string(),
        train_number: 12000,
        name: format!("Train {}", id),
        priority: TrainPriority::Express,
        current_section: section.to_string(),
        position: GeoPoint { latitude_e7: 0, longitude_e7: 0 },
        delay_minutes: 0,
        eta_next_station: Timestamp { millis: 0 },
        speed_kmh: Milli { thousandths: speed_thousandths },
        direction,
        consist: TrainConsist::default(),
        status: TrainStatus::Running,
        route: vec!["A".to_string(), "B".to_string()],
        created_at: Timestamp { millis: 0 },
        updated_at: Timestamp { millis: 0 },
    }
}

fn haversine_m(lat1: f64, lon1: f64, lat2: f64, lon2: f64) -> f64 {
    let r = 6_371_000.0_f64;
    let p1 = lat1.to_radians();
    let p2 = lat2.to_radians();
    let dp = (lat2 - lat1).to_radians();
    let dl = (lon2 - lon1).to_radians();
    let a = (dp / 2.0).sin().powi(2) + p1.cos() * p2.cos() * (dl / 2.0).sin().powi(2);
    2.0 * r * a.sqrt().atan2((1.0 - a).sqrt())
}

#[test]
fn time_to_conflict_matches_a_reference_computation() {
    let pairs = [
        ((28.6139, 77.2090), (28.6500, 77.2300), 80.0, 60.0),
        ((19.0760, 72.8777), (19.0760, 72.9000), 100.0, 100.0),
        ((13.0827, 80.2707), (13.1000, 80.2707), 45.5, 30.25),
        ((22.5726, 88.3639), (22.5730, 88.3645), 5.0, 7.5),
    ];
    let now = Timestamp { millis: 1_000 };
    for ((lat1, lon1), (lat2, lon2), va, vb) in pairs {
        let distance_m = haversine_m(lat1, lon1, lat2, lon2);
        let reference_s = distance_m / ((va + vb) / 3.6);
        assert!(reference_s < 300.0);
        let a = running("A", "S1", Direction::Up, (va * 1000.0_f64).round() as i64);
        let b = running("B", "S1", Direction::Down, (vb * 1000.0_f64).round() as i64);
        let distance_mm = (distance_m * 1000.0).round() as u64;
        let conflict = TrainService::assess_conflict(&a, &b, distance_mm, now).unwrap();
        let seconds = conflict.estimated_time_to_conflict as f64 / 1_000_000.0;
        assert!((seconds - reference_s).abs() < 1e-3, "{} vs {}", seconds, reference_s);
        assert_eq!(conflict.distance_meters, distance_mm);
        assert_eq!(
            conflict.relative_speed_kmh.thousandths,
            ((va + vb) * 1000.0_f64).round() as i64
        );
    }
}

#[test]
fn exact_time_for_a_simple_case() {
    // 1000 m closed at 36 km/h + 36 km/h = 20 m/s takes 50 s.
    let a = running("A", "S", Direction::Up, 36_000);
    let b = running("B", "S", Direction::Down, 36_000);
    let c = TrainService::assess_conflict(&a, &b, 1_000_000, Timestamp { millis: 7 }).unwrap();
    assert_eq!(c.estimated_time_to_conflict, 50_000_000);
    assert_eq!(c.severity, ConflictSeverity::Critical);
    assert_eq!(c.conflict_type, ConflictType::HeadOn);
    assert_eq!(c.id, "A-B");
    assert_eq!(c.train_a_id, "A");
    assert_eq!(c.train_b_id, "B");
    assert_eq!(c.section_id, "S");
    assert_eq!(c.relative_speed_kmh, Milli { thousandths: 72_000 });
    assert_eq!(c.detected_at, Timestamp { millis: 7 });
}

#[test]
fn trains_at_the_same_spot_are_in_critical_conflict() {
    for (va, vb) in [(1, 1), (1_000, 250_000), (120_000, 3), (i64::MAX, i64::MAX)] {
        let a = running("A", "S", Direction::Down, va);
        let b = running("B", "S", Direction::Up, vb);
        let c = TrainService::assess_conflict(&a, &b, 0, Timestamp { millis: 0 }).unwrap();
        assert_eq!(c.estimated_time_to_conflict, 0);
        assert_eq!(c.severity, ConflictSeverity::Critical);
    }
}

#[test]
fn the_horizon_of_three_hundred_seconds_is_exclusive() {
    // Closing at 36 km/h = 10 m/s: 1 mm is a ten-thousandth of a second.
    let a = running("A", "S", Direction::Up, 18_000);
    let b = running("B", "S", Direction::Down, 18_000);
    let now = Timestamp { millis: 0 };
    // 300.0001 s
    assert!(TrainService::assess_conflict(&a, &b, 3_000_001, now).is_none());
    // exactly 300 s
    assert!(TrainService::assess_conflict(&a, &b, 3_000_000, now).is_none());
    // 299.9999 s
    let c = TrainService::assess_conflict(&a, &b, 2_999_999, now).unwrap();
    assert_eq!(c.estimated_time_to_conflict, 299_999_900);
    assert_eq!(c.severity, ConflictSeverity::Medium);
}

#[test]
fn severity_follows_the_time_left() {
    let a = running("A", "S", Direction::Up, 18_000);
    let b = running("B", "S", Direction::Down, 18_000);
    let now = Timestamp { millis: 0 };
    let severity =
        |mm: u64| TrainService::assess_conflict(&a, &b, mm, now).map(|c| c.severity);
    assert_eq!(severity(599_999), Some(ConflictSeverity::Critical));
    assert_eq!(severity(600_000), Some(ConflictSeverity::High));
    assert_eq!(severity(1_799_999), Some(ConflictSeverity::High));
    assert_eq!(severity(1_800_000), Some(ConflictSeverity::Medium));
    assert_eq!(severity(2_999_999), Some(ConflictSeverity::Medium));
    assert_eq!(severity(3_000_000), None);
}

#[test]
fn no_conflict_without_opposite_moving_trains_in_one_section() {
    let now = Timestamp { millis: 0 };
    let up = running("A", "S", Direction::Up, 50_000);
    assert!(
        TrainService::assess_conflict(&up, &running("B", "S", Direction::Up, 50_000), 10, now)
            .is_none()
    );
    assert!(
        TrainService::assess_conflict(&up, &running("B", "T", Direction::Down, 50_000), 10, now)
            .is_none()
    );
    assert!(
        TrainService::assess_conflict(&up, &running("B", "S", Direction::Down, 0), 10, now)
            .is_none()
    );
    assert!(TrainService::assess_conflict(
        &running("A", "S", Direction::Up, 0),
        &running("B", "S", Direction::Down, 50_000),
        10,
        now
    )
    .is_none());
}

#[test]
fn candidates_are_the_pairs_that_run_toward_each_other() {
    let service = TrainService::new();
    let trains = vec![
        running("T0", "S1", Direction::Up, 60_000),
        running("T1", "S1", Direction::Down, 60_000),
        running("T2", "S2", Direction::Down, 60_000),
        running("T3", "S1", Direction::Down, 10_000),
        running("T4", "S1", Direction::Up, 0),
        running("T5", "S2", Direction::Up, 1),
    ];
    assert_eq!(service.conflict_candidates(&trains), vec![(0, 1), (0, 3), (2, 5)]);
    assert_eq!(service.conflict_candidates(&Vec::new()), Vec::<(usize, usize)>::new());
    assert_eq!(service.conflict_candidates(&trains[..1].to_vec()), Vec::<(usize, usize)>::new());
}

#[test]
fn detection_reports_the_pairs_within_the_horizon_in_order() {
    let service = TrainService::new();
    let trains = vec![
        running("T0", "S1", Direction::Up, 18_000),
        running("T1", "S1", Direction::Down, 18_000),
        running("T2", "S2", Direction::Down, 36_000),
        running("T3", "S1", Direction::Down, 18_000),
        running("T5", "S2", Direction::Up, 36_000),
    ];
    let pairs = service.conflict_candidates(&trains);
    assert_eq!(pairs, vec![(0, 1), (0, 3), (2, 4)]);
    let distances = [5_000_000u64, 100_000, 2_000_000];
    let gaps: Vec<MeasuredGap> = pairs
        .iter()
        .zip(distances.iter())
        .map(|(p, d)| MeasuredGap { first: p.0, second: p.1, distance_mm: *d })
        .collect();
    let now = Timestamp { millis: 99 };
    let conflicts = service.conflicts_at(&trains, &gaps, now);
    assert_eq!(conflicts.len(), 2);
    assert_eq!(conflicts[0].id, "T0-T3");
    assert_eq!(conflicts[0].severity, ConflictSeverity::Critical);
    assert_eq!(conflicts[0].estimated_time_to_conflict, 10_000_000);
    assert_eq!(conflicts[1].id, "T2-T5");
    assert_eq!(conflicts[1].section_id, "S2");
    assert_eq!(conflicts[1].severity, ConflictSeverity::High);
    assert_eq!(conflicts[1].estimated_time_to_conflict, 100_000_000);
    let checked = service.measured_conflicts(&trains, &gaps, now).unwrap();
    assert_eq!(checked.len(), 2);
    assert_eq!(checked[1].id, "T2-T5");
    // measurements of other pairs, or too few, are turned away
    let mut swapped = gaps.clone();
    swapped.swap(0, 1);
    assert!(service.measured_conflicts(&trains, &swapped, now).is_none());
    assert!(service.measured_conflicts(&trains, &gaps[..2].to_vec(), now).is_none());
    assert!(service.measured_conflicts(&Vec::new(), &Vec::new(), now).unwrap().is_empty());
    let live = service.detect_train_conflicts(&trains, &gaps);
    assert_eq!(live.len(), 2);
    assert_eq!(live[0].id, "T0-T3");
    assert!(live[0].detected_at.millis > 1_500_000_000_000);
}

#[test]
fn detection_by_section_is_empty() {
    let service = ConflictDetectionService::new();
    assert!(service.detect_conflicts("S1").unwrap().is_empty());
    assert_eq!(service.name(), "ConflictDetectionService");
}

#[test]
fn severity_names_read_as_written() {
    assert_eq!(ConflictSeverity::Critical.name(), "Critical");
    assert_eq!(ConflictSeverity::High.name(), "High");
    assert_eq!(ConflictSeverity::Medium.name(), "Medium");
    assert_eq!(ConflictSeverity::Low.name(), "Low");
}
