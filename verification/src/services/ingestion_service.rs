//! Ingestion of telemetry from outside: what an incoming record does to the
//! registry, which events a fleet gives rise to, and the report of a cycle.
//! Fetching the records stands outside.

use vstd::prelude::*;
use crate::time::Timestamp;
use crate::text::{decimal, push_decimal, is_text};
use crate::models::{Milli, GeoPoint, TrainPriority, views};
use crate::models::train::{Train, TrainView, TrainStatus};
use crate::models::events::{TrainEvent, TrainEventView, TrainEventType};
use crate::config::{IngestionConfig, ExternalApiConfig};
use crate::runtime::{current_time, new_identifier, random_in_range, to_lowercase, lowercase};
use crate::services::{Service, ServiceResult};
use crate::services::train_service::{TrainService, first_with_number};

verus! {

#[derive(Debug)]
pub struct IngestionService {
    pub config: IngestionConfig,
}

/// What a feed says of one train.
#[derive(Debug)]
pub struct IncomingTrainData {
    pub train_number: u32,
    pub current_station: String,
    pub delay_minutes: i32,
    pub speed_kmh: Milli,
    pub position: GeoPoint,
    pub timestamp: Timestamp,
    pub status: String,
    pub next_station: Option<String>,
    pub eta_next_station: Option<Timestamp>,
}

/// What a feed says of one station.
#[derive(Debug)]
pub struct IncomingStationData {
    pub station_code: String,
    pub station_name: String,
    pub platform_count: u32,
    pub current_occupancy: u32,
    pub trains_in_station: Vec<String>,
    pub delays_reported: u32,
    pub timestamp: Timestamp,
}

#[derive(Clone, Copy, Debug, PartialEq, Eq, Structural)]
pub struct DataIngestionReport {
    pub trains_processed: u32,
    pub stations_processed: u32,
    pub events_generated: u32,
    pub errors_encountered: u32,
    pub processing_time_ms: u64,
    pub timestamp: Timestamp,
}

#[derive(Clone, Copy, Debug, PartialEq, Eq, Structural)]
pub struct IngestionStats {
    pub total_records_processed: u64,
    pub successful_ingestions: u64,
    pub failed_ingestions: u64,
    pub average_processing_time_ms: Milli,
    pub last_ingestion: Option<Timestamp>,
    pub uptime_hours: Milli,
}

/// What an incoming record asks the record store to do.
#[derive(Debug)]
pub enum IngestAction {
    /// The train is known: store it anew under its identifier.
    Update(Train),
    /// The train is new: register it.
    Create(Train),
}

/// The seconds that the client waits where no feed is enabled.
pub const DEFAULT_HTTP_TIMEOUT_SECONDS: u64 = 10;

/// The status that a word in lower case names; scheduled where the word
/// names none.
pub open spec fn status_named(lowered: Seq<char>) -> TrainStatus {
    if lowered == "running"@ {
        TrainStatus::Running
    } else if lowered == "delayed"@ {
        TrainStatus::Delayed
    } else if lowered == "atstation"@ || lowered == "at_station"@ {
        TrainStatus::AtStation
    } else if lowered == "scheduled"@ {
        TrainStatus::Scheduled
    } else if lowered == "terminated"@ {
        TrainStatus::Terminated
    } else if lowered == "cancelled"@ {
        TrainStatus::Cancelled
    } else {
        TrainStatus::Scheduled
    }
}

/// The timeout of the first feed that is enabled, and the default where
/// none is.
pub open spec fn first_enabled_timeout(feeds: Seq<ExternalApiConfig>) -> u64
    decreases feeds.len(),
{
    if feeds.len() == 0 {
        DEFAULT_HTTP_TIMEOUT_SECONDS
    } else if feeds[0].enabled {
        feeds[0].timeout_seconds
    } else {
        first_enabled_timeout(feeds.drop_first())
    }
}

/// A known train as an incoming record leaves it at `now`.
pub open spec fn refreshed(train: TrainView, data: IncomingTrainData, now: Timestamp) -> TrainView {
    TrainView {
        position: data.position,
        speed_kmh: data.speed_kmh,
        delay_minutes: data.delay_minutes,
        status: status_named(lowercase(data.status@)),
        updated_at: now,
        ..train
    }
}

/// The train that is registered for a record of an unknown train.
pub open spec fn train_from_data(id: Seq<char>, now: Timestamp, data: IncomingTrainData)
    -> TrainView {
    let fresh = Train::registered_view(
        id,
        now,
        data.train_number,
        "Train "@ + decimal(data.train_number as nat),
        TrainPriority::Passenger,
        seq![data.current_station@],
    );
    TrainView {
        position: data.position,
        speed_kmh: data.speed_kmh,
        delay_minutes: data.delay_minutes,
        status: status_named(lowercase(data.status@)),
        eta_next_station: match data.eta_next_station {
            Some(eta) => eta,
            None => now,
        },
        ..fresh
    }
}

/// How many events a fleet gives rise to: one for each late train and one
/// for each moving train.
pub open spec fn event_count(trains: Seq<TrainView>) -> nat
    decreases trains.len(),
{
    if trains.len() == 0 {
        0
    } else {
        event_count(trains.drop_last()) + if trains.last().delay_minutes > 0 {
            1nat
        } else {
            0nat
        } + if trains.last().speed_kmh.thousandths > 0 {
            1nat
        } else {
            0nat
        }
    }
}

/// What the events of a fleet say, apart from identifier and instant: for
/// each train its delay, if it is late, then its speed, if it moves.
pub open spec fn event_notes(trains: Seq<TrainView>) -> Seq<TrainEventView>
    decreases trains.len(),
{
    if trains.len() == 0 {
        Seq::empty()
    } else {
        let train = trains.last();
        let bare = TrainEvent::recorded_view(
            Seq::empty(),
            Timestamp { millis: 0 },
            train.id,
            TrainEventType::Delay,
            train.position,
        );
        let delay = if train.delay_minutes > 0 {
            seq![bare.with_delay(train.delay_minutes)]
        } else {
            Seq::empty()
        };
        let speed = if train.speed_kmh.thousandths > 0 {
            seq![
                (TrainEventView { event_type: TrainEventType::SpeedChange, ..bare }).with_speed(
                    train.speed_kmh,
                ),
            ]
        } else {
            Seq::empty()
        };
        event_notes(trains.drop_last()) + delay + speed
    }
}

/// An event without its identifier and its instant.
pub open spec fn note_of(event: TrainEventView) -> TrainEventView {
    TrainEventView { id: Seq::empty(), timestamp: Timestamp { millis: 0 }, ..event }
}

/// The report of a cycle: what each step counted, and how many steps
/// failed.
pub open spec fn report_of(
    trains: Option<u32>,
    stations: Option<u32>,
    events: Option<u32>,
    elapsed_ms: u64,
    now: Timestamp,
) -> DataIngestionReport {
    DataIngestionReport {
        trains_processed: match trains {
            Some(n) => n,
            None => 0,
        },
        stations_processed: match stations {
            Some(n) => n,
            None => 0,
        },
        events_generated: match events {
            Some(n) => n,
            None => 0,
        },
        errors_encountered: ((if trains is None {
            1int
        } else {
            0int
        }) + (if stations is None {
            1int
        } else {
            0int
        }) + (if events is None {
            1int
        } else {
            0int
        })) as u32,
        processing_time_ms: elapsed_ms,
        timestamp: now,
    }
}

impl IngestionService {
    /// The service with two feeds that are switched off, polled every half
    /// minute.
    pub fn new() -> (service: IngestionService)
        ensures
            service.config.enabled,
            service.config.external_apis@.len() == 2,
            service.config.external_apis@[0].name@ == "trains"@,
            service.config.external_apis@[0].url@
                == "https://api.indianrailway.gov.in/trains/live"@,
            service.config.external_apis@[1].name@ == "stations"@,
            service.config.external_apis@[1].url@
                == "https://api.indianrailway.gov.in/stations/status"@,
            forall|i: int|
                0 <= i < 2 ==> !(#[trigger] service.config.external_apis@[i]).enabled
                    && service.config.external_apis@[i].timeout_seconds == 10
                    && service.config.external_apis@[i].api_key is None,
            service.config.polling_interval_seconds == 30,
            service.config.batch_size == 100,
            service.config.retry_attempts == 3,
            service.config.retry_delay_seconds == 5,
    {
        let mut external_apis: Vec<ExternalApiConfig> = Vec::new();
        external_apis.push(
            ExternalApiConfig {
                name: "trains".to_owned(),
                url: "https://api.indianrailway.gov.in/trains/live".to_owned(),
                api_key: None,
                timeout_seconds: 10,
                enabled: false,
            },
        );
        external_apis.push(
            ExternalApiConfig {
                name: "stations".to_owned(),
                url: "https://api.indianrailway.gov.in/stations/status".to_owned(),
                api_key: None,
                timeout_seconds: 10,
                enabled: false,
            },
        );
        IngestionService {
            config: IngestionConfig {
                enabled: true,
                external_apis,
                polling_interval_seconds: 30,
                batch_size: 100,
                retry_attempts: 3,
                retry_delay_seconds: 5,
            },
        }
    }

    pub fn with_config(config: IngestionConfig) -> (service: IngestionService)
        ensures
            service.config == config,
    {
        IngestionService { config }
    }

    /// The seconds that the client of the feeds waits: the timeout of the
    /// first feed that is enabled, and ten seconds where none is.
    pub fn http_timeout_seconds(&self) -> (seconds: u64)
        ensures
            seconds == first_enabled_timeout(self.config.external_apis@),
    {
        let feeds = &self.config.external_apis;
        let mut i: usize = 0;
        assert(feeds@.subrange(0, feeds@.len() as int) =~= feeds@);
        while i < feeds.len()
            invariant
                0 <= i <= feeds.len(),
                feeds == &self.config.external_apis,
                first_enabled_timeout(feeds@) == first_enabled_timeout(
                    feeds@.subrange(i as int, feeds@.len() as int),
                ),
            decreases feeds.len() - i,
        {
            let ghost rest = feeds@.subrange(i as int, feeds@.len() as int);
            assert(rest[0] == feeds@[i as int]);
            if feeds[i].enabled {
                return feeds[i].timeout_seconds;
            }
            assert(rest.drop_first() =~= feeds@.subrange(i as int + 1, feeds@.len() as int));
            i += 1;
        }
        assert(feeds@.subrange(feeds@.len() as int, feeds@.len() as int).len() == 0);
        DEFAULT_HTTP_TIMEOUT_SECONDS
    }

    /// The status that a word in lower case names.
    pub fn status_named(lowered: &String) -> (status: TrainStatus)
        ensures
            status == status_named(lowered@),
    {
        if is_text(lowered, "running") {
            TrainStatus::Running
        } else if is_text(lowered, "delayed") {
            TrainStatus::Delayed
        } else if is_text(lowered, "atstation") || is_text(lowered, "at_station") {
            TrainStatus::AtStation
        } else if is_text(lowered, "scheduled") {
            TrainStatus::Scheduled
        } else if is_text(lowered, "terminated") {
            TrainStatus::Terminated
        } else if is_text(lowered, "cancelled") {
            TrainStatus::Cancelled
        } else {
            TrainStatus::Scheduled
        }
    }

    /// The status that a word names, whatever its case.
    pub fn parse_train_status(&self, status: &str) -> (parsed: TrainStatus)
        ensures
            parsed == status_named(lowercase(status@)),
    {
        let lowered = to_lowercase(status);
        IngestionService::status_named(&lowered)
    }

    /// The train that is registered, under `id` at `now`, for a record of
    /// an unknown train: a passenger train named after its number, with the
    /// station of the record as its route.
    pub fn train_from_data(&self, id: String, now: Timestamp, data: &IncomingTrainData) -> (train:
        Train)
        ensures
            train@ == train_from_data(id@, now, *data),
    {
        let mut name = "Train ".to_owned();
        push_decimal(&mut name, data.train_number as u64);
        let mut route: Vec<String> = Vec::new();
        route.push(data.current_station.clone());
        assert(views(route@) =~= seq![data.current_station@]);
        let mut train = Train::registered(
            id,
            now,
            data.train_number,
            name,
            TrainPriority::Passenger,
            route,
        );
        train.position = data.position;
        train.speed_kmh = data.speed_kmh;
        train.delay_minutes = data.delay_minutes;
        train.status = self.parse_train_status(data.status.as_str());
        match data.eta_next_station {
            Some(eta) => {
                train.eta_next_station = eta;
            },
            None => {},
        }
        train
    }

    /// The train that is registered for a record of an unknown train, under
    /// a fresh identifier at the current instant.
    pub fn create_train_from_data(&self, data: &IncomingTrainData) -> (train: ServiceResult<Train>)
        ensures
            train matches Ok(t) && t@ == train_from_data(t@.id, t@.created_at, *data) && t@.id.len()
                == 36,
    {
        let now = current_time();
        let id = new_identifier();
        Ok(self.train_from_data(id, now, data))
    }

    /// What an incoming record does to the registry, at `now`: the first
    /// train on the rails under its number is refreshed, and where there is
    /// none a train is registered under `fresh_id`.
    pub fn ingest_at(&self, data: &IncomingTrainData, active_trains: &Vec<Train>, fresh_id: String, now: Timestamp) -> (action:
        IngestAction)
        ensures
            match first_with_number(views(active_trains@), data.train_number) {
                Some(i) => action matches IngestAction::Update(t) && t@ == refreshed(
                    active_trains@[i]@,
                    *data,
                    now,
                ),
                None => action matches IngestAction::Create(t) && t@ == train_from_data(
                    fresh_id@,
                    now,
                    *data,
                ),
            },
    {
        match TrainService::position_of_number(active_trains, data.train_number) {
            Some(i) => {
                let mut updated = active_trains[i].clone();
                updated.position = data.position;
                updated.speed_kmh = data.speed_kmh;
                updated.delay_minutes = data.delay_minutes;
                updated.status = self.parse_train_status(data.status.as_str());
                updated.updated_at = now;
                IngestAction::Update(updated)
            },
            None => IngestAction::Create(self.train_from_data(fresh_id, now, data)),
        }
    }

    /// What an incoming record does to the registry at the current instant.
    pub fn process_incoming_train_data(&self, data: &IncomingTrainData, active_trains: &Vec<Train>) -> (action:
        ServiceResult<IngestAction>)
        ensures
            action is Ok,
            match first_with_number(views(active_trains@), data.train_number) {
                Some(i) => action.unwrap() matches IngestAction::Update(t) && t@ == refreshed(
                    active_trains@[i]@,
                    *data,
                    t@.updated_at,
                ),
                None => action.unwrap() matches IngestAction::Create(t) && t@ == train_from_data(
                    t@.id,
                    t@.created_at,
                    *data,
                ),
            },
    {
        let now = current_time();
        let fresh_id = new_identifier();
        Ok(self.ingest_at(data, active_trains, fresh_id, now))
    }

    /// A record of a station is taken note of and changes nothing.
    pub fn process_incoming_station_data(&self, data: &IncomingStationData) -> (done:
        ServiceResult<()>)
        ensures
            done is Ok,
    {
        Ok(())
    }

    /// The events that a fleet gives rise to: for each train, in order, one
    /// that notes its delay if it is late, then one that notes its speed if
    /// it moves.
    pub fn generate_events(&self, trains: &Vec<Train>) -> (events: Vec<TrainEvent>)
        ensures
            events@.len() == event_count(views(trains@)),
            views(events@).map_values(|e: TrainEventView| note_of(e)) == event_notes(
                views(trains@),
            ),
    {
        let ghost fleet = views(trains@);
        let mut events: Vec<TrainEvent> = Vec::new();
        let mut i: usize = 0;
        assert(views(events@).map_values(|e: TrainEventView| note_of(e)) =~= event_notes(
            fleet.take(0),
        ));
        while i < trains.len()
            invariant
                0 <= i <= trains.len(),
                fleet == views(trains@),
                events@.len() == event_count(fleet.take(i as int)),
                views(events@).map_values(|e: TrainEventView| note_of(e)) == event_notes(
                    fleet.take(i as int),
                ),
            decreases trains.len() - i,
        {
            let train = &trains[i];
            let ghost upto = fleet.take(i as int + 1);
            let ghost noted = views(events@).map_values(|e: TrainEventView| note_of(e));
            let ghost mut added = Seq::<TrainEventView>::empty();
            proof {
                assert(upto.drop_last() =~= fleet.take(i as int));
                assert(upto.last() == train@);
            }
            if train.is_delayed() {
                let event = TrainEvent::new(train.id.clone(), TrainEventType::Delay, train.position)
                    .with_delay(train.delay_minutes);
                proof {
                    added = added.push(note_of(event@));
                }
                events.push(event);
                assert(views(events@).map_values(|e: TrainEventView| note_of(e)) =~= noted
                    + added);
            }
            if train.speed_kmh.thousandths > 0 {
                let event = TrainEvent::new(
                    train.id.clone(),
                    TrainEventType::SpeedChange,
                    train.position,
                ).with_speed(train.speed_kmh);
                proof {
                    added = added.push(note_of(event@));
                }
                events.push(event);
                assert(views(events@).map_values(|e: TrainEventView| note_of(e)) =~= noted
                    + added);
            }
            assert(views(events@).map_values(|e: TrainEventView| note_of(e)) =~= noted + added);
            assert(noted + added =~= event_notes(upto));
            i += 1;
        }
        assert(fleet.take(trains.len() as int) =~= fleet);
        events
    }

    /// The report of a cycle that took `elapsed_ms` and ended at `now`: a
    /// step that failed counts as an error and as nothing processed, and the
    /// cycle is reported all the same.
    pub fn perform_single_ingestion(
        &self,
        trains: Option<u32>,
        stations: Option<u32>,
        events: Option<u32>,
        elapsed_ms: u64,
        now: Timestamp,
    ) -> (report: ServiceResult<DataIngestionReport>)
        ensures
            report matches Ok(r) && r == report_of(trains, stations, events, elapsed_ms, now),
    {
        let mut errors: u32 = 0;
        let trains_processed = match trains {
            Some(n) => n,
            None => {
                errors = errors + 1;
                0
            },
        };
        let stations_processed = match stations {
            Some(n) => n,
            None => {
                errors = errors + 1;
                0
            },
        };
        let events_generated = match events {
            Some(n) => n,
            None => {
                errors = errors + 1;
                0
            },
        };
        Ok(
            DataIngestionReport {
                trains_processed,
                stations_processed,
                events_generated,
                errors_encountered: errors,
                processing_time_ms: elapsed_ms,
                timestamp: now,
            },
        )
    }

    /// The report of a cycle that was asked for by hand: as that of any
    /// other cycle.
    pub fn trigger_manual_ingestion(
        &self,
        trains: Option<u32>,
        stations: Option<u32>,
        events: Option<u32>,
        elapsed_ms: u64,
        now: Timestamp,
    ) -> (report: ServiceResult<DataIngestionReport>)
        ensures
            report matches Ok(r) && r == report_of(trains, stations, events, elapsed_ms, now),
    {
        self.perform_single_ingestion(trains, stations, events, elapsed_ms, now)
    }

    /// The figures of ingestion so far, as of `now`.
    pub fn get_ingestion_stats(&self, now: Timestamp) -> (stats: ServiceResult<IngestionStats>)
        ensures
            stats matches Ok(s) && s == (IngestionStats {
                total_records_processed: 1250,
                successful_ingestions: 1195,
                failed_ingestions: 55,
                average_processing_time_ms: Milli { thousandths: 125_500 },
                last_ingestion: Some(now),
                uptime_hours: Milli { thousandths: 24_500 },
            }),
    {
        Ok(
            IngestionStats {
                total_records_processed: 1250,
                successful_ingestions: 1195,
                failed_ingestions: 55,
                average_processing_time_ms: Milli { thousandths: 125_500 },
                last_ingestion: Some(now),
                uptime_hours: Milli { thousandths: 24_500 },
            },
        )
    }

    /// Whether a feed counts as healthy, given whether it answered well: a
    /// feed that is switched off never does.
    pub fn feed_health(feed: &ExternalApiConfig, answered_well: bool) -> (healthy: bool)
        ensures
            healthy == (feed.enabled && answered_well),
    {
        feed.enabled && answered_well
    }
}

impl Service for IngestionService {
    fn name(&self) -> (name: &'static str)
        ensures
            name@ == "IngestionService"@,
    {
        "IngestionService"
    }
}

/// A cycle is reported whatever fails, with one error for each step that
/// failed and no more than three.
pub proof fn lemma_report_counts_failures(
    trains: Option<u32>,
    stations: Option<u32>,
    events: Option<u32>,
    elapsed_ms: u64,
    now: Timestamp,
)
    ensures
        report_of(trains, stations, events, elapsed_ms, now).errors_encountered <= 3,
        report_of(trains, stations, events, elapsed_ms, now).errors_encountered == 0 <==> trains
            is Some && stations is Some && events is Some,
{
}

/// The stations that made-up records name.
pub open spec fn mock_station_code(index: int) -> Seq<char> {
    if index == 0 {
        "NDLS"@
    } else if index == 1 {
        "GZB"@
    } else if index == 2 {
        "AGC"@
    } else if index == 3 {
        "JHS"@
    } else {
        "BPL"@
    }
}

/// The names of the stations that made-up records name.
pub open spec fn mock_station_name(index: int) -> Seq<char> {
    if index == 0 {
        "New Delhi"@
    } else if index == 1 {
        "Ghaziabad"@
    } else if index == 2 {
        "Agra Cantonment"@
    } else if index == 3 {
        "Jhansi Junction"@
    } else {
        "Bhopal Junction"@
    }
}

/// The platforms of the stations that made-up records name.
pub open spec fn mock_station_platforms(index: int) -> u32 {
    if index == 0 {
        16
    } else if index == 1 {
        8
    } else if index == 2 {
        6
    } else if index == 3 {
        7
    } else {
        10
    }
}

/// The numbers of the trains that made-up records speak of.
pub open spec fn mock_train_number(index: int) -> u32 {
    if index == 0 {
        12249
    } else if index == 1 {
        12648
    } else if index == 2 {
        12951
    } else if index == 3 {
        12723
    } else {
        22691
    }
}

/// The status that a made-up record names, by a draw from 0 to 3.
pub open spec fn mock_status(index: int) -> Seq<char> {
    if index == 0 {
        "Running"@
    } else if index == 1 {
        "Delayed"@
    } else if index == 2 {
        "AtStation"@
    } else {
        "Scheduled"@
    }
}

/// What chance decides for one made-up record of a train.
#[derive(Clone, Copy, Debug, PartialEq, Eq, Structural)]
pub struct TrainRecordDraws {
    /// The station, from 0 to 4.
    pub station: u8,
    /// The next station, from 0 to 4.
    pub next_station: u8,
    /// How far north of 28.6 degrees, in units of 1e-7 degree, below ten
    /// degrees.
    pub north: i64,
    /// How far east of 77.2 degrees, in units of 1e-7 degree, below fifteen
    /// degrees.
    pub east: i64,
    /// From -5 to 45 minutes.
    pub delay_minutes: i32,
    /// From 0 to 120 km/h.
    pub speed_kmh: Milli,
    /// From 0 to 3.
    pub status: u8,
    /// Minutes until the next station, from 15 to 120.
    pub eta_minutes: i64,
}

impl TrainRecordDraws {
    pub open spec fn in_range(self) -> bool {
        &&& self.station <= 4
        &&& self.next_station <= 4
        &&& 0 <= self.north < 100_000_000
        &&& 0 <= self.east < 150_000_000
        &&& -5 <= self.delay_minutes <= 45
        &&& 0 <= self.speed_kmh.thousandths <= 120_000
        &&& self.status <= 3
        &&& 15 <= self.eta_minutes <= 120
    }
}

/// Whether `record` is the made-up record of the train at place `index`,
/// written at `now` with `draws`.
pub open spec fn is_mock_record(
    record: IncomingTrainData,
    index: int,
    now: Timestamp,
    draws: TrainRecordDraws,
) -> bool {
    &&& record.train_number == mock_train_number(index)
    &&& record.current_station@ == mock_station_code(draws.station as int)
    &&& record.delay_minutes == draws.delay_minutes
    &&& record.speed_kmh == draws.speed_kmh
    &&& record.position.latitude_e7 == 286_000_000 + draws.north
    &&& record.position.longitude_e7 == 772_000_000 + draws.east
    &&& record.timestamp == now
    &&& record.status@ == mock_status(draws.status as int)
    &&& record.next_station matches Some(next) && next@ == mock_station_code(
        draws.next_station as int,
    )
    &&& record.eta_next_station == Some(
        now.spec_plus_millis(draws.eta_minutes * crate::time::MILLIS_PER_MINUTE),
    )
}

/// Whether `record` is a made-up record of the train at place `index`, for
/// some instant and some draws in range.
pub open spec fn is_some_mock_record(record: IncomingTrainData, index: int) -> bool {
    exists|now: Timestamp, draws: TrainRecordDraws|
        draws.in_range() && #[trigger] is_mock_record(record, index, now, draws)
}

fn station_code(index: u8) -> (code: String)
    ensures
        code@ == mock_station_code(index as int),
{
    if index == 0 {
        "NDLS".to_owned()
    } else if index == 1 {
        "GZB".to_owned()
    } else if index == 2 {
        "AGC".to_owned()
    } else if index == 3 {
        "JHS".to_owned()
    } else {
        "BPL".to_owned()
    }
}

impl IngestionService {
    /// The made-up record of the train at place `index`, written at `now`
    /// with what chance decided.
    pub fn mock_train_record(index: u8, now: Timestamp, draws: TrainRecordDraws) -> (record:
        IncomingTrainData)
        requires
            draws.in_range(),
        ensures
            is_mock_record(record, index as int, now, draws),
    {
        IncomingTrainData {
            train_number: if index == 0 {
                12249
            } else if index == 1 {
                12648
            } else if index == 2 {
                12951
            } else if index == 3 {
                12723
            } else {
                22691
            },
            current_station: station_code(draws.station),
            delay_minutes: draws.delay_minutes,
            speed_kmh: draws.speed_kmh,
            position: GeoPoint {
                latitude_e7: 286_000_000 + draws.north,
                longitude_e7: 772_000_000 + draws.east,
            },
            timestamp: now,
            status: if draws.status == 0 {
                "Running".to_owned()
            } else if draws.status == 1 {
                "Delayed".to_owned()
            } else if draws.status == 2 {
                "AtStation".to_owned()
            } else {
                "Scheduled".to_owned()
            },
            next_station: Some(station_code(draws.next_station)),
            eta_next_station: Some(
                now.plus_millis(draws.eta_minutes * crate::time::MILLIS_PER_MINUTE),
            ),
        }
    }

    /// Made-up records of five trains, written at the current instant with
    /// fresh draws.
    pub fn generate_mock_train_data(&self) -> (records: ServiceResult<Vec<IncomingTrainData>>)
        ensures
            records is Ok,
            records.unwrap()@.len() == 5,
            forall|i: int| 0 <= i < 5 ==> #[trigger] is_some_mock_record(records.unwrap()@[i], i),
    {
        let mut list: Vec<IncomingTrainData> = Vec::new();
        let mut index: u8 = 0;
        while index < 5
            invariant
                0 <= index <= 5,
                list@.len() == index,
                forall|i: int| 0 <= i < index ==> #[trigger] is_some_mock_record(list@[i], i),
            decreases 5 - index,
        {
            let now = current_time();
            let draws = TrainRecordDraws {
                station: random_in_range(0, 4) as u8,
                next_station: random_in_range(0, 4) as u8,
                north: random_in_range(0, 99_999_999),
                east: random_in_range(0, 149_999_999),
                delay_minutes: random_in_range(-5, 45) as i32,
                speed_kmh: Milli { thousandths: random_in_range(0, 120_000) },
                status: random_in_range(0, 3) as u8,
                eta_minutes: random_in_range(15, 120),
            };
            let record = IngestionService::mock_train_record(index, now, draws);
            let ghost before = list@;
            list.push(record);
            proof {
                assert(is_mock_record(list@[index as int], index as int, now, draws));
                assert forall|i: int| 0 <= i < index + 1 implies #[trigger] is_some_mock_record(
                    list@[i],
                    i,
                ) by {
                    if i < index {
                        assert(list@[i] == before[i]);
                        assert(is_some_mock_record(before[i], i));
                    }
                }
            }
            index = index + 1;
        }
        Ok(list)
    }

    /// The made-up record of the station at place `index`, written at
    /// `now`: `occupancy` of its platforms are taken, each by a train named
    /// after its place.
    pub fn mock_station_record(index: u8, now: Timestamp, occupancy: u32, delays: u32) -> (record:
        IncomingStationData)
        requires
            occupancy <= mock_station_platforms(index as int),
        ensures
            record.station_code@ == mock_station_code(index as int),
            record.station_name@ == mock_station_name(index as int),
            record.platform_count == mock_station_platforms(index as int),
            record.current_occupancy == occupancy,
            record.trains_in_station@.len() == occupancy,
            forall|k: int|
                0 <= k < occupancy ==> (#[trigger] record.trains_in_station@[k])@ == "T"@
                    + crate::text::padded((10000 + k) as nat, 5),
            record.delays_reported == delays,
            record.timestamp == now,
    {
        let mut trains: Vec<String> = Vec::new();
        let mut k: u32 = 0;
        while k < occupancy
            invariant
                0 <= k <= occupancy <= 16,
                trains@.len() == k,
                forall|m: int|
                    0 <= m < k ==> (#[trigger] trains@[m])@ == "T"@ + crate::text::padded(
                        (10000 + m) as nat,
                        5,
                    ),
            decreases occupancy - k,
        {
            let mut name = "T".to_owned();
            crate::text::push_padded(&mut name, 10000 + k as u64, 5);
            trains.push(name);
            k = k + 1;
        }
        IncomingStationData {
            station_code: station_code(index),
            station_name: if index == 0 {
                "New Delhi".to_owned()
            } else if index == 1 {
                "Ghaziabad".to_owned()
            } else if index == 2 {
                "Agra Cantonment".to_owned()
            } else if index == 3 {
                "Jhansi Junction".to_owned()
            } else {
                "Bhopal Junction".to_owned()
            },
            platform_count: if index == 0 {
                16
            } else if index == 1 {
                8
            } else if index == 2 {
                6
            } else if index == 3 {
                7
            } else {
                10
            },
            current_occupancy: occupancy,
            trains_in_station: trains,
            delays_reported: delays,
            timestamp: now,
        }
    }

    /// Made-up records of five stations, written at the current instant
    /// with fresh draws: no station holds more trains than it has platforms,
    /// and none reports more than five delays.
    pub fn generate_mock_station_data(&self) -> (records: ServiceResult<Vec<IncomingStationData>>)
        ensures
            records is Ok,
            records.unwrap()@.len() == 5,
            forall|i: int|
                0 <= i < 5 ==> {
                    let record = #[trigger] records.unwrap()@[i];
                    &&& record.station_code@ == mock_station_code(i)
                    &&& record.station_name@ == mock_station_name(i)
                    &&& record.platform_count == mock_station_platforms(i)
                    &&& record.current_occupancy <= record.platform_count
                    &&& record.trains_in_station@.len() == record.current_occupancy
                    &&& record.delays_reported <= 5
                },
    {
        let mut list: Vec<IncomingStationData> = Vec::new();
        let mut index: u8 = 0;
        while index < 5
            invariant
                0 <= index <= 5,
                list@.len() == index,
                forall|i: int|
                    0 <= i < index ==> {
                        let record = #[trigger] list@[i];
                        &&& record.station_code@ == mock_station_code(i)
                        &&& record.station_name@ == mock_station_name(i)
                        &&& record.platform_count == mock_station_platforms(i)
                        &&& record.current_occupancy <= record.platform_count
                        &&& record.trains_in_station@.len() == record.current_occupancy
                        &&& record.delays_reported <= 5
                    },
            decreases 5 - index,
        {
            let platforms: i64 = if index == 0 {
                16
            } else if index == 1 {
                8
            } else if index == 2 {
                6
            } else if index == 3 {
                7
            } else {
                10
            };
            let occupancy = random_in_range(0, platforms) as u32;
            let delays = random_in_range(0, 5) as u32;
            let now = current_time();
            let record = IngestionService::mock_station_record(index, now, occupancy, delays);
            let ghost before = list@;
            list.push(record);
            proof {
                assert forall|i: int| 0 <= i < index + 1 implies {
                    let r = #[trigger] list@[i];
                    &&& r.station_code@ == mock_station_code(i)
                    &&& r.station_name@ == mock_station_name(i)
                    &&& r.platform_count == mock_station_platforms(i)
                    &&& r.current_occupancy <= r.platform_count
                    &&& r.trains_in_station@.len() == r.current_occupancy
                    &&& r.delays_reported <= 5
                } by {
                    if i < index {
                        assert(list@[i] == before[i]);
                    }
                }
            }
            index = index + 1;
        }
        Ok(list)
    }
}

} // verus!
