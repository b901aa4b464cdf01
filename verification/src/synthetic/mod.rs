//! The rules by which synthetic fleets, sections and disruptions are made
//! up for trials. The drawing itself stands outside.

use vstd::prelude::*;
use crate::time::{Timestamp, MILLIS_PER_MINUTE};
use crate::text::{decimal, signed_decimal, push_decimal, push_signed_decimal};
use crate::models::{Milli, GeoPoint, EventType, Event, RailwaySection, views};
use crate::models::train::{Train, TrainView};
use crate::models::events::{EventSeverity, DisruptionEvent, text_of};
use crate::runtime::{random_in_range, current_time, new_identifier, to_json_string, json_string};
use crate::services::ordering::{order_by_key, well_ordered, listed_before, widened, places,
    lemma_stable_order};

pub mod train_generator;
pub mod section_generator;
pub mod disruption_generator;

verus! {

/// The generators of a synthetic data set.
#[derive(Debug)]
pub struct SyntheticDataGenerator {
    pub train_generator: train_generator::TrainGenerator,
    pub section_generator: section_generator::SectionGenerator,
    pub disruption_generator: disruption_generator::DisruptionGenerator,
}

#[derive(Clone, Copy, Debug, PartialEq, Eq, Structural)]
pub struct SyntheticDataConfig {
    pub train_count: usize,
    pub section_count: usize,
    /// The share of sections that are disrupted, from 0 to 1.
    pub disruption_probability: Milli,
    pub time_horizon_hours: u32,
    pub delay_variance_minutes: i32,
    pub seed: Option<u64>,
}

#[derive(Debug)]
pub struct TestScenario {
    pub name: String,
    pub description: String,
    pub config: SyntheticDataConfig,
}

impl SyntheticDataConfig {
    /// Fifty trains on twenty sections over a day, 15 percent of the
    /// sections disrupted.
    pub open spec fn standard() -> SyntheticDataConfig {
        SyntheticDataConfig {
            train_count: 50,
            section_count: 20,
            disruption_probability: Milli { thousandths: 150 },
            time_horizon_hours: 24,
            delay_variance_minutes: 30,
            seed: None,
        }
    }

    /// The standard configuration with another load.
    pub open spec fn loaded(trains: usize, sections: usize, disrupted: int, variance: i32)
        -> SyntheticDataConfig {
        SyntheticDataConfig {
            train_count: trains,
            section_count: sections,
            disruption_probability: Milli { thousandths: disrupted as i64 },
            delay_variance_minutes: variance,
            ..SyntheticDataConfig::standard()
        }
    }
}

impl Default for SyntheticDataConfig {
    fn default() -> (config: Self)
        ensures
            config == SyntheticDataConfig::standard(),
    {
        SyntheticDataConfig {
            train_count: 50,
            section_count: 20,
            disruption_probability: Milli { thousandths: 150 },
            time_horizon_hours: 24,
            delay_variance_minutes: 30,
            seed: None,
        }
    }
}

/// The kind of the `index`-th event of a train: departure, arrival, delay
/// report and status update in turn.
pub open spec fn event_type_at(index: nat) -> EventType {
    if index % 4 == 0 {
        EventType::TrainDeparture
    } else if index % 4 == 1 {
        EventType::TrainArrival
    } else if index % 4 == 2 {
        EventType::DelayReported
    } else {
        EventType::StatusUpdate
    }
}

/// How grave an event of a train is: only a delay report can be graver
/// than low, high above 15 minutes of delay and medium above 5.
pub open spec fn train_event_severity(event_type: EventType, delay_minutes: int) -> EventSeverity {
    if event_type == EventType::DelayReported {
        if delay_minutes > 15 {
            EventSeverity::High
        } else if delay_minutes > 5 {
            EventSeverity::Medium
        } else {
            EventSeverity::Low
        }
    } else {
        EventSeverity::Low
    }
}

/// How grave the event of a disruption is, by its impact from 1 to 10.
pub open spec fn disruption_event_severity(impact_level: u8) -> EventSeverity {
    if 1 <= impact_level <= 3 {
        EventSeverity::Low
    } else if 4 <= impact_level <= 6 {
        EventSeverity::Medium
    } else if 7 <= impact_level <= 8 {
        EventSeverity::High
    } else {
        EventSeverity::Critical
    }
}

impl SyntheticDataGenerator {
    pub fn new() -> (generator: SyntheticDataGenerator) {
        SyntheticDataGenerator {
            train_generator: train_generator::TrainGenerator::new(),
            section_generator: section_generator::SectionGenerator::new(),
            disruption_generator: disruption_generator::DisruptionGenerator::new(),
        }
    }

    /// The kind of the `index`-th event of a train.
    pub fn event_type_at(index: u32) -> (event_type: EventType)
        ensures
            event_type == event_type_at(index as nat),
    {
        match index % 4 {
            0 => EventType::TrainDeparture,
            1 => EventType::TrainArrival,
            2 => EventType::DelayReported,
            _ => EventType::StatusUpdate,
        }
    }

    /// How grave an event of a train is.
    pub fn train_event_severity(event_type: EventType, delay_minutes: i32) -> (severity:
        EventSeverity)
        ensures
            severity == train_event_severity(event_type, delay_minutes as int),
    {
        match event_type {
            EventType::DelayReported => {
                if delay_minutes > 15 {
                    EventSeverity::High
                } else if delay_minutes > 5 {
                    EventSeverity::Medium
                } else {
                    EventSeverity::Low
                }
            },
            _ => EventSeverity::Low,
        }
    }

    /// How grave the event of a disruption is.
    pub fn disruption_event_severity(impact_level: u8) -> (severity: EventSeverity)
        ensures
            severity == disruption_event_severity(impact_level),
    {
        if 1 <= impact_level && impact_level <= 3 {
            EventSeverity::Low
        } else if 4 <= impact_level && impact_level <= 6 {
            EventSeverity::Medium
        } else if 7 <= impact_level && impact_level <= 8 {
            EventSeverity::High
        } else {
            EventSeverity::Critical
        }
    }

    /// The scenarios that trials are run on: normal operations, high
    /// traffic, an emergency and a maintenance window.
    pub fn generate_test_scenarios(&self) -> (scenarios: Vec<TestScenario>)
        ensures
            scenarios@.len() == 4,
            scenarios@[0].name@ == "Normal Operations"@,
            scenarios@[0].config == SyntheticDataConfig::loaded(30, 15, 50, 10),
            scenarios@[1].name@ == "High Traffic"@,
            scenarios@[1].config == SyntheticDataConfig::loaded(80, 25, 200, 20),
            scenarios@[2].name@ == "Emergency Situation"@,
            scenarios@[2].config == SyntheticDataConfig::loaded(40, 20, 400, 45),
            scenarios@[3].name@ == "Maintenance Window"@,
            scenarios@[3].config == SyntheticDataConfig::loaded(25, 12, 300, 25),
    {
        let mut scenarios: Vec<TestScenario> = Vec::new();
        scenarios.push(
            TestScenario {
                name: "Normal Operations".to_owned(),
                description: "Standard railway operations with minimal delays".to_owned(),
                config: SyntheticDataConfig {
                    train_count: 30,
                    section_count: 15,
                    disruption_probability: Milli { thousandths: 50 },
                    time_horizon_hours: 24,
                    delay_variance_minutes: 10,
                    seed: None,
                },
            },
        );
        scenarios.push(
            TestScenario {
                name: "High Traffic".to_owned(),
                description: "Peak hour traffic with increased congestion".to_owned(),
                config: SyntheticDataConfig {
                    train_count: 80,
                    section_count: 25,
                    disruption_probability: Milli { thousandths: 200 },
                    time_horizon_hours: 24,
                    delay_variance_minutes: 20,
                    seed: None,
                },
            },
        );
        scenarios.push(
            TestScenario {
                name: "Emergency Situation".to_owned(),
                description: "Emergency with multiple disruptions and delays".to_owned(),
                config: SyntheticDataConfig {
                    train_count: 40,
                    section_count: 20,
                    disruption_probability: Milli { thousandths: 400 },
                    time_horizon_hours: 24,
                    delay_variance_minutes: 45,
                    seed: None,
                },
            },
        );
        scenarios.push(
            TestScenario {
                name: "Maintenance Window".to_owned(),
                description: "Scheduled maintenance affecting multiple sections".to_owned(),
                config: SyntheticDataConfig {
                    train_count: 25,
                    section_count: 12,
                    disruption_probability: Milli { thousandths: 300 },
                    time_horizon_hours: 24,
                    delay_variance_minutes: 25,
                    seed: None,
                },
            },
        );
        scenarios
    }
}

/// The stations that made-up sections are named after.
pub open spec fn station_name_at(index: int) -> Seq<char> {
    if index == 0 {
        "New Delhi"@
    } else if index == 1 {
        "Mumbai Central"@
    } else if index == 2 {
        "Chennai Central"@
    } else if index == 3 {
        "Kolkata"@
    } else if index == 4 {
        "Bangalore"@
    } else if index == 5 {
        "Hyderabad"@
    } else if index == 6 {
        "Pune"@
    } else if index == 7 {
        "Ahmedabad"@
    } else if index == 8 {
        "Jaipur"@
    } else if index == 9 {
        "Lucknow"@
    } else if index == 10 {
        "Kanpur"@
    } else if index == 11 {
        "Nagpur"@
    } else if index == 12 {
        "Indore"@
    } else if index == 13 {
        "Bhopal"@
    } else if index == 14 {
        "Coimbatore"@
    } else if index == 15 {
        "Madurai"@
    } else if index == 16 {
        "Kochi"@
    } else if index == 17 {
        "Thiruvananthapuram"@
    } else if index == 18 {
        "Vijayawada"@
    } else if index == 19 {
        "Warangal"@
    } else if index == 20 {
        "Vizag"@
    } else if index == 21 {
        "Guwahati"@
    } else if index == 22 {
        "Patna"@
    } else if index == 23 {
        "Ranchi"@
    } else {
        "Bhubaneswar"@
    }
}

/// The first words of made-up train names.
pub open spec fn name_prefix_at(index: int) -> Seq<char> {
    if index == 0 {
        "Rajdhani"@
    } else if index == 1 {
        "Shatabdi"@
    } else if index == 2 {
        "Duronto"@
    } else if index == 3 {
        "Garib Rath"@
    } else if index == 4 {
        "Jan Shatabdi"@
    } else if index == 5 {
        "Intercity"@
    } else if index == 6 {
        "Express"@
    } else if index == 7 {
        "Passenger"@
    } else if index == 8 {
        "Mail"@
    } else {
        "Special"@
    }
}

/// The last words of made-up train names.
pub open spec fn name_suffix_at(index: int) -> Seq<char> {
    if index == 0 {
        "Express"@
    } else if index == 1 {
        "SF Express"@
    } else if index == 2 {
        "Mail"@
    } else if index == 3 {
        "Passenger"@
    } else if index == 4 {
        "Local"@
    } else if index == 5 {
        "Fast"@
    } else if index == 6 {
        "Super Fast"@
    } else if index == 7 {
        "AC Express"@
    } else {
        "Jan Sadharan"@
    }
}

/// "PREFIX SUFFIX"
pub open spec fn train_name_of(prefix: int, suffix: int) -> Seq<char> {
    name_prefix_at(prefix) + " "@ + name_suffix_at(suffix)
}

/// Whether a point lies in the box that is taken for India: from 8 to 37
/// degrees north and from 68 to 97 degrees east.
pub open spec fn in_india(point: GeoPoint) -> bool {
    80_000_000 <= point.latitude_e7 <= 370_000_000 && 680_000_000 <= point.longitude_e7
        <= 970_000_000
}

/// The name of the station at place `index` of the list of stations.
pub fn station_name(index: u8) -> (name: String)
    ensures
        name@ == station_name_at(index as int),
{
    let word: &str = if index == 0 {
        "New Delhi"
    } else if index == 1 {
        "Mumbai Central"
    } else if index == 2 {
        "Chennai Central"
    } else if index == 3 {
        "Kolkata"
    } else if index == 4 {
        "Bangalore"
    } else if index == 5 {
        "Hyderabad"
    } else if index == 6 {
        "Pune"
    } else if index == 7 {
        "Ahmedabad"
    } else if index == 8 {
        "Jaipur"
    } else if index == 9 {
        "Lucknow"
    } else if index == 10 {
        "Kanpur"
    } else if index == 11 {
        "Nagpur"
    } else if index == 12 {
        "Indore"
    } else if index == 13 {
        "Bhopal"
    } else if index == 14 {
        "Coimbatore"
    } else if index == 15 {
        "Madurai"
    } else if index == 16 {
        "Kochi"
    } else if index == 17 {
        "Thiruvananthapuram"
    } else if index == 18 {
        "Vijayawada"
    } else if index == 19 {
        "Warangal"
    } else if index == 20 {
        "Vizag"
    } else if index == 21 {
        "Guwahati"
    } else if index == 22 {
        "Patna"
    } else if index == 23 {
        "Ranchi"
    } else {
        "Bhubaneswar"
    };
    word.to_owned()
}

/// The train name made of the prefix and the suffix at the given places.
pub fn train_name(prefix: u8, suffix: u8) -> (name: String)
    ensures
        name@ == train_name_of(prefix as int, suffix as int),
{
    let first: &str = if prefix == 0 {
        "Rajdhani"
    } else if prefix == 1 {
        "Shatabdi"
    } else if prefix == 2 {
        "Duronto"
    } else if prefix == 3 {
        "Garib Rath"
    } else if prefix == 4 {
        "Jan Shatabdi"
    } else if prefix == 5 {
        "Intercity"
    } else if prefix == 6 {
        "Express"
    } else if prefix == 7 {
        "Passenger"
    } else if prefix == 8 {
        "Mail"
    } else {
        "Special"
    };
    let last: &str = if suffix == 0 {
        "Express"
    } else if suffix == 1 {
        "SF Express"
    } else if suffix == 2 {
        "Mail"
    } else if suffix == 3 {
        "Passenger"
    } else if suffix == 4 {
        "Local"
    } else if suffix == 5 {
        "Fast"
    } else if suffix == 6 {
        "Super Fast"
    } else if suffix == 7 {
        "AC Express"
    } else {
        "Jan Sadharan"
    };
    let mut name = first.to_owned();
    name.append(" ");
    name.append(last);
    name
}

/// The name of one of the twenty-five stations, drawn at random.
pub fn random_indian_station_name() -> (name: String)
    ensures
        exists|index: int| 0 <= index <= 24 && name@ == #[trigger] station_name_at(index),
{
    let index = random_in_range(0, 24) as u8;
    let name = station_name(index);
    assert(name@ == station_name_at(index as int));
    name
}

/// A train name made of one of ten prefixes and one of nine suffixes,
/// drawn at random.
pub fn random_train_name(train_number: u32) -> (name: String)
    ensures
        exists|prefix: int, suffix: int|
            0 <= prefix <= 9 && 0 <= suffix <= 8 && name@ == #[trigger] train_name_of(
                prefix,
                suffix,
            ),
{
    let prefix = random_in_range(0, 9) as u8;
    let suffix = random_in_range(0, 8) as u8;
    let name = train_name(prefix, suffix);
    assert(name@ == train_name_of(prefix as int, suffix as int));
    name
}

/// A point in India, drawn at random.
pub fn random_coordinates_india() -> (point: GeoPoint)
    ensures
        in_india(point),
{
    GeoPoint {
        latitude_e7: random_in_range(80_000_000, 370_000_000),
        longitude_e7: random_in_range(680_000_000, 970_000_000),
    }
}

/// The most hours that events can be spread over.
pub const LONGEST_HORIZON_HOURS: u32 = 71_582_788;

/// A made-up data set.
#[derive(Debug)]
pub struct SyntheticDataSet {
    pub trains: Vec<Train>,
    pub sections: Vec<RailwaySection>,
    pub events: Vec<Event>,
    pub disruptions: Vec<DisruptionEvent>,
    pub generated_at: Timestamp,
    pub config: SyntheticDataConfig,
}

/// The JSON document that an event of a train carries.
pub open spec fn train_metadata(train: TrainView) -> Seq<char> {
    "{\"delay_minutes\":"@ + signed_decimal(train.delay_minutes as int) + ",\"train_name\":"@
        + json_string(train.name) + ",\"train_number\":"@ + decimal(train.train_number as nat)
        + "}"@
}

/// The texts as JSON strings with commas between them.
pub open spec fn json_items(texts: Seq<Seq<char>>) -> Seq<char>
    decreases texts.len(),
{
    if texts.len() == 0 {
        Seq::empty()
    } else if texts.len() == 1 {
        json_string(texts[0])
    } else {
        json_items(texts.drop_last()) + ","@ + json_string(texts.last())
    }
}

/// The JSON document that the event of a disruption carries.
pub open spec fn disruption_metadata(disruption: DisruptionEvent) -> Seq<char> {
    "{\"affected_sections\":["@ + json_items(views(disruption.affected_sections@)) + "]"@
        + ",\"affected_train_count\":"@ + decimal(disruption.affected_trains@.len())
        + ",\"disruption_type\":\""@ + disruption.disruption_type.spec_name()
        + "\",\"impact_level\":"@ + decimal(disruption.impact_level as nat) + "}"@
}

/// Whether `event` is the `index`-th event of `train`, at the instant `at`.
pub open spec fn is_train_event(event: Event, train: TrainView, index: nat, at: Timestamp)
    -> bool {
    &&& event.event_type == event_type_at(index)
    &&& event.timestamp == at
    &&& text_of(event.train_id) == Some(train.id)
    &&& text_of(event.section_id) == Some(train.current_section)
    &&& event.description@ == "Train "@ + decimal(train.train_number as nat) + " - "@
        + event_type_at(index).spec_name()
    &&& event.severity == train_event_severity(event_type_at(index), train.delay_minutes as int)
    &&& !event.acknowledged
    &&& event.metadata@ == train_metadata(train)
    &&& event.created_at == at
    &&& event.updated_at == at
}

/// Whether `event` is the event of `disruption`.
pub open spec fn is_disruption_event(event: Event, disruption: DisruptionEvent) -> bool {
    &&& event.event_type == EventType::ConflictDetected
    &&& event.timestamp == disruption.start_time
    &&& text_of(event.train_id) == if disruption.affected_trains@.len() > 0 {
        Some(disruption.affected_trains@[0]@)
    } else {
        None
    }
    &&& text_of(event.section_id) == if disruption.affected_sections@.len() > 0 {
        Some(disruption.affected_sections@[0]@)
    } else {
        None
    }
    &&& event.description@ == "Disruption: "@ + disruption.description@
    &&& event.severity == disruption_event_severity(disruption.impact_level)
    &&& !event.acknowledged
    &&& event.metadata@ == disruption_metadata(disruption)
    &&& event.created_at == disruption.start_time
    &&& event.updated_at == disruption.start_time
}

/// Whether `event` is an event of one of the trains or of one of the
/// disruptions, under an identifier of 36 characters.
pub open spec fn is_made_up_event(event: Event, trains: Seq<Train>, disruptions: Seq<DisruptionEvent>)
    -> bool {
    event.id@.len() == 36 && is_event_of_some(event, trains, disruptions)
}

/// Whether `event` is an event of one of the trains or of one of the
/// disruptions.
pub open spec fn is_event_of_some(event: Event, trains: Seq<Train>, disruptions: Seq<DisruptionEvent>)
    -> bool {
    ||| exists|t: int, index: nat|
        0 <= t < trains.len() && index < 6 && #[trigger] is_train_event(
            event,
            trains[t]@,
            index,
            event.timestamp,
        )
    ||| exists|d: int| 0 <= d < disruptions.len() && #[trigger] is_disruption_event(
        event,
        disruptions[d],
    )
}

/// Whether a list of events is in the order of time.
pub open spec fn in_time_order(events: Seq<Event>) -> bool {
    forall|a: int, b: int|
        0 <= a < b < events.len() ==> (#[trigger] events[a]).timestamp.millis <= (
        #[trigger] events[b]).timestamp.millis
}

fn push_json(out: &mut String, text: &str)
    ensures
        final(out)@ == old(out)@ + json_string(text@),
{
    match to_json_string(text) {
        Some(written) => {
            out.append(written.as_str());
        },
        None => {},
    }
}

impl SyntheticDataGenerator {
    /// The `index`-th event of `train`, under the identifier `id` at the
    /// instant `at`.
    pub fn train_event(id: String, train: &Train, index: u32, at: Timestamp) -> (event: Event)
        ensures
            event.id@ == id@,
            is_train_event(event, train@, index as nat, at),
    {
        let event_type = SyntheticDataGenerator::event_type_at(index);
        let mut description = "Train ".to_owned();
        push_decimal(&mut description, train.train_number as u64);
        description.append(" - ");
        let kind = event_type.name();
        description.append(kind.as_str());
        let mut metadata = "{\"delay_minutes\":".to_owned();
        push_signed_decimal(&mut metadata, train.delay_minutes as i64);
        metadata.append(",\"train_name\":");
        push_json(&mut metadata, train.name.as_str());
        metadata.append(",\"train_number\":");
        push_decimal(&mut metadata, train.train_number as u64);
        metadata.append("}");
        Event {
            id,
            event_type,
            timestamp: at,
            train_id: Some(train.id.clone()),
            section_id: Some(train.current_section.clone()),
            description,
            severity: SyntheticDataGenerator::train_event_severity(event_type, train.delay_minutes),
            acknowledged: false,
            metadata,
            created_at: at,
            updated_at: at,
        }
    }

    /// The event of `disruption`, under the identifier `id`.
    pub fn disruption_event(id: String, disruption: &DisruptionEvent) -> (event: Event)
        ensures
            event.id@ == id@,
            is_disruption_event(event, *disruption),
    {
        let mut description = "Disruption: ".to_owned();
        description.append(disruption.description.as_str());
        let mut metadata = "{\"affected_sections\":[".to_owned();
        let ghost start = metadata@;
        let sections = &disruption.affected_sections;
        assert(views(sections@).take(0) =~= Seq::<Seq<char>>::empty());
        assert(metadata@ =~= start + json_items(views(sections@).take(0)));
        let mut k: usize = 0;
        while k < sections.len()
            invariant
                0 <= k <= sections@.len(),
                metadata@ == start + json_items(views(sections@).take(k as int)),
            decreases sections.len() - k,
        {
            let ghost upto = views(sections@).take(k as int + 1);
            assert(upto.drop_last() =~= views(sections@).take(k as int));
            assert(upto.last() == sections@[k as int]@);
            assert(upto[0] == sections@[0]@);
            if k > 0 {
                metadata.append(",");
            }
            push_json(&mut metadata, sections[k].as_str());
            assert(metadata@ =~= start + json_items(upto));
            k += 1;
        }
        assert(views(sections@).take(sections.len() as int) =~= views(sections@));
        metadata.append("]");
        metadata.append(",\"affected_train_count\":");
        push_decimal(&mut metadata, disruption.affected_trains.len() as u64);
        metadata.append(",\"disruption_type\":\"");
        let kind = disruption.disruption_type.name();
        metadata.append(kind.as_str());
        metadata.append("\",\"impact_level\":");
        push_decimal(&mut metadata, disruption.impact_level as u64);
        metadata.append("}");
        assert(metadata@ =~= disruption_metadata(*disruption));
        Event {
            id,
            event_type: EventType::ConflictDetected,
            timestamp: disruption.start_time,
            train_id: if disruption.affected_trains.len() > 0 {
                Some(disruption.affected_trains[0].clone())
            } else {
                None
            },
            section_id: if disruption.affected_sections.len() > 0 {
                Some(disruption.affected_sections[0].clone())
            } else {
                None
            },
            description,
            severity: SyntheticDataGenerator::disruption_event_severity(disruption.impact_level),
            acknowledged: false,
            metadata,
            created_at: disruption.start_time,
            updated_at: disruption.start_time,
        }
    }

    /// Made-up events for the trains and the disruptions, in the order of
    /// time: from two to six for each train, at instants drawn within the
    /// horizon, and one for each disruption at its start.
    pub fn generate_events(&self, trains: &Vec<Train>, disruptions: &Vec<DisruptionEvent>, time_horizon_hours: u32) -> (events:
        Result<Vec<Event>, String>)
        requires
            trains@.len() > 0 ==> 1 <= time_horizon_hours <= LONGEST_HORIZON_HOURS,
        ensures
            events matches Ok(list) && in_time_order(list@) && 2 * trains@.len()
                + disruptions@.len() <= list@.len() <= 6 * trains@.len() + disruptions@.len()
                && forall|i: int|
                0 <= i < list@.len() ==> is_made_up_event(
                    #[trigger] list@[i],
                    trains@,
                    disruptions@,
                ),
    {
        let mut made: Vec<Event> = Vec::new();
        let start_time = current_time();
        let mut t: usize = 0;
        while t < trains.len()
            invariant
                0 <= t <= trains@.len(),
                trains@.len() > 0 ==> 1 <= time_horizon_hours <= LONGEST_HORIZON_HOURS,
                2 * t <= made@.len() <= 6 * t,
                forall|i: int|
                    0 <= i < made@.len() ==> is_made_up_event(
                        #[trigger] made@[i],
                        trains@,
                        disruptions@,
                    ),
            decreases trains.len() - t,
        {
            let event_count = random_in_range(2, 6) as u32;
            let ghost base = made@.len();
            let mut i: u32 = 0;
            while i < event_count
                invariant
                    0 <= i <= event_count <= 6,
                    t < trains@.len(),
                    1 <= time_horizon_hours <= LONGEST_HORIZON_HOURS,
                    made@.len() == base + i,
                    forall|k: int|
                        0 <= k < made@.len() ==> is_made_up_event(
                            #[trigger] made@[k],
                            trains@,
                            disruptions@,
                        ),
                decreases event_count - i,
            {
                let minutes = random_in_range(0, time_horizon_hours as i64 * 60 - 1);
                let at = start_time.plus_millis(minutes * MILLIS_PER_MINUTE);
                let event = SyntheticDataGenerator::train_event(new_identifier(), &trains[t], i, at);
                proof {
                    assert(is_train_event(event, trains@[t as int]@, i as nat, event.timestamp));
                    assert(is_event_of_some(event, trains@, disruptions@));
                    assert(is_made_up_event(event, trains@, disruptions@));
                }
                let ghost before = made@;
                made.push(event);
                assert forall|k: int| 0 <= k < made@.len() implies is_made_up_event(
                    #[trigger] made@[k],
                    trains@,
                    disruptions@,
                ) by {
                    if k < before.len() {
                        assert(made@[k] == before[k]);
                    }
                }
                i = i + 1;
            }
            t += 1;
        }
        let ghost from_trains = made@.len();
        let mut d: usize = 0;
        while d < disruptions.len()
            invariant
                0 <= d <= disruptions@.len(),
                made@.len() == from_trains + d,
                forall|i: int|
                    0 <= i < made@.len() ==> is_made_up_event(
                        #[trigger] made@[i],
                        trains@,
                        disruptions@,
                    ),
            decreases disruptions.len() - d,
        {
            let event = SyntheticDataGenerator::disruption_event(new_identifier(), &disruptions[d]);
            proof {
                assert(is_disruption_event(event, disruptions@[d as int]));
                assert(is_event_of_some(event, trains@, disruptions@));
                assert(is_made_up_event(event, trains@, disruptions@));
            }
            let ghost before = made@;
            made.push(event);
            assert forall|k: int| 0 <= k < made@.len() implies is_made_up_event(
                #[trigger] made@[k],
                trains@,
                disruptions@,
            ) by {
                if k < before.len() {
                    assert(made@[k] == before[k]);
                }
            }
            d += 1;
        }
        let mut keys: Vec<i128> = Vec::new();
        let mut k: usize = 0;
        while k < made.len()
            invariant
                0 <= k <= made@.len(),
                keys@.len() == k,
                forall|m: int| 0 <= m < k ==> #[trigger] keys@[m] == made@[m].timestamp.millis,
            decreases made.len() - k,
        {
            keys.push(made[k].timestamp.millis as i128);
            k += 1;
        }
        let order = order_by_key(&keys);
        proof {
            lemma_stable_order(widened(keys@), keys@.len() as int);
        }
        let ghost listed = places(order@);
        let ghost wide = widened(keys@);
        let mut events: Vec<Event> = Vec::new();
        let mut a: usize = 0;
        while a < order.len()
            invariant
                0 <= a <= order@.len(),
                order@.len() == made@.len(),
                keys@.len() == made@.len(),
                listed == places(order@),
                forall|m: int| 0 <= m < order@.len() ==> #[trigger] order@[m] < made@.len(),
                forall|i: int|
                    0 <= i < made@.len() ==> is_made_up_event(
                        #[trigger] made@[i],
                        trains@,
                        disruptions@,
                    ),
                events@.len() == a,
                forall|m: int|
                    0 <= m < a ==> (#[trigger] events@[m]).timestamp == made@[listed[m]].timestamp
                        && is_made_up_event(events@[m], trains@, disruptions@),
            decreases order.len() - a,
        {
            assert(listed[a as int] == order@[a as int]);
            let source = &made[order[a]];
            let copy = source.clone();
            proof {
                assert(is_made_up_event(*source, trains@, disruptions@));
                assert(is_event_of_some(*source, trains@, disruptions@));
                if exists|t: int, index: nat|
                    0 <= t < trains@.len() && index < 6 && #[trigger] is_train_event(
                        *source,
                        trains@[t]@,
                        index,
                        source.timestamp,
                    ) {
                    let (t, index) = choose|t: int, index: nat|
                        0 <= t < trains@.len() && index < 6 && #[trigger] is_train_event(
                            *source,
                            trains@[t]@,
                            index,
                            source.timestamp,
                        );
                    assert(is_train_event(copy, trains@[t]@, index, copy.timestamp));
                } else {
                    let d = choose|d: int|
                        0 <= d < disruptions@.len() && #[trigger] is_disruption_event(
                            *source,
                            disruptions@[d],
                        );
                    assert(is_disruption_event(copy, disruptions@[d]));
                }
                assert(is_event_of_some(copy, trains@, disruptions@));
                assert(is_made_up_event(copy, trains@, disruptions@));
            }
            let ghost before = events@;
            events.push(copy);
            assert forall|m: int| 0 <= m < a + 1 implies (#[trigger] events@[m]).timestamp
                == made@[listed[m]].timestamp && is_made_up_event(
                events@[m],
                trains@,
                disruptions@,
            ) by {
                if m < a {
                    assert(events@[m] == before[m]);
                }
            }
            a += 1;
        }
        proof {
            assert(well_ordered(listed, wide, keys@.len() as int));
            assert forall|x: int, y: int| 0 <= x < y < events@.len() implies (
            #[trigger] events@[x]).timestamp.millis <= (#[trigger] events@[y]).timestamp.millis by {
                assert(listed_before(wide, listed[x], listed[y]));
                assert(wide[listed[x]] == keys@[listed[x]] as int);
                assert(wide[listed[y]] == keys@[listed[y]] as int);
            }
        }
        Ok(events)
    }

    /// A whole made-up data set for `config`: sections, trains with routes
    /// through them, disruptions and events. A configuration that asks for
    /// trains without sections, for more than can be numbered, or for a
    /// horizon that events cannot be spread over, yields none.
    pub fn generate_dataset(&self, config: SyntheticDataConfig) -> (dataset: Result<
        SyntheticDataSet,
        String,
    >)
        ensures
            match dataset_defect(config) {
                Some(reason) => dataset matches Err(e) && e@ == reason,
                None => dataset matches Ok(set) && is_dataset_for(set, config),
            },
    {
        if config.section_count > 0xffff_ffff || config.train_count > 0xffff_0000 {
            return Err("Too many trains or sections to number".to_owned());
        }
        if config.time_horizon_hours == 0 || config.time_horizon_hours > LONGEST_HORIZON_HOURS {
            return Err("The time horizon must be at least an hour".to_owned());
        }
        let sections = match self.section_generator.generate_sections(config.section_count as u32) {
            Ok(list) => list,
            Err(e) => {
                return Err(e);
            },
        };
        let trains = match self.train_generator.generate_trains_with_routes(
            config.train_count,
            &sections,
        ) {
            Ok(list) => list,
            Err(e) => {
                return Err(e);
            },
        };
        let disruptions = match self.disruption_generator.generate_disruptions(
            &trains,
            &sections,
            config.disruption_probability.thousandths,
            config.time_horizon_hours,
        ) {
            Ok(list) => list,
            Err(e) => {
                return Err(e);
            },
        };
        let events = match self.generate_events(&trains, &disruptions, config.time_horizon_hours) {
            Ok(list) => list,
            Err(e) => {
                return Err(e);
            },
        };
        Ok(
            SyntheticDataSet {
                trains,
                sections,
                events,
                disruptions,
                generated_at: current_time(),
                config,
            },
        )
    }
}

/// Why no data set can be made up for `config`, if none can: the first
/// rule that the configuration breaks.
pub open spec fn dataset_defect(config: SyntheticDataConfig) -> Option<Seq<char>> {
    if config.section_count > 0xffff_ffff || config.train_count > 0xffff_0000 {
        Some("Too many trains or sections to number"@)
    } else if config.time_horizon_hours == 0 || config.time_horizon_hours
        > LONGEST_HORIZON_HOURS {
        Some("The time horizon must be at least an hour"@)
    } else if config.train_count > 0 && config.section_count == 0 {
        Some("No sections available for route generation"@)
    } else {
        None
    }
}

/// Whether `set` is a data set as it is made up for `config`: as many
/// sections and trains as the configuration asks for, the trains routed
/// through those sections, disruptions for the share of the sections that
/// the configuration names, and the events of those trains and disruptions
/// in the order of time.
pub open spec fn is_dataset_for(set: SyntheticDataSet, config: SyntheticDataConfig) -> bool {
    &&& set.config == config
    &&& set.sections@.len() == config.section_count
    &&& forall|i: int|
        0 <= i < set.sections@.len() ==> section_generator::is_made_up_section(
            #[trigger] set.sections@[i],
            i,
        )
    &&& set.trains@.len() == config.train_count
    &&& forall|i: int|
        0 <= i < set.trains@.len() ==> train_generator::is_made_up(
            #[trigger] set.trains@[i],
            i,
            set.sections@,
        )
    &&& set.disruptions@.len() == disruption_generator::disruption_count(
        config.section_count as nat,
        config.disruption_probability.thousandths as int,
    )
    &&& forall|i: int|
        0 <= i < set.disruptions@.len() ==> disruption_generator::is_made_up_disruption(
            #[trigger] set.disruptions@[i],
            set.trains@,
            set.sections@,
        )
    &&& in_time_order(set.events@)
    &&& 2 * set.trains@.len() + set.disruptions@.len() <= set.events@.len() <= 6
        * set.trains@.len() + set.disruptions@.len()
    &&& forall|i: int|
        0 <= i < set.events@.len() ==> is_made_up_event(
            #[trigger] set.events@[i],
            set.trains@,
            set.disruptions@,
        )
}

} // verus!
