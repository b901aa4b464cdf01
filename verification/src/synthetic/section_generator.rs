//! The rules by which synthetic sections are made up.

use vstd::prelude::*;
use crate::text::{padded, decimal, push_padded, push_decimal};
use crate::models::{Milli, GeoPoint, RailwaySection, SectionStatus, TrackType};
use crate::runtime::{random_in_range, current_time};
use crate::synthetic::{station_name_at, in_india, random_indian_station_name,
    random_coordinates_india};

verus! {

#[derive(Debug)]
pub struct SectionGenerator;

/// "SEC" and the number of the section in at least three digits.
pub open spec fn section_id_at(index: nat) -> Seq<char> {
    "SEC"@ + padded(index + 1, 3)
}

/// "STATION - NUMBER Section"
pub open spec fn section_name_at(station: Seq<char>, index: nat) -> Seq<char> {
    station + " - "@ + decimal(index + 1) + " Section"@
}

impl SectionGenerator {
    pub fn new() -> (generator: SectionGenerator) {
        SectionGenerator
    }

    /// The identifier of the section that is made up at place `index`.
    pub fn section_id(index: u32) -> (id: String)
        ensures
            id@ == section_id_at(index as nat),
    {
        let mut id = "SEC".to_owned();
        push_padded(&mut id, index as u64 + 1, 3);
        id
    }

    /// The name of the section that is made up at place `index` near
    /// `station`.
    pub fn section_name(station: &str, index: u32) -> (name: String)
        ensures
            name@ == section_name_at(station@, index as nat),
    {
        let mut name = station.to_owned();
        name.append(" - ");
        push_decimal(&mut name, index as u64 + 1);
        name.append(" Section");
        name
    }

    /// `count` made-up sections, written at the current instant with fresh
    /// draws.
    pub fn generate_sections(&self, count: u32) -> (sections: Result<Vec<RailwaySection>, String>)
        ensures
            sections matches Ok(list) && list@.len() == count && forall|i: int|
                0 <= i < count ==> is_made_up_section(#[trigger] list@[i], i),
    {
        let mut sections: Vec<RailwaySection> = Vec::new();
        let mut i: u32 = 0;
        while i < count
            invariant
                0 <= i <= count,
                sections@.len() == i,
                forall|k: int| 0 <= k < i ==> is_made_up_section(#[trigger] sections@[k], k),
            decreases count - i,
        {
            let station = random_indian_station_name();
            let start = random_coordinates_india();
            let end = GeoPoint {
                latitude_e7: start.latitude_e7 + random_in_range(-1_000_000, 999_999),
                longitude_e7: start.longitude_e7 + random_in_range(-1_000_000, 999_999),
            };
            let now = current_time();
            let section = RailwaySection {
                id: SectionGenerator::section_id(i),
                name: SectionGenerator::section_name(station.as_str(), i),
                start_coordinates: start,
                end_coordinates: end,
                length_km: Milli { thousandths: random_in_range(10_000, 99_999) },
                track_type: if random_in_range(0, 1) == 0 {
                    TrackType::Single
                } else {
                    TrackType::Double
                },
                max_speed_kmh: Milli { thousandths: random_in_range(80_000, 159_999) },
                capacity_trains_per_hour: random_in_range(10, 29) as u32,
                current_occupancy: random_in_range(0, 14) as u32,
                status: SectionStatus::Active,
                signals: Vec::new(),
                created_at: now,
                updated_at: now,
            };
            proof {
                let index = choose|index: int|
                    0 <= index <= 24 && station@ == #[trigger] station_name_at(index);
                assert(section.name@ == section_name_at(station_name_at(index), i as nat));
                assert(is_made_up_section(section, i as int));
            }
            let ghost before = sections@;
            sections.push(section);
            assert forall|k: int| 0 <= k < i + 1 implies is_made_up_section(
                #[trigger] sections@[k],
                k,
            ) by {
                if k < i {
                    assert(sections@[k] == before[k]);
                }
            }
            i = i + 1;
        }
        Ok(sections)
    }
}

/// Whether `section` is a section as it is made up at place `index`: an
/// active section in India, numbered from one, between ten and a hundred
/// kilometres long.
pub open spec fn is_made_up_section(section: RailwaySection, index: int) -> bool {
    &&& section.id@ == section_id_at(index as nat)
    &&& exists|station: int|
        0 <= station <= 24 && section.name@ == #[trigger] section_name_at(
            station_name_at(station),
            index as nat,
        )
    &&& in_india(section.start_coordinates)
    &&& -1_000_000 <= section.end_coordinates.latitude_e7 - section.start_coordinates.latitude_e7
        < 1_000_000
    &&& -1_000_000 <= section.end_coordinates.longitude_e7
        - section.start_coordinates.longitude_e7 < 1_000_000
    &&& 10_000 <= section.length_km.thousandths < 100_000
    &&& section.track_type == TrackType::Single || section.track_type == TrackType::Double
    &&& 80_000 <= section.max_speed_kmh.thousandths < 160_000
    &&& 10 <= section.capacity_trains_per_hour < 30
    &&& section.current_occupancy < 15
    &&& section.status == SectionStatus::Active
    &&& section.signals@.len() == 0
    &&& section.created_at == section.updated_at
}

} // verus!
