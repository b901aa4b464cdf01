//! Track sections and what occupies them.

use vstd::prelude::*;
use crate::time::Timestamp;
use crate::models::{Milli, GeoPoint, TrackType, SignalStatus, WeatherType, views, contains_text};
use crate::models::events::ConflictEvent;
use crate::runtime::{current_time, new_identifier};
use crate::text::is_text;
use crate::models::train::Train;

verus! {

#[derive(Debug)]
pub struct Section {
    pub id: String,
    pub name: String,
    pub from_station: String,
    pub to_station: String,
    pub track_type: TrackType,
    pub capacity: u32,
    pub current_trains: Vec<String>,
    pub signal_blocks: Vec<Block>,
    pub distance_km: Milli,
    pub speed_limit_kmh: Milli,
    pub maintenance_blocks: Vec<MaintenanceBlock>,
    pub created_at: Timestamp,
    pub updated_at: Timestamp,
}

#[derive(Debug)]
pub struct Block {
    pub id: String,
    pub section_id: String,
    pub name: String,
    pub start_position: GeoPoint,
    pub end_position: GeoPoint,
    pub length_meters: Milli,
    /// The train that stands in the block, if any.
    pub occupied_by: Option<String>,
    pub signal_status: SignalStatus,
    pub last_updated: Timestamp,
}

#[derive(Debug)]
pub struct MaintenanceBlock {
    pub id: String,
    pub section_id: String,
    pub block_type: String,
    pub start_time: Timestamp,
    pub end_time: Timestamp,
    pub description: String,
    pub affects_capacity: bool,
}

#[derive(Debug)]
pub struct SectionState {
    pub section_id: String,
    pub capacity: u32,
    pub current_occupancy: u32,
    pub signal_status: SignalStatus,
    pub weather_condition: WeatherType,
    pub maintenance_blocks: Vec<MaintenanceBlock>,
    pub active_trains: Vec<String>,
    pub conflicts: Vec<ConflictEvent>,
    pub utilization_percent: Milli,
    pub last_updated: Timestamp,
}

/// How many trains a section of each kind of track holds.
pub open spec fn capacity_of(track_type: TrackType) -> u32 {
    match track_type {
        TrackType::Single => 1,
        TrackType::Double => 2,
        TrackType::Multiple => 4,
    }
}

impl Section {
    /// The trains that stand in the section.
    pub open spec fn trains(&self) -> Seq<Seq<char>> {
        views(self.current_trains@)
    }

    /// No train stands in the section twice.
    pub open spec fn wf(&self) -> bool {
        self.trains().no_duplicates()
    }

    pub open spec fn spec_is_at_capacity(&self) -> bool {
        self.current_trains@.len() >= self.capacity
    }

    /// Whether nothing but the trains and the stamp differs between two
    /// states of a section.
    pub open spec fn same_but_occupancy(&self, other: &Section) -> bool {
        &&& self.id@ == other.id@
        &&& self.name@ == other.name@
        &&& self.from_station@ == other.from_station@
        &&& self.to_station@ == other.to_station@
        &&& self.track_type == other.track_type
        &&& self.capacity == other.capacity
        &&& self.signal_blocks@ == other.signal_blocks@
        &&& self.distance_km == other.distance_km
        &&& self.speed_limit_kmh == other.speed_limit_kmh
        &&& self.maintenance_blocks@ == other.maintenance_blocks@
        &&& self.created_at == other.created_at
    }

    /// The occupancy as a percentage of the capacity, in thousandths; zero
    /// for a section without capacity.
    pub open spec fn spec_utilization(&self) -> Milli {
        crate::services::analytics::percentage(
            self.current_trains@.len() as int,
            self.capacity as int,
        )
    }

    /// Opens an empty section under the identifier `id` at the instant
    /// `now`: the kind of track decides the capacity, the speed limit is
    /// 100 km/h.
    pub fn opened(
        id: String,
        now: Timestamp,
        name: String,
        from_station: String,
        to_station: String,
        track_type: TrackType,
        distance_km: Milli,
    ) -> (section: Section)
        ensures
            section.id@ == id@,
            section.name@ == name@,
            section.from_station@ == from_station@,
            section.to_station@ == to_station@,
            section.track_type == track_type,
            section.capacity == capacity_of(track_type),
            section.current_trains@.len() == 0,
            section.signal_blocks@.len() == 0,
            section.distance_km == distance_km,
            section.speed_limit_kmh.thousandths == 100_000,
            section.maintenance_blocks@.len() == 0,
            section.created_at == now,
            section.updated_at == now,
            section.wf(),
    {
        Section {
            id,
            name,
            from_station,
            to_station,
            track_type,
            capacity: match track_type {
                TrackType::Single => 1,
                TrackType::Double => 2,
                TrackType::Multiple => 4,
            },
            current_trains: Vec::new(),
            signal_blocks: Vec::new(),
            distance_km,
            speed_limit_kmh: Milli { thousandths: 100_000 },
            maintenance_blocks: Vec::new(),
            created_at: now,
            updated_at: now,
        }
    }

    /// Opens an empty section under a fresh identifier at the current
    /// instant.
    pub fn new(
        name: String,
        from_station: String,
        to_station: String,
        track_type: TrackType,
        distance_km: Milli,
    ) -> (section: Section)
        ensures
            section.id@.len() == 36,
            section.name@ == name@,
            section.from_station@ == from_station@,
            section.to_station@ == to_station@,
            section.track_type == track_type,
            section.capacity == capacity_of(track_type),
            section.current_trains@.len() == 0,
            section.distance_km == distance_km,
            section.speed_limit_kmh.thousandths == 100_000,
            section.created_at == section.updated_at,
            section.wf(),
    {
        let now = current_time();
        let id = new_identifier();
        Section::opened(id, now, name, from_station, to_station, track_type, distance_km)
    }

    #[verifier::when_used_as_spec(spec_is_at_capacity)]
    pub fn is_at_capacity(&self) -> (full: bool)
        ensures
            full == self.spec_is_at_capacity(),
    {
        self.current_trains.len() >= self.capacity as usize
    }

    /// Lets a train into the section at `now`, unless the section is full
    /// or the train already stands in it. Tells whether the train was let
    /// in.
    pub fn add_train_at(&mut self, train_id: String, now: Timestamp) -> (added: bool)
        ensures
            added == (!old(self).spec_is_at_capacity() && !old(self).trains().contains(train_id@)),
            added ==> final(self).trains() == old(self).trains().push(train_id@)
                && final(self).updated_at == now,
            !added ==> final(self).trains() == old(self).trains() && final(self).updated_at
                == old(self).updated_at,
            final(self).same_but_occupancy(old(self)),
            old(self).wf() ==> final(self).wf(),
    {
        if !self.is_at_capacity() && !contains_text(&self.current_trains, train_id.as_str()) {
            self.current_trains.push(train_id);
            self.updated_at = now;
            assert(self.trains() =~= old(self).trains().push(train_id@));
            true
        } else {
            false
        }
    }

    /// Lets a train into the section at the current instant.
    pub fn add_train(&mut self, train_id: String) -> (added: bool)
        ensures
            added == (!old(self).spec_is_at_capacity() && !old(self).trains().contains(train_id@)),
            added ==> final(self).trains() == old(self).trains().push(train_id@),
            !added ==> final(self).trains() == old(self).trains() && final(self).updated_at
                == old(self).updated_at,
            final(self).same_but_occupancy(old(self)),
            old(self).wf() ==> final(self).wf(),
    {
        let now = current_time();
        self.add_train_at(train_id, now)
    }

    /// Lets a train out of the section at `now`: its first entry leaves.
    /// Tells whether the train stood in the section.
    pub fn remove_train_at(&mut self, train_id: &str, now: Timestamp) -> (removed: bool)
        ensures
            removed == old(self).trains().contains(train_id@),
            removed ==> final(self).trains() == old(self).trains().remove(
                old(self).trains().index_of_first(train_id@).unwrap(),
            ) && final(self).updated_at == now,
            !removed ==> final(self).trains() == old(self).trains() && final(self).updated_at
                == old(self).updated_at,
            final(self).same_but_occupancy(old(self)),
            old(self).wf() ==> final(self).wf() && !final(self).trains().contains(train_id@),
    {
        let mut i: usize = 0;
        while i < self.current_trains.len()
            invariant
                0 <= i <= self.current_trains.len(),
                *self == *old(self),
                forall|k: int| 0 <= k < i ==> self.trains()[k] != train_id@,
            decreases self.current_trains.len() - i,
        {
            if is_text(&self.current_trains[i], train_id) {
                let ghost before = self.trains();
                proof {
                    assert(before[i as int] == train_id@);
                    assert(before.contains(train_id@));
                    before.index_of_first_ensures(train_id@);
                    let first = before.index_of_first(train_id@).unwrap();
                    assert(first == i) by {
                        if first < i {
                            assert(self.trains()[first] != train_id@);
                        }
                    }
                }
                self.current_trains.remove(i);
                self.updated_at = now;
                assert(self.trains() =~= before.remove(i as int));
                proof {
                    if old(self).wf() {
                        assert forall|a: int, b: int|
                            0 <= a < self.trains().len() && 0 <= b < self.trains().len() && a
                                != b implies self.trains()[a] != self.trains()[b] by {
                            let a0 = if a < i {
                                a
                            } else {
                                a + 1
                            };
                            let b0 = if b < i {
                                b
                            } else {
                                b + 1
                            };
                            assert(self.trains()[a] == before[a0]);
                            assert(self.trains()[b] == before[b0]);
                        }
                        assert forall|a: int| 0 <= a < self.trains().len() implies self.trains()[a]
                            != train_id@ by {
                            let a0 = if a < i {
                                a
                            } else {
                                a + 1
                            };
                            assert(self.trains()[a] == before[a0]);
                            assert(before[a0] != before[i as int]);
                        }
                    }
                }
                return true;
            }
            i += 1;
        }
        false
    }

    /// Lets a train out of the section at the current instant.
    pub fn remove_train(&mut self, train_id: &str) -> (removed: bool)
        ensures
            removed == old(self).trains().contains(train_id@),
            removed ==> final(self).trains() == old(self).trains().remove(
                old(self).trains().index_of_first(train_id@).unwrap(),
            ),
            !removed ==> final(self).trains() == old(self).trains() && final(self).updated_at
                == old(self).updated_at,
            final(self).same_but_occupancy(old(self)),
            old(self).wf() ==> final(self).wf() && !final(self).trains().contains(train_id@),
    {
        let now = current_time();
        self.remove_train_at(train_id, now)
    }

    #[verifier::when_used_as_spec(spec_utilization)]
    pub fn utilization(&self) -> (share: Milli)
        ensures
            share == self.spec_utilization(),
    {
        crate::services::analytics::mean_of(
            self.current_trains.len() as i128 * 100_000,
            self.capacity as u64,
        )
    }
}

impl Clone for MaintenanceBlock {
    fn clone(&self) -> (copy: Self)
        ensures
            copy.id@ == self.id@,
            copy.section_id@ == self.section_id@,
            copy.block_type@ == self.block_type@,
            copy.start_time == self.start_time,
            copy.end_time == self.end_time,
            copy.description@ == self.description@,
            copy.affects_capacity == self.affects_capacity,
    {
        MaintenanceBlock {
            id: self.id.clone(),
            section_id: self.section_id.clone(),
            block_type: self.block_type.clone(),
            start_time: self.start_time,
            end_time: self.end_time,
            description: self.description.clone(),
            affects_capacity: self.affects_capacity,
        }
    }
}

/// The identifiers of a list of trains, in order.
pub open spec fn train_ids(trains: Seq<Train>) -> Seq<Seq<char>> {
    trains.map_values(|t: Train| t.id@)
}

impl SectionState {
    /// The state of a section at `now`, from what the store holds of it:
    /// the trains that stand in it and the conflicts that are open in it.
    /// Signals are taken to be green and the weather to be clear.
    pub fn get_section_state(section: &Section, trains: &Vec<Train>, conflicts: Vec<ConflictEvent>, now: Timestamp) -> (state:
        SectionState)
        requires
            trains@.len() <= u32::MAX,
        ensures
            state.section_id@ == section.id@,
            state.capacity == section.capacity,
            state.current_occupancy == trains@.len(),
            state.signal_status == SignalStatus::Green,
            state.weather_condition == WeatherType::Clear,
            state.maintenance_blocks@.len() == section.maintenance_blocks@.len(),
            forall|k: int|
                0 <= k < section.maintenance_blocks@.len() ==> (
                #[trigger] state.maintenance_blocks@[k]).id@ == section.maintenance_blocks@[k].id@,
            views(state.active_trains@) == train_ids(trains@),
            state.conflicts@ == conflicts@,
            state.utilization_percent == section.spec_utilization(),
            state.last_updated == now,
    {
        let mut blocks: Vec<MaintenanceBlock> = Vec::new();
        let mut k: usize = 0;
        while k < section.maintenance_blocks.len()
            invariant
                0 <= k <= section.maintenance_blocks@.len(),
                blocks@.len() == k,
                forall|m: int|
                    0 <= m < k ==> (#[trigger] blocks@[m]).id@ == section.maintenance_blocks@[m].id@,
            decreases section.maintenance_blocks.len() - k,
        {
            blocks.push(section.maintenance_blocks[k].clone());
            k += 1;
        }
        let ghost wanted = train_ids(trains@);
        let mut active: Vec<String> = Vec::new();
        let mut i: usize = 0;
        while i < trains.len()
            invariant
                0 <= i <= trains@.len(),
                wanted == train_ids(trains@),
                views(active@) == wanted.take(i as int),
            decreases trains.len() - i,
        {
            let ghost listed = views(active@);
            active.push(trains[i].id.clone());
            assert(views(active@) =~= listed.push(wanted[i as int]));
            assert(wanted.take(i as int + 1) =~= wanted.take(i as int).push(wanted[i as int]));
            i += 1;
        }
        assert(wanted.take(trains.len() as int) =~= wanted);
        SectionState {
            section_id: section.id.clone(),
            capacity: section.capacity,
            current_occupancy: trains.len() as u32,
            signal_status: SignalStatus::Green,
            weather_condition: WeatherType::Clear,
            maintenance_blocks: blocks,
            active_trains: active,
            conflicts,
            utilization_percent: section.utilization(),
            last_updated: now,
        }
    }
}

} // verus!
