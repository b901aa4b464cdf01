//! The rules by which synthetic disruptions are made up.

use vstd::prelude::*;
use crate::time::{Timestamp, MILLIS_PER_MINUTE, MILLIS_PER_HOUR};
use crate::models::{RailwaySection, views};
use crate::models::train::Train;
use crate::models::events::{DisruptionEvent, DisruptionType};
use crate::runtime::{random_in_range, current_time, new_identifier};
use crate::synthetic::train_generator::draw_index;

verus! {

#[derive(Debug)]
pub struct DisruptionGenerator;

/// The range of minutes that a disruption of each kind lasts: from the
/// first number up to, but not including, the second.
pub open spec fn duration_range(disruption_type: DisruptionType) -> (u32, u32) {
    match disruption_type {
        DisruptionType::SignalFailure => (15, 120),
        DisruptionType::TrackMaintenance => (60, 480),
        DisruptionType::Weather => (30, 180),
        DisruptionType::Accident => (120, 600),
        DisruptionType::PowerFailure => (20, 240),
        DisruptionType::StrikeFactor => (240, 1440),
        DisruptionType::RollingStockFailure => (60, 360),
    }
}

/// The impact of a disruption by its length: 8 above three hours, 5 above
/// one hour, else 2.
pub open spec fn impact_of(duration_minutes: u32) -> u8 {
    if duration_minutes > 180 {
        8
    } else if duration_minutes > 60 {
        5
    } else {
        2
    }
}

/// The kind of disruption that a draw from 0 to 6 stands for.
pub open spec fn kind_drawn(draw: int) -> DisruptionType {
    if draw == 0 {
        DisruptionType::SignalFailure
    } else if draw == 1 {
        DisruptionType::TrackMaintenance
    } else if draw == 2 {
        DisruptionType::Weather
    } else if draw == 3 {
        DisruptionType::Accident
    } else if draw == 4 {
        DisruptionType::PowerFailure
    } else if draw == 5 {
        DisruptionType::StrikeFactor
    } else {
        DisruptionType::RollingStockFailure
    }
}

/// How many of `sections` sections are disrupted where the share
/// `probability`, in thousandths, is: the whole part of the product, and
/// no more than can be counted.
pub open spec fn disruption_count(sections: nat, probability: int) -> nat {
    if probability <= 0 {
        0
    } else if sections * probability / 1000 > usize::MAX {
        usize::MAX as nat
    } else {
        (sections * probability / 1000) as nat
    }
}

impl DisruptionGenerator {
    pub fn new() -> (generator: DisruptionGenerator) {
        DisruptionGenerator
    }

    /// The range of minutes that a disruption of the kind lasts.
    pub fn duration_range(disruption_type: DisruptionType) -> (range: (u32, u32))
        ensures
            range == duration_range(disruption_type),
            range.0 < range.1,
    {
        match disruption_type {
            DisruptionType::SignalFailure => (15, 120),
            DisruptionType::TrackMaintenance => (60, 480),
            DisruptionType::Weather => (30, 180),
            DisruptionType::Accident => (120, 600),
            DisruptionType::PowerFailure => (20, 240),
            DisruptionType::StrikeFactor => (240, 1440),
            DisruptionType::RollingStockFailure => (60, 360),
        }
    }

    /// The impact of a disruption that lasts `duration_minutes`.
    pub fn impact_of(duration_minutes: u32) -> (impact: u8)
        ensures
            impact == impact_of(duration_minutes),
            1 <= impact <= 10,
    {
        if duration_minutes > 180 {
            8
        } else if duration_minutes > 60 {
            5
        } else {
            2
        }
    }

    /// The kind of disruption that a draw from 0 to 6 stands for.
    pub fn kind_drawn(draw: u8) -> (kind: DisruptionType)
        requires
            draw <= 6,
        ensures
            kind == kind_drawn(draw as int),
    {
        match draw {
            0 => DisruptionType::SignalFailure,
            1 => DisruptionType::TrackMaintenance,
            2 => DisruptionType::Weather,
            3 => DisruptionType::Accident,
            4 => DisruptionType::PowerFailure,
            5 => DisruptionType::StrikeFactor,
            _ => DisruptionType::RollingStockFailure,
        }
    }

    /// How many sections are disrupted.
    pub fn disruption_count(sections: usize, probability_thousandths: i64) -> (count: usize)
        ensures
            count == disruption_count(sections as nat, probability_thousandths as int),
    {
        if probability_thousandths <= 0 {
            return 0;
        }
        assert(0 <= sections * probability_thousandths <= 0xffff_ffff_ffff_ffff
            * 0x7fff_ffff_ffff_ffff) by (nonlinear_arith)
            requires
                0 <= sections <= 0xffff_ffff_ffff_ffff,
                0 < probability_thousandths <= 0x7fff_ffff_ffff_ffff,
        ;
        let wide: u128 = sections as u128 * probability_thousandths as u128 / 1000;
        if wide > usize::MAX as u128 {
            usize::MAX
        } else {
            wide as usize
        }
    }
}

/// The grade of impact never falls as a disruption lasts longer.
pub proof fn lemma_impact_monotone(shorter: u32, longer: u32)
    requires
        shorter <= longer,
    ensures
        impact_of(shorter) <= impact_of(longer),
{
}

/// Whether `event` is the disruption of `section` of the given kind that
/// starts at `start` and lasts `duration` minutes.
pub open spec fn disrupts(
    event: DisruptionEvent,
    section: RailwaySection,
    kind: DisruptionType,
    start: Timestamp,
    duration: u32,
) -> bool {
    &&& event.disruption_type == kind
    &&& views(event.affected_sections@) == seq![section.id@]
    &&& event.start_time == start
    &&& event.end_time == Some(start.spec_plus_millis(duration * MILLIS_PER_MINUTE))
    &&& event.impact_level == impact_of(duration)
    &&& event.description@ == kind.spec_name() + " in "@ + section.name@
    &&& event.response_actions@.len() == 0
}

/// Whether every train that `affected` names is a train of the fleet that
/// stands in the section `section_id`.
pub open spec fn stand_in(affected: Seq<String>, trains: Seq<Train>, section_id: Seq<char>)
    -> bool {
    forall|k: int|
        0 <= k < affected.len() ==> exists|t: int|
            0 <= t < trains.len() && (#[trigger] affected[k])@ == trains[t].id@
                && trains[t].current_section@ == section_id
}

/// Whether `event` is a disruption as it is made up for the fleet and the
/// sections: it strikes one of the sections for a time in the range of its
/// kind, and the trains it affects stand in that section.
pub open spec fn is_made_up_disruption(
    event: DisruptionEvent,
    trains: Seq<Train>,
    sections: Seq<RailwaySection>,
) -> bool {
    &&& event.id@.len() == 36
    &&& exists|place: int, duration: u32|
        0 <= place < sections.len() && duration_range(event.disruption_type).0 <= duration
            < duration_range(event.disruption_type).1 && #[trigger] disrupts(
            event,
            sections[place],
            event.disruption_type,
            event.start_time,
            duration,
        ) && stand_in(event.affected_trains@, trains, sections[place].id@)
}

impl DisruptionGenerator {
    /// The disruption of `section` under the identifier `id`: of the given
    /// kind, from `start` for `duration` minutes, affecting the named
    /// trains.
    pub fn disruption_of(
        id: String,
        section: &RailwaySection,
        kind: DisruptionType,
        start: Timestamp,
        duration: u32,
        affected_trains: Vec<String>,
    ) -> (event: DisruptionEvent)
        ensures
            event.id@ == id@,
            event.affected_trains@ == affected_trains@,
            disrupts(event, *section, kind, start, duration),
    {
        let mut description = kind.name();
        description.append(" in ");
        description.append(section.name.as_str());
        let mut affected_sections: Vec<String> = Vec::new();
        affected_sections.push(section.id.clone());
        assert(views(affected_sections@) =~= seq![section.id@]);
        DisruptionEvent {
            id,
            disruption_type: kind,
            affected_sections,
            affected_trains,
            start_time: start,
            end_time: Some(start.plus_millis(duration as i64 * MILLIS_PER_MINUTE)),
            impact_level: DisruptionGenerator::impact_of(duration),
            description,
            response_actions: Vec::new(),
        }
    }

    /// Made-up disruptions for the share `probability_thousandths` of the
    /// sections, within the next `time_horizon_hours` hours, with fresh
    /// draws. Three in ten of the trains of a struck section are affected.
    pub fn generate_disruptions(
        &self,
        trains: &Vec<Train>,
        sections: &Vec<RailwaySection>,
        probability_thousandths: i64,
        time_horizon_hours: u32,
    ) -> (events: Result<Vec<DisruptionEvent>, String>)
        requires
            disruption_count(sections@.len(), probability_thousandths as int) > 0
                ==> time_horizon_hours > 0,
        ensures
            events matches Ok(list) && list@.len() == disruption_count(
                sections@.len(),
                probability_thousandths as int,
            ) && forall|i: int|
                0 <= i < list@.len() ==> is_made_up_disruption(
                    #[trigger] list@[i],
                    trains@,
                    sections@,
                ),
    {
        let count = DisruptionGenerator::disruption_count(sections.len(), probability_thousandths);
        let mut events: Vec<DisruptionEvent> = Vec::new();
        let mut i: usize = 0;
        while i < count
            invariant
                0 <= i <= count,
                count > 0 ==> time_horizon_hours > 0 && sections@.len() > 0,
                events@.len() == i,
                forall|k: int|
                    0 <= k < i ==> is_made_up_disruption(#[trigger] events@[k], trains@, sections@),
            decreases count - i,
        {
            let place = draw_index(sections.len());
            let section = &sections[place];
            let kind = DisruptionGenerator::kind_drawn(random_in_range(0, 6) as u8);
            let hours = random_in_range(0, time_horizon_hours as i64 - 1);
            let start = current_time().plus_millis(hours * MILLIS_PER_HOUR);
            let range = DisruptionGenerator::duration_range(kind);
            let duration = random_in_range(range.0 as i64, range.1 as i64 - 1) as u32;
            let mut affected: Vec<String> = Vec::new();
            let mut t: usize = 0;
            while t < trains.len()
                invariant
                    0 <= t <= trains@.len(),
                    place < sections@.len(),
                    section == &sections@[place as int],
                    stand_in(affected@, trains@, section.id@),
                decreases trains.len() - t,
            {
                if trains[t].current_section == section.id && random_in_range(0, 9) < 3 {
                    let ghost before = affected@;
                    affected.push(trains[t].id.clone());
                    assert forall|k: int| 0 <= k < affected@.len() implies exists|m: int|
                        0 <= m < trains@.len() && (#[trigger] affected@[k])@ == trains@[m].id@
                            && trains@[m].current_section@ == section.id@ by {
                        if k < before.len() {
                            assert(affected@[k] == before[k]);
                        } else {
                            assert(affected@[k]@ == trains@[t as int].id@);
                        }
                    }
                    assert(stand_in(affected@, trains@, section.id@));
                }
                t += 1;
            }
            let event = DisruptionGenerator::disruption_of(
                new_identifier(),
                section,
                kind,
                start,
                duration,
                affected,
            );
            proof {
                assert(disrupts(
                    event,
                    sections@[place as int],
                    event.disruption_type,
                    event.start_time,
                    duration,
                ));
                assert(stand_in(event.affected_trains@, trains@, sections@[place as int].id@));
                assert(is_made_up_disruption(event, trains@, sections@));
            }
            let ghost before = events@;
            events.push(event);
            assert forall|k: int| 0 <= k < i + 1 implies is_made_up_disruption(
                #[trigger] events@[k],
                trains@,
                sections@,
            ) by {
                if k < i {
                    assert(events@[k] == before[k]);
                }
            }
            i += 1;
        }
        Ok(events)
    }
}

} // verus!
