//! Views over a fleet snapshot: selections, pages, counts and averages.

use vstd::prelude::*;
use crate::time::Timestamp;
use crate::models::{Milli, GeoPoint, TrainPriority, Direction, views};
use crate::models::events::text_of;
use crate::models::train::{Train, TrainView, TrainStatus};
use crate::services::train_service::TrainService;

verus! {

/// Which trains of a fleet are asked for. A criterion that is `None` (or
/// `false`) admits every train.
#[derive(Debug)]
pub struct Criteria {
    pub status: Option<TrainStatus>,
    pub active_only: bool,
    pub priority: Option<TrainPriority>,
    pub section_id: Option<String>,
    pub min_delay: Option<i32>,
    pub min_speed: Option<Milli>,
    pub max_speed: Option<Milli>,
}

pub struct CriteriaView {
    pub status: Option<TrainStatus>,
    pub active_only: bool,
    pub priority: Option<TrainPriority>,
    pub section_id: Option<Seq<char>>,
    pub min_delay: Option<i32>,
    pub min_speed: Option<Milli>,
    pub max_speed: Option<Milli>,
}

impl View for Criteria {
    type V = CriteriaView;

    open spec fn view(&self) -> CriteriaView {
        CriteriaView {
            status: self.status,
            active_only: self.active_only,
            priority: self.priority,
            section_id: text_of(self.section_id),
            min_delay: self.min_delay,
            min_speed: self.min_speed,
            max_speed: self.max_speed,
        }
    }
}

impl CriteriaView {
    /// The criteria that admit every train.
    pub open spec fn any() -> CriteriaView {
        CriteriaView {
            status: None,
            active_only: false,
            priority: None,
            section_id: None,
            min_delay: None,
            min_speed: None,
            max_speed: None,
        }
    }

    /// Whether a train meets every criterion.
    pub open spec fn admits(self, train: TrainView) -> bool {
        &&& self.status matches Some(s) ==> train.status == s
        &&& self.active_only ==> train.status.spec_is_active()
        &&& self.priority matches Some(p) ==> train.priority == p
        &&& self.section_id matches Some(s) ==> train.current_section == s
        &&& self.min_delay matches Some(d) ==> train.delay_minutes >= d
        &&& self.min_speed matches Some(v) ==> train.speed_kmh.thousandths >= v.thousandths
        &&& self.max_speed matches Some(v) ==> train.speed_kmh.thousandths <= v.thousandths
    }
}

/// The trains of a fleet that meet the criteria, in fleet order.
pub open spec fn selected(trains: Seq<TrainView>, criteria: CriteriaView) -> Seq<TrainView>
    decreases trains.len(),
{
    if trains.len() == 0 {
        Seq::empty()
    } else {
        let earlier = selected(trains.drop_last(), criteria);
        if criteria.admits(trains.last()) {
            earlier.push(trains.last())
        } else {
            earlier
        }
    }
}

/// A selection holds only trains of the fleet that meet the criteria, and
/// no more trains than the fleet.
pub proof fn lemma_selected_sound(trains: Seq<TrainView>, criteria: CriteriaView)
    ensures
        selected(trains, criteria).len() <= trains.len(),
        forall|k: int|
            0 <= k < selected(trains, criteria).len() ==> criteria.admits(
                #[trigger] selected(trains, criteria)[k],
            ) && trains.contains(selected(trains, criteria)[k]),
    decreases trains.len(),
{
    if trains.len() > 0 {
        let earlier = selected(trains.drop_last(), criteria);
        lemma_selected_sound(trains.drop_last(), criteria);
        assert forall|k: int| 0 <= k < selected(trains, criteria).len() implies criteria.admits(
            #[trigger] selected(trains, criteria)[k],
        ) && trains.contains(selected(trains, criteria)[k]) by {
            if k < earlier.len() {
                let t = earlier[k];
                assert(trains.drop_last().contains(t));
                let m = choose|m: int| 0 <= m < trains.len() - 1 && trains.drop_last()[m] == t;
                assert(trains[m] == t);
            } else {
                assert(trains[trains.len() - 1] == trains.last());
            }
        }
    }
}

/// Every train of the fleet that meets the criteria is in the selection.
pub proof fn lemma_selected_complete(trains: Seq<TrainView>, criteria: CriteriaView, i: int)
    requires
        0 <= i < trains.len(),
        criteria.admits(trains[i]),
    ensures
        selected(trains, criteria).contains(trains[i]),
    decreases trains.len(),
{
    let earlier = selected(trains.drop_last(), criteria);
    if i == trains.len() - 1 {
        assert(earlier.push(trains.last())[earlier.len() as int] == trains[i]);
    } else {
        lemma_selected_complete(trains.drop_last(), criteria, i);
        let k = choose|k: int| 0 <= k < earlier.len() && earlier[k] == trains.drop_last()[i];
        assert(selected(trains, criteria)[k] == trains[i]);
    }
}

/// The page and its size as they are used: the first page and fifty
/// trains where nothing is named, at least one and at most a hundred trains.
pub open spec fn page_number(page: Option<usize>) -> int {
    match page {
        Some(p) => if p < 1 {
            1
        } else {
            p as int
        },
        None => 1,
    }
}

pub open spec fn page_size(per_page: Option<usize>) -> int {
    match per_page {
        Some(n) => if n < 1 {
            1
        } else if n > 100 {
            100
        } else {
            n as int
        },
        None => 50,
    }
}

/// The trains of one page of the fleet.
pub open spec fn page_of(trains: Seq<TrainView>, page: Option<usize>, per_page: Option<usize>)
    -> Seq<TrainView> {
    let start = (page_number(page) - 1) * page_size(per_page);
    let end = if start + page_size(per_page) < trains.len() {
        start + page_size(per_page)
    } else {
        trains.len() as int
    };
    if start < trains.len() {
        trains.subrange(start, end)
    } else {
        Seq::empty()
    }
}

/// Where a train is, for the live map.
#[derive(Debug)]
pub struct TrainPositionUpdate {
    pub train_id: String,
    pub train_number: u32,
    pub name: String,
    pub position: GeoPoint,
    pub speed_kmh: Milli,
    pub direction: Direction,
    pub status: TrainStatus,
    pub delay_minutes: i32,
    pub current_section: String,
    pub updated_at: Timestamp,
}

pub struct TrainPositionUpdateView {
    pub train_id: Seq<char>,
    pub train_number: u32,
    pub name: Seq<char>,
    pub position: GeoPoint,
    pub speed_kmh: Milli,
    pub direction: Direction,
    pub status: TrainStatus,
    pub delay_minutes: i32,
    pub current_section: Seq<char>,
    pub updated_at: Timestamp,
}

impl View for TrainPositionUpdate {
    type V = TrainPositionUpdateView;

    open spec fn view(&self) -> TrainPositionUpdateView {
        TrainPositionUpdateView {
            train_id: self.train_id@,
            train_number: self.train_number,
            name: self.name@,
            position: self.position,
            speed_kmh: self.speed_kmh,
            direction: self.direction,
            status: self.status,
            delay_minutes: self.delay_minutes,
            current_section: self.current_section@,
            updated_at: self.updated_at,
        }
    }
}

pub open spec fn position_of(train: TrainView) -> TrainPositionUpdateView {
    TrainPositionUpdateView {
        train_id: train.id,
        train_number: train.train_number,
        name: train.name,
        position: train.position,
        speed_kmh: train.speed_kmh,
        direction: train.direction,
        status: train.status,
        delay_minutes: train.delay_minutes,
        current_section: train.current_section,
        updated_at: train.updated_at,
    }
}

impl Criteria {
    /// The criteria that admit every train.
    pub fn any() -> (criteria: Criteria)
        ensures
            criteria@ == CriteriaView::any(),
    {
        Criteria {
            status: None,
            active_only: false,
            priority: None,
            section_id: None,
            min_delay: None,
            min_speed: None,
            max_speed: None,
        }
    }

    /// Whether a train meets every criterion.
    pub fn admits(&self, train: &Train) -> (admitted: bool)
        ensures
            admitted == self@.admits(train@),
    {
        let status_ok = match self.status {
            Some(s) => train.status == s,
            None => true,
        };
        let active_ok = !self.active_only || train.status.is_active();
        let priority_ok = match self.priority {
            Some(p) => train.priority == p,
            None => true,
        };
        let section_ok = match &self.section_id {
            Some(s) => train.current_section == *s,
            None => true,
        };
        let delay_ok = match self.min_delay {
            Some(d) => train.delay_minutes >= d,
            None => true,
        };
        let min_ok = match self.min_speed {
            Some(v) => train.speed_kmh.thousandths >= v.thousandths,
            None => true,
        };
        let max_ok = match self.max_speed {
            Some(v) => train.speed_kmh.thousandths <= v.thousandths,
            None => true,
        };
        status_ok && active_ok && priority_ok && section_ok && delay_ok && min_ok && max_ok
    }
}

impl TrainService {
    /// The trains of the fleet that meet the criteria, in fleet order.
    pub fn select(trains: &Vec<Train>, criteria: &Criteria) -> (chosen: Vec<Train>)
        ensures
            views(chosen@) == selected(views(trains@), criteria@),
    {
        let mut chosen: Vec<Train> = Vec::new();
        let mut i: usize = 0;
        assert(views(trains@).take(0) =~= Seq::<TrainView>::empty());
        assert(views(chosen@) =~= Seq::<TrainView>::empty());
        while i < trains.len()
            invariant
                0 <= i <= trains.len(),
                views(chosen@) == selected(views(trains@).take(i as int), criteria@),
            decreases trains.len() - i,
        {
            let ghost listed = views(chosen@);
            let ghost upto = views(trains@).take(i as int + 1);
            assert(upto.drop_last() =~= views(trains@).take(i as int));
            assert(upto.last() == trains@[i as int]@);
            if criteria.admits(&trains[i]) {
                chosen.push(trains[i].clone());
                assert(views(chosen@) =~= listed.push(trains@[i as int]@));
            }
            i += 1;
        }
        assert(views(trains@).take(trains.len() as int) =~= views(trains@));
        chosen
    }

    /// The trains of the fleet that stand in `section_id`.
    pub fn get_trains_in_section(&self, trains: &Vec<Train>, section_id: &str) -> (chosen: Vec<
        Train,
    >)
        ensures
            views(chosen@) == selected(
                views(trains@),
                CriteriaView { section_id: Some(section_id@), ..CriteriaView::any() },
            ),
    {
        let mut criteria = Criteria::any();
        criteria.section_id = Some(section_id.to_owned());
        TrainService::select(trains, &criteria)
    }

    /// The trains of the fleet that are on the rails: running, delayed or
    /// at a station.
    pub fn get_active_trains(&self, trains: &Vec<Train>) -> (chosen: Vec<Train>)
        ensures
            views(chosen@) == selected(
                views(trains@),
                CriteriaView { active_only: true, ..CriteriaView::any() },
            ),
    {
        let mut criteria = Criteria::any();
        criteria.active_only = true;
        TrainService::select(trains, &criteria)
    }

    /// The trains that the interface lists: those on the rails.
    pub fn get_all_trains(&self, trains: &Vec<Train>) -> (chosen: Vec<Train>)
        ensures
            views(chosen@) == selected(
                views(trains@),
                CriteriaView { active_only: true, ..CriteriaView::any() },
            ),
    {
        self.get_active_trains(trains)
    }

    /// The trains of the fleet of one precedence class.
    pub fn get_trains_by_priority(&self, trains: &Vec<Train>, priority: TrainPriority) -> (chosen:
        Vec<Train>)
        ensures
            views(chosen@) == selected(
                views(trains@),
                CriteriaView { priority: Some(priority), ..CriteriaView::any() },
            ),
    {
        let mut criteria = Criteria::any();
        criteria.priority = Some(priority);
        TrainService::select(trains, &criteria)
    }

    /// The trains of the fleet that are at least `min_delay` minutes late.
    pub fn get_delayed_trains(&self, trains: &Vec<Train>, min_delay: i32) -> (chosen: Vec<Train>)
        ensures
            views(chosen@) == selected(
                views(trains@),
                CriteriaView { min_delay: Some(min_delay), ..CriteriaView::any() },
            ),
    {
        let mut criteria = Criteria::any();
        criteria.min_delay = Some(min_delay);
        TrainService::select(trains, &criteria)
    }

    /// One page of the fleet, and the size of the whole fleet.
    pub fn get_all_trains_paginated(&self, all_trains: &Vec<Train>, page: Option<usize>, per_page: Option<usize>) -> (listed:
        (Vec<Train>, usize))
        ensures
            views(listed.0@) == page_of(views(all_trains@), page, per_page),
            listed.1 == all_trains@.len(),
    {
        let total = all_trains.len();
        let page: usize = match page {
            Some(p) => if p < 1 {
                1
            } else {
                p
            },
            None => 1,
        };
        let per_page: usize = match per_page {
            Some(n) => if n < 1 {
                1
            } else if n > 100 {
                100
            } else {
                n
            },
            None => 50,
        };
        let mut trains: Vec<Train> = Vec::new();
        assert(0 <= (page - 1) * per_page <= 100 * 0xffff_ffff_ffff_ffff) by (nonlinear_arith)
            requires
                1 <= page <= 0xffff_ffff_ffff_ffff,
                1 <= per_page <= 100,
        ;
        let start_wide: u128 = (page - 1) as u128 * per_page as u128;
        if start_wide >= total as u128 {
            assert(views(trains@) =~= page_of(
                views(all_trains@),
                Some(page),
                Some(per_page),
            ));
            return (trains, total);
        }
        let start: usize = start_wide as usize;
        let end: usize = if per_page < total - start {
            start + per_page
        } else {
            total
        };
        let mut i: usize = start;
        while i < end
            invariant
                start <= i <= end <= total,
                total == all_trains.len(),
                views(trains@) == views(all_trains@).subrange(start as int, i as int),
            decreases end - i,
        {
            let ghost listed = views(trains@);
            trains.push(all_trains[i].clone());
            assert(views(trains@) =~= listed.push(all_trains@[i as int]@));
            assert(views(all_trains@).subrange(start as int, i as int + 1) =~= views(
                all_trains@,
            ).subrange(start as int, i as int).push(all_trains@[i as int]@));
            i += 1;
        }
        (trains, total)
    }

    /// Where every train of the fleet is, in fleet order.
    pub fn get_real_time_positions(&self, trains: &Vec<Train>) -> (updates: Vec<
        TrainPositionUpdate,
    >)
        ensures
            views(updates@) == views(trains@).map_values(|t: TrainView| position_of(t)),
    {
        let mut updates: Vec<TrainPositionUpdate> = Vec::new();
        let mut i: usize = 0;
        let ghost wanted = views(trains@).map_values(|t: TrainView| position_of(t));
        while i < trains.len()
            invariant
                0 <= i <= trains.len(),
                wanted == views(trains@).map_values(|t: TrainView| position_of(t)),
                views(updates@) == wanted.take(i as int),
            decreases trains.len() - i,
        {
            let ghost listed = views(updates@);
            let train = &trains[i];
            let update = TrainPositionUpdate {
                train_id: train.id.clone(),
                train_number: train.train_number,
                name: train.name.clone(),
                position: train.position,
                speed_kmh: train.speed_kmh,
                direction: train.direction,
                status: train.status,
                delay_minutes: train.delay_minutes,
                current_section: train.current_section.clone(),
                updated_at: train.updated_at,
            };
            assert(update@ == wanted[i as int]);
            updates.push(update);
            assert(views(updates@) =~= listed.push(wanted[i as int]));
            assert(wanted.take(i as int + 1) =~= wanted.take(i as int).push(wanted[i as int]));
            i += 1;
        }
        assert(wanted.take(trains.len() as int) =~= wanted);
        updates
    }
}

/// The pages of a fleet do not overlap and leave no train out: the train
/// at place `i` is on page `i / size + 1`, at place `i % size` of it.
pub proof fn lemma_pages_partition(trains: Seq<TrainView>, per_page: usize, i: int)
    requires
        0 <= i < trains.len(),
        1 <= per_page <= 100,
        i / (per_page as int) + 1 <= usize::MAX,
    ensures
        ({
            let page = (i / (per_page as int) + 1) as usize;
            let listed = page_of(trains, Some(page), Some(per_page));
            i % (per_page as int) < listed.len() && listed[i % (per_page as int)] == trains[i]
        }),
{
    let size = per_page as int;
    let page = (i / size + 1) as usize;
    let start = (page_number(Some(page)) - 1) * page_size(Some(per_page));
    assert(start == (i / size) * size);
    assert(i == (i / size) * size + i % size && 0 <= i % size < size) by (nonlinear_arith)
        requires
            size > 0,
            i >= 0,
    ;
}

} // verus!
