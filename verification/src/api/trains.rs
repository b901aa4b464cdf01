//! Queries and answers of the train endpoints.

use vstd::prelude::*;
use crate::time::Timestamp;
use crate::models::{Milli, GeoPoint, TrainPriority, Direction, views};
use crate::models::train::{Train, TrainView, TrainStatus};
use crate::models::events::text_of;
use crate::text::{decimal, decimal_string, contains, has_substring};
use crate::runtime::{to_lowercase, lowercase};
use crate::services::train_service::TrainService;
use crate::services::fleet::{Criteria, CriteriaView, selected, page_of, page_number, page_size};
use crate::services::listing::limited;
use crate::services::analytics::{count_delayed, sum_delays, mean, mean_of, lemma_counts_bounded};

verus! {

/// Which trains a status query asks for.
#[derive(Debug)]
pub struct TrainStatusQuery {
    pub status: Option<TrainStatus>,
    pub section_id: Option<String>,
    pub priority: Option<TrainPriority>,
    pub delayed_only: Option<bool>,
    pub limit: Option<usize>,
}

/// What a telemetry update changes of a train; `None` leaves a field as it is.
#[derive(Debug)]
pub struct TrainUpdateRequest {
    pub position: Option<GeoPoint>,
    pub speed_kmh: Option<Milli>,
    pub delay_minutes: Option<i32>,
    pub status: Option<TrainStatus>,
    pub current_section: Option<String>,
}

#[derive(Debug)]
pub struct CreateTrainRequest {
    pub train_number: u32,
    pub name: String,
    pub priority: TrainPriority,
    pub route: Vec<String>,
    pub current_section: Option<String>,
    pub position: Option<GeoPoint>,
}

#[derive(Debug)]
pub struct UpdateTrainRequest {
    pub train_number: u32,
    pub name: String,
    pub priority: TrainPriority,
    pub route: Vec<String>,
    pub current_section: Option<String>,
    pub position: Option<GeoPoint>,
    pub status: Option<TrainStatus>,
    pub direction: Option<Direction>,
}

#[derive(Debug)]
pub struct TrainAnalyticsQuery {
    pub status: Option<TrainStatus>,
    pub priority: Option<TrainPriority>,
    pub section_id: Option<String>,
    pub delayed_only: Option<bool>,
    pub min_speed: Option<Milli>,
    pub max_speed: Option<Milli>,
    pub sort_by: Option<String>,
    pub limit: Option<usize>,
}

#[derive(Clone, Copy, Debug, PartialEq, Eq, Structural)]
pub struct PerformanceHistoryQuery {
    pub hours: Option<u32>,
}

impl PerformanceHistoryQuery {
    /// The hours asked for: a day where the query names none.
    pub fn hours_or_default(&self) -> (hours: u32)
        ensures
            hours == match self.hours {
                Some(h) => h,
                None => 24u32,
            },
    {
        match self.hours {
            Some(h) => h,
            None => 24,
        }
    }
}

#[derive(Debug)]
pub struct TrainListQuery {
    pub page: Option<usize>,
    pub per_page: Option<usize>,
    pub status: Option<TrainStatus>,
    pub search: Option<String>,
}

/// A train as the status endpoints show it.
#[derive(Debug)]
pub struct TrainStatusInfo {
    pub id: String,
    pub train_number: u32,
    pub name: String,
    pub priority: TrainPriority,
    pub current_section: String,
    pub position: GeoPoint,
    pub delay_minutes: i32,
    pub eta_next_station: Timestamp,
    pub speed_kmh: Milli,
    pub direction: Direction,
    pub status: TrainStatus,
    pub route: Vec<String>,
    pub updated_at: Timestamp,
}

pub struct TrainStatusInfoView {
    pub id: Seq<char>,
    pub train_number: u32,
    pub name: Seq<char>,
    pub priority: TrainPriority,
    pub current_section: Seq<char>,
    pub position: GeoPoint,
    pub delay_minutes: i32,
    pub eta_next_station: Timestamp,
    pub speed_kmh: Milli,
    pub direction: Direction,
    pub status: TrainStatus,
    pub route: Seq<Seq<char>>,
    pub updated_at: Timestamp,
}

impl View for TrainStatusInfo {
    type V = TrainStatusInfoView;

    open spec fn view(&self) -> TrainStatusInfoView {
        TrainStatusInfoView {
            id: self.id@,
            train_number: self.train_number,
            name: self.name@,
            priority: self.priority,
            current_section: self.current_section@,
            position: self.position,
            delay_minutes: self.delay_minutes,
            eta_next_station: self.eta_next_station,
            speed_kmh: self.speed_kmh,
            direction: self.direction,
            status: self.status,
            route: views(self.route@),
            updated_at: self.updated_at,
        }
    }
}

/// What the status endpoints show of a train: everything but its consist
/// and the instant of its registration.
pub open spec fn status_info_of(train: TrainView) -> TrainStatusInfoView {
    TrainStatusInfoView {
        id: train.id,
        train_number: train.train_number,
        name: train.name,
        priority: train.priority,
        current_section: train.current_section,
        position: train.position,
        delay_minutes: train.delay_minutes,
        eta_next_station: train.eta_next_station,
        speed_kmh: train.speed_kmh,
        direction: train.direction,
        status: train.status,
        route: train.route,
        updated_at: train.updated_at,
    }
}

impl TrainStatusInfo {
    pub fn from(train: Train) -> (info: TrainStatusInfo)
        ensures
            info@ == status_info_of(train@),
    {
        TrainStatusInfo {
            id: train.id,
            train_number: train.train_number,
            name: train.name,
            priority: train.priority,
            current_section: train.current_section,
            position: train.position,
            delay_minutes: train.delay_minutes,
            eta_next_station: train.eta_next_station,
            speed_kmh: train.speed_kmh,
            direction: train.direction,
            status: train.status,
            route: train.route,
            updated_at: train.updated_at,
        }
    }
}

#[derive(Debug)]
pub struct TrainStatusResponse {
    pub trains: Vec<TrainStatusInfo>,
    pub total_count: usize,
    pub delayed_count: usize,
    pub on_time_count: usize,
    pub average_delay_minutes: Milli,
    pub timestamp: Timestamp,
}

#[derive(Debug)]
pub struct TrainListResponse {
    pub trains: Vec<TrainStatusInfo>,
    pub total_count: usize,
    pub page: usize,
    pub per_page: usize,
    pub total_pages: usize,
    pub timestamp: Timestamp,
}

#[derive(Debug)]
pub struct DeleteTrainResponse {
    pub success: bool,
    pub message: String,
    pub timestamp: Timestamp,
}

/// The trains as the status endpoints show them, in order.
pub open spec fn status_infos(trains: Seq<TrainView>) -> Seq<TrainStatusInfoView> {
    trains.map_values(|t: TrainView| status_info_of(t))
}

impl TrainStatusQuery {
    /// The criteria that the query stands for. "Delayed only" asks for a
    /// delay of at least one minute.
    pub open spec fn criteria(&self) -> CriteriaView {
        CriteriaView {
            status: self.status,
            active_only: false,
            priority: self.priority,
            section_id: text_of(self.section_id),
            min_delay: if self.delayed_only == Some(true) {
                Some(1i32)
            } else {
                None
            },
            min_speed: None,
            max_speed: None,
        }
    }

    /// The trains that the query asks for.
    pub open spec fn listing(&self, trains: Seq<TrainView>) -> Seq<TrainView> {
        limited(selected(trains, self.criteria()), self.limit)
    }
}

impl TrainStatusResponse {
    /// Whether this is the summary of `trains`, written at `now`.
    pub open spec fn summarizes(&self, trains: Seq<TrainView>, now: Timestamp) -> bool {
        &&& views(self.trains@) == status_infos(trains)
        &&& self.total_count == trains.len()
        &&& self.delayed_count == count_delayed(trains)
        &&& self.on_time_count == trains.len() - count_delayed(trains)
        &&& self.average_delay_minutes == mean(sum_delays(trains) * 1000, trains.len() as int)
        &&& self.timestamp == now
    }

    /// The summary of a list of trains, written at `now`: how many there
    /// are, how many of them are late, and the mean delay of all.
    pub fn summarize(trains: Vec<Train>, now: Timestamp) -> (response: TrainStatusResponse)
        ensures
            response.summarizes(views(trains@), now),
    {
        let figures = TrainService::delay_figures(&trains);
        let total = trains.len();
        proof {
            lemma_counts_bounded(views(trains@));
        }
        let average = mean_of(figures.1 * 1000, total as u64);
        let ghost wanted = status_infos(views(trains@));
        let ghost fleet = trains@;
        let mut infos: Vec<TrainStatusInfo> = Vec::new();
        let mut i: usize = 0;
        while i < trains.len()
            invariant
                0 <= i <= trains.len(),
                fleet == trains@,
                wanted == status_infos(views(trains@)),
                views(infos@) == wanted.take(i as int),
            decreases trains.len() - i,
        {
            let ghost listed = views(infos@);
            let info = TrainStatusInfo::from(trains[i].clone());
            infos.push(info);
            assert(views(infos@) =~= listed.push(wanted[i as int]));
            assert(wanted.take(i as int + 1) =~= wanted.take(i as int).push(wanted[i as int]));
            i += 1;
        }
        assert(wanted.take(trains.len() as int) =~= wanted);
        TrainStatusResponse {
            trains: infos,
            total_count: total,
            delayed_count: figures.0,
            on_time_count: total - figures.0,
            average_delay_minutes: average,
            timestamp: now,
        }
    }
}

/// Whether a train matches a search word in lower case: the word occurs in
/// its name, read in lower case, or in its number.
pub open spec fn matches_search(train: TrainView, word: Seq<char>) -> bool {
    has_substring(lowercase(train.name), word) || has_substring(
        decimal(train.train_number as nat),
        word,
    )
}

/// The trains of a page that pass the status and the search of a list
/// query.
pub open spec fn searched(trains: Seq<TrainView>, status: Option<TrainStatus>, word: Option<
    Seq<char>,
>) -> Seq<TrainView>
    decreases trains.len(),
{
    if trains.len() == 0 {
        Seq::empty()
    } else {
        let earlier = searched(trains.drop_last(), status, word);
        let train = trains.last();
        if (status matches Some(s) ==> train.status == s) && (word matches Some(w)
            ==> matches_search(train, w)) {
            earlier.push(train)
        } else {
            earlier
        }
    }
}

/// How many pages `total` trains fill at `per_page` trains a page.
pub open spec fn pages_needed(total: int, per_page: int) -> int {
    (total + per_page - 1) / per_page
}

/// The train that a request to create one asks for, under `id` at `now`.
pub open spec fn requested_train(id: Seq<char>, now: Timestamp, request: CreateTrainRequest)
    -> TrainView {
    let fresh = Train::registered_view(
        id,
        now,
        request.train_number,
        request.name@,
        request.priority,
        views(request.route@),
    );
    TrainView {
        current_section: match request.current_section {
            Some(s) => s@,
            None => fresh.current_section,
        },
        position: match request.position {
            Some(p) => p,
            None => fresh.position,
        },
        ..fresh
    }
}

/// The train that a request to replace one leaves, at `now`: what the
/// request names is taken over, what it leaves open and what only
/// telemetry sets stays as the store holds it.
pub open spec fn replaced_train(
    train_id: Seq<char>,
    request: UpdateTrainRequest,
    existing: TrainView,
    now: Timestamp,
) -> TrainView {
    TrainView {
        id: train_id,
        train_number: request.train_number,
        name: request.name@,
        priority: request.priority,
        route: views(request.route@),
        current_section: match request.current_section {
            Some(s) => s@,
            None => existing.current_section,
        },
        position: match request.position {
            Some(p) => p,
            None => existing.position,
        },
        status: match request.status {
            Some(s) => s,
            None => existing.status,
        },
        direction: match request.direction {
            Some(d) => d,
            None => existing.direction,
        },
        delay_minutes: existing.delay_minutes,
        eta_next_station: existing.eta_next_station,
        speed_kmh: existing.speed_kmh,
        consist: existing.consist,
        created_at: existing.created_at,
        updated_at: now,
    }
}

/// The trains that a status query asks for, summarized at `now`.
pub fn get_train_status(trains: &Vec<Train>, query: &TrainStatusQuery, now: Timestamp) -> (response:
    TrainStatusResponse)
    ensures
        response.summarizes(query.listing(views(trains@)), now),
{
    let criteria = Criteria {
        status: query.status,
        active_only: false,
        priority: query.priority,
        section_id: match &query.section_id {
            Some(s) => Some(s.clone()),
            None => None,
        },
        min_delay: match query.delayed_only {
            Some(true) => Some(1),
            _ => None,
        },
        min_speed: None,
        max_speed: None,
    };
    let mut chosen = TrainService::select(trains, &criteria);
    match query.limit {
        Some(n) => {
            chosen.truncate(n);
            assert(views(chosen@) =~= query.listing(views(trains@)));
        },
        None => {},
    }
    TrainStatusResponse::summarize(chosen, now)
}

/// The late trains of a fleet, summarized at `now`.
pub fn get_delayed_trains(trains: &Vec<Train>, now: Timestamp) -> (response: TrainStatusResponse)
    ensures
        response.summarizes(
            selected(
                views(trains@),
                CriteriaView { min_delay: Some(1i32), ..CriteriaView::any() },
            ),
            now,
        ),
{
    let service = TrainService::new();
    TrainStatusResponse::summarize(service.get_delayed_trains(trains, 1), now)
}

/// The trains of one section, summarized at `now`.
pub fn get_trains_in_section(trains: &Vec<Train>, section_id: &str, now: Timestamp) -> (response:
    TrainStatusResponse)
    ensures
        response.summarizes(
            selected(
                views(trains@),
                CriteriaView { section_id: Some(section_id@), ..CriteriaView::any() },
            ),
            now,
        ),
{
    let service = TrainService::new();
    TrainStatusResponse::summarize(service.get_trains_in_section(trains, section_id), now)
}

/// The train that a request to create one asks for, under a fresh
/// identifier at the current instant.
pub fn create_train(request: CreateTrainRequest) -> (train: Train)
    ensures
        train@ == requested_train(train@.id, train@.created_at, request),
        train@.id.len() == 36,
{
    let mut train = Train::new(request.train_number, request.name, request.priority, request.route);
    match request.current_section {
        Some(section) => {
            train.current_section = section;
        },
        None => {},
    }
    match request.position {
        Some(position) => {
            train.position = position;
        },
        None => {},
    }
    train
}

/// The train that a request to replace the one under `train_id` leaves,
/// at `now`.
pub fn update_train(train_id: &str, request: UpdateTrainRequest, existing: Train, now: Timestamp) -> (train:
    Train)
    ensures
        train@ == replaced_train(train_id@, request, existing@, now),
{
    Train {
        id: train_id.to_owned(),
        train_number: request.train_number,
        name: request.name,
        priority: request.priority,
        route: request.route,
        current_section: match request.current_section {
            Some(s) => s,
            None => existing.current_section,
        },
        position: match request.position {
            Some(p) => p,
            None => existing.position,
        },
        status: match request.status {
            Some(s) => s,
            None => existing.status,
        },
        direction: match request.direction {
            Some(d) => d,
            None => existing.direction,
        },
        delay_minutes: existing.delay_minutes,
        eta_next_station: existing.eta_next_station,
        speed_kmh: existing.speed_kmh,
        consist: existing.consist,
        created_at: existing.created_at,
        updated_at: now,
    }
}

/// Whether a train matches a search word in lower case.
pub fn train_matches(train: &Train, word: &String) -> (matched: bool)
    ensures
        matched == matches_search(train@, word@),
{
    let name = to_lowercase(train.name.as_str());
    if contains(name.as_str(), word.as_str()) {
        return true;
    }
    let number = decimal_string(train.train_number as u64);
    contains(number.as_str(), word.as_str())
}

/// One page of the fleet for a list query, at `now`: the page is cut
/// first, then narrowed by status and by the search word, read in lower
/// case; the counts are those of the whole fleet.
pub fn get_all_trains(all_trains: &Vec<Train>, query: &TrainListQuery, now: Timestamp) -> (response:
    TrainListResponse)
    ensures
        views(response.trains@) == status_infos(
            searched(
                page_of(
                    views(all_trains@),
                    Some(page_number(query.page) as usize),
                    Some(page_size(query.per_page) as usize),
                ),
                query.status,
                match query.search {
                    Some(s) => Some(lowercase(s@)),
                    None => None,
                },
            ),
        ),
        response.total_count == all_trains@.len(),
        response.page == page_number(query.page),
        response.per_page == page_size(query.per_page),
        response.total_pages == pages_needed(
            all_trains@.len() as int,
            page_size(query.per_page),
        ),
        response.timestamp == now,
{
    let page: usize = match query.page {
        Some(p) => if p < 1 {
            1
        } else {
            p
        },
        None => 1,
    };
    let per_page: usize = match query.per_page {
        Some(n) => if n < 1 {
            1
        } else if n > 100 {
            100
        } else {
            n
        },
        None => 50,
    };
    let service = TrainService::new();
    let (listed, total_count) = service.get_all_trains_paginated(
        all_trains,
        Some(page),
        Some(per_page),
    );
    let word: Option<String> = match &query.search {
        Some(s) => Some(to_lowercase(s.as_str())),
        None => None,
    };
    let ghost sought = text_of(word);
    let ghost paged = views(listed@);
    let mut infos: Vec<TrainStatusInfo> = Vec::new();
    let mut i: usize = 0;
    assert(paged.take(0) =~= Seq::<TrainView>::empty());
    assert(views(infos@) =~= status_infos(searched(paged.take(0), query.status, sought)));
    while i < listed.len()
        invariant
            0 <= i <= listed.len(),
            paged == views(listed@),
            sought == text_of(word),
            views(infos@) == status_infos(searched(paged.take(i as int), query.status, sought)),
        decreases listed.len() - i,
    {
        let ghost shown = views(infos@);
        let ghost upto = paged.take(i as int + 1);
        assert(upto.drop_last() =~= paged.take(i as int));
        assert(upto.last() == listed@[i as int]@);
        let train = &listed[i];
        let status_ok = match query.status {
            Some(s) => train.status == s,
            None => true,
        };
        let search_ok = match &word {
            Some(w) => train_matches(train, w),
            None => true,
        };
        if status_ok && search_ok {
            infos.push(TrainStatusInfo::from(train.clone()));
            assert(views(infos@) =~= shown.push(status_info_of(train@)));
            assert(status_infos(searched(upto, query.status, sought)) =~= shown.push(
                status_info_of(train@),
            ));
        }
        i += 1;
    }
    assert(paged.take(listed.len() as int) =~= paged);
    assert((total_count + per_page - 1) / (per_page as int) <= total_count) by (nonlinear_arith)
        requires
            per_page >= 1,
            total_count >= 0,
    ;
    let pages: u128 = (total_count as u128 + per_page as u128 - 1) / per_page as u128;
    TrainListResponse {
        trains: infos,
        total_count,
        page,
        per_page,
        total_pages: pages as usize,
        timestamp: now,
    }
}

/// The answer to a deletion that succeeded at `now`.
pub fn delete_train(train_id: &str, now: Timestamp) -> (response: DeleteTrainResponse)
    ensures
        response.success,
        response.message@ == "Train "@ + train_id@ + " deleted successfully"@,
        response.timestamp == now,
{
    let mut message = "Train ".to_owned();
    message.append(train_id);
    message.append(" deleted successfully");
    DeleteTrainResponse { success: true, message, timestamp: now }
}

} // verus!
