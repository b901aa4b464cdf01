//! The rules by which synthetic trains are made up.

use vstd::prelude::*;
use crate::text::{contains, has_substring, is_text};
use crate::time::{Timestamp, MILLIS_PER_MINUTE};
use crate::models::{Milli, TrainPriority, RailwaySection, views};
use crate::models::train::{Train, TrainConsist, TrainConsistView, TrainStatus};
use crate::runtime::{random_in_range, current_time};
use crate::synthetic::{train_name_of, random_train_name};

verus! {

#[derive(Debug)]
pub struct TrainGenerator {}

/// The precedence class that the name of a train stands for: the first of
/// the known words that occurs in it decides, and a name without any is
/// that of a passenger train.
pub open spec fn priority_named(train_name: Seq<char>) -> TrainPriority {
    if has_substring(train_name, "Rajdhani"@) || has_substring(train_name, "Emergency"@) {
        TrainPriority::Emergency
    } else if has_substring(train_name, "Mail"@) {
        TrainPriority::Mail
    } else if has_substring(train_name, "Express"@) || has_substring(train_name, "Shatabdi"@) {
        TrainPriority::Express
    } else if has_substring(train_name, "Passenger"@) || has_substring(train_name, "Jan"@) {
        TrainPriority::Passenger
    } else if has_substring(train_name, "Freight"@) {
        TrainPriority::Freight
    } else {
        TrainPriority::Passenger
    }
}

/// The longest delay, in minutes, that a train of each class is made up
/// with.
pub open spec fn longest_delay(priority: TrainPriority) -> i32 {
    match priority {
        TrainPriority::Emergency => 2,
        TrainPriority::Mail => 5,
        TrainPriority::Express => 15,
        TrainPriority::Passenger => 30,
        TrainPriority::Freight => 60,
        TrainPriority::Maintenance => 10,
    }
}

/// The status that a draw from 0 to 5 stands for: half of the trains run.
pub open spec fn status_drawn(draw: int) -> TrainStatus {
    if draw <= 2 {
        TrainStatus::Running
    } else if draw == 3 {
        TrainStatus::AtStation
    } else if draw == 4 {
        TrainStatus::Delayed
    } else {
        TrainStatus::Scheduled
    }
}

/// How many trains a scenario holds, and the share of them that is
/// delayed further, in thousandths.
pub open spec fn scenario_load(scenario: Seq<char>) -> (usize, Milli) {
    if scenario == "normal"@ {
        (25, Milli { thousandths: 100 })
    } else if scenario == "peak_hour"@ {
        (60, Milli { thousandths: 250 })
    } else if scenario == "disruption"@ {
        (35, Milli { thousandths: 400 })
    } else if scenario == "maintenance"@ {
        (20, Milli { thousandths: 300 })
    } else {
        (30, Milli { thousandths: 150 })
    }
}

/// The range of minutes by which a train of a scenario is delayed further.
pub open spec fn scenario_delay_range(scenario: Seq<char>) -> (i32, i32) {
    if scenario == "peak_hour"@ {
        (5, 25)
    } else if scenario == "disruption"@ {
        (15, 60)
    } else if scenario == "maintenance"@ {
        (10, 40)
    } else {
        (0, 10)
    }
}

impl TrainGenerator {
    pub fn new() -> (generator: TrainGenerator) {
        TrainGenerator {  }
    }

    /// The precedence class that the name of a train stands for.
    pub fn determine_priority(&self, train_name: &str) -> (priority: TrainPriority)
        ensures
            priority == priority_named(train_name@),
    {
        if contains(train_name, "Rajdhani") || contains(train_name, "Emergency") {
            TrainPriority::Emergency
        } else if contains(train_name, "Mail") {
            TrainPriority::Mail
        } else if contains(train_name, "Express") || contains(train_name, "Shatabdi") {
            TrainPriority::Express
        } else if contains(train_name, "Passenger") || contains(train_name, "Jan") {
            TrainPriority::Passenger
        } else if contains(train_name, "Freight") {
            TrainPriority::Freight
        } else {
            TrainPriority::Passenger
        }
    }

    /// The longest delay that a train of the class is made up with.
    pub fn longest_delay(priority: TrainPriority) -> (minutes: i32)
        ensures
            minutes == longest_delay(priority),
    {
        match priority {
            TrainPriority::Emergency => 2,
            TrainPriority::Mail => 5,
            TrainPriority::Express => 15,
            TrainPriority::Passenger => 30,
            TrainPriority::Freight => 60,
            TrainPriority::Maintenance => 10,
        }
    }

    /// The delay of a made-up train of the class, from what chance decided:
    /// `drawn` minutes, or none for the one train in five that is on time.
    pub fn generate_delay(&self, priority: TrainPriority, drawn: i32, on_time: bool) -> (delay: i32)
        requires
            0 <= drawn <= longest_delay(priority),
        ensures
            delay == if on_time {
                0
            } else {
                drawn
            },
            0 <= delay <= longest_delay(priority),
    {
        if on_time {
            0
        } else {
            drawn
        }
    }

    /// The status that a draw from 0 to 5 stands for.
    pub fn random_train_status(&self, draw: u8) -> (status: TrainStatus)
        requires
            draw <= 5,
        ensures
            status == status_drawn(draw as int),
    {
        if draw <= 2 {
            TrainStatus::Running
        } else if draw == 3 {
            TrainStatus::AtStation
        } else if draw == 4 {
            TrainStatus::Delayed
        } else {
            TrainStatus::Scheduled
        }
    }

    /// The speed of a made-up train: a train at a station or at the end of
    /// its run stands, any other keeps the speed that chance decided.
    pub fn generate_speed(&self, status: TrainStatus, drawn: Milli) -> (speed: Milli)
        ensures
            speed == if status == TrainStatus::AtStation || status == TrainStatus::Terminated
                || status == TrainStatus::Cancelled {
                Milli { thousandths: 0 }
            } else {
                drawn
            },
    {
        match status {
            TrainStatus::AtStation | TrainStatus::Terminated | TrainStatus::Cancelled => Milli {
                thousandths: 0,
            },
            _ => drawn,
        }
    }

    /// How many trains a scenario holds, and the share of them that is
    /// delayed further.
    pub fn scenario_load(scenario: &String) -> (load: (usize, Milli))
        ensures
            load == scenario_load(scenario@),
    {
        if crate::text::is_text(scenario, "normal") {
            (25, Milli { thousandths: 100 })
        } else if crate::text::is_text(scenario, "peak_hour") {
            (60, Milli { thousandths: 250 })
        } else if crate::text::is_text(scenario, "disruption") {
            (35, Milli { thousandths: 400 })
        } else if crate::text::is_text(scenario, "maintenance") {
            (20, Milli { thousandths: 300 })
        } else {
            (30, Milli { thousandths: 150 })
        }
    }

    /// The range of minutes by which a train of a scenario is delayed
    /// further.
    pub fn scenario_delay_range(scenario: &String) -> (range: (i32, i32))
        ensures
            range == scenario_delay_range(scenario@),
            range.0 <= range.1,
    {
        if crate::text::is_text(scenario, "peak_hour") {
            (5, 25)
        } else if crate::text::is_text(scenario, "disruption") {
            (15, 60)
        } else if crate::text::is_text(scenario, "maintenance") {
            (10, 40)
        } else {
            (0, 10)
        }
    }
}

/// The longest route that is made up, in sections.
pub const LONGEST_ROUTE: usize = 6;

/// Whether a consist is one that is made up for a train of the given name:
/// the name decides the locomotive and the ranges of length and speed.
pub open spec fn consist_fits(train_name: Seq<char>, consist: TrainConsistView) -> bool {
    if has_substring(train_name, "Freight"@) {
        &&& consist.locomotive_type == "WAG-9"@
        &&& 20 <= consist.total_coaches <= 60
        &&& consist.passenger_coaches == 0
        &&& 20 <= consist.freight_wagons <= 60
        &&& 400_000 <= consist.total_length_meters.thousandths <= 1_200_000
        &&& 75_000 <= consist.max_speed_kmh.thousandths <= 100_000
    } else if has_substring(train_name, "Rajdhani"@) {
        &&& consist.locomotive_type == "WAP-7"@
        &&& 16 <= consist.total_coaches <= 24
        &&& 16 <= consist.passenger_coaches <= 24
        &&& consist.freight_wagons == 0
        &&& 400_000 <= consist.total_length_meters.thousandths <= 600_000
        &&& consist.max_speed_kmh.thousandths == 130_000
    } else if has_substring(train_name, "Shatabdi"@) {
        &&& consist.locomotive_type == "WAP-5"@
        &&& 8 <= consist.total_coaches <= 12
        &&& 8 <= consist.passenger_coaches <= 12
        &&& consist.freight_wagons == 0
        &&& 200_000 <= consist.total_length_meters.thousandths <= 300_000
        &&& consist.max_speed_kmh.thousandths == 150_000
    } else if has_substring(train_name, "Express"@) {
        &&& consist.locomotive_type == "WDM-3A"@ || consist.locomotive_type == "WAP-4"@
            || consist.locomotive_type == "WDP-4"@
        &&& 12 <= consist.total_coaches <= 20
        &&& 12 <= consist.passenger_coaches <= 20
        &&& consist.freight_wagons == 0
        &&& 300_000 <= consist.total_length_meters.thousandths <= 500_000
        &&& 110_000 <= consist.max_speed_kmh.thousandths <= 130_000
    } else {
        &&& consist.locomotive_type == "WDM-3A"@ || consist.locomotive_type == "WDP-4"@
            || consist.locomotive_type == "WAG-5"@
        &&& 8 <= consist.total_coaches <= 16
        &&& 8 <= consist.passenger_coaches <= 16
        &&& consist.freight_wagons == 0
        &&& 200_000 <= consist.total_length_meters.thousandths <= 400_000
        &&& 80_000 <= consist.max_speed_kmh.thousandths <= 110_000
    }
}

/// The range of minutes until the next station that is made up for a train
/// in each status, before its delay is added.
pub open spec fn eta_range(status: TrainStatus) -> (i64, i64) {
    match status {
        TrainStatus::AtStation => (2, 15),
        TrainStatus::Running => (15, 90),
        TrainStatus::Delayed => (20, 120),
        TrainStatus::Scheduled => (30, 180),
        _ => (60, 240),
    }
}

/// The range of speeds that is made up for a train: none for a train that
/// stands, a crawl for a scheduled train, else from 30 km/h up to seven
/// tenths of what the consist allows and no more than 120 km/h.
pub open spec fn speed_range(status: TrainStatus, max_speed: Milli) -> (i64, i64) {
    match status {
        TrainStatus::AtStation | TrainStatus::Terminated | TrainStatus::Cancelled => (0, 0),
        TrainStatus::Scheduled => (0, 10_000),
        _ => {
            let typical = max_speed.thousandths * 7 / 10;
            let top = if typical < 120_000 {
                typical
            } else {
                120_000
            };
            (
                30_000,
                if top < 30_000 {
                    30_000
                } else {
                    top as i64
                },
            )
        },
    }
}

/// Whether `route` lists places of `sections`, at least one and at most
/// six, no section under the same identifier twice.
pub open spec fn is_route(route: Seq<usize>, sections: Seq<RailwaySection>) -> bool {
    &&& 1 <= route.len() <= LONGEST_ROUTE
    &&& forall|k: int| 0 <= k < route.len() ==> #[trigger] route[k] < sections.len()
    &&& forall|a: int, b: int|
        0 <= a < b < route.len() ==> sections[#[trigger] route[a] as int].id@
            != sections[#[trigger] route[b] as int].id@
}

/// Whether `train` is a train as it is made up at place `index` for a
/// route through `sections`.
pub open spec fn is_made_up(train: Train, index: int, sections: Seq<RailwaySection>) -> bool {
    &&& train.id@.len() == 36
    &&& 10_000 + index <= train.train_number <= 10_000 + index + 9_999
    &&& exists|prefix: int, suffix: int|
        0 <= prefix <= 9 && 0 <= suffix <= 8 && train.name@ == #[trigger] train_name_of(
            prefix,
            suffix,
        )
    &&& train.priority == priority_named(train.name@)
    &&& 1 <= train.route@.len() <= LONGEST_ROUTE
    &&& forall|k: int|
        0 <= k < train.route@.len() ==> exists|m: int|
            0 <= m < sections.len() && (#[trigger] train.route@[k])@ == sections[m].id@
    &&& train.current_section@ == train.route@[0]@
    &&& 0 <= train.delay_minutes <= longest_delay(train.priority)
    &&& train.delay_minutes > 0 ==> train.status == TrainStatus::Delayed
    &&& speed_range(train.status, TrainConsist::default_view().max_speed_kmh).0
        <= train.speed_kmh.thousandths <= speed_range(
        train.status,
        TrainConsist::default_view().max_speed_kmh,
    ).1
    &&& consist_fits(train.name@, train.consist@)
}

fn draw_u32(low: u32, high: u32) -> (drawn: u32)
    requires
        low <= high,
    ensures
        low <= drawn <= high,
{
    random_in_range(low as i64, high as i64) as u32
}

/// A place in a list of `len` items, drawn at random.
pub(crate) fn draw_index(len: usize) -> (place: usize)
    requires
        len > 0,
    ensures
        place < len,
{
    let last: u64 = (len - 1) as u64;
    let bound: i64 = if last > 0x7fff_ffff_ffff_ffff {
        i64::MAX
    } else {
        last as i64
    };
    random_in_range(0, bound) as usize
}

fn draw_milli(low: i64, high: i64) -> (drawn: Milli)
    requires
        low <= high,
    ensures
        low <= drawn.thousandths <= high,
{
    Milli { thousandths: random_in_range(low, high) }
}

impl TrainGenerator {
    /// The range of speeds that is made up for a train.
    pub fn speed_range(status: TrainStatus, max_speed: Milli) -> (range: (i64, i64))
        ensures
            range == speed_range(status, max_speed),
            range.0 <= range.1,
    {
        match status {
            TrainStatus::AtStation | TrainStatus::Terminated | TrainStatus::Cancelled => (0, 0),
            TrainStatus::Scheduled => (0, 10_000),
            _ => {
                let wide: i128 = max_speed.thousandths as i128 * 7;
                let typical: i128 = if wide >= 0 {
                    wide / 10
                } else {
                    -((-wide + 9) / 10)
                };
                let top: i128 = if typical < 120_000 {
                    typical
                } else {
                    120_000
                };
                (
                    30_000,
                    if top < 30_000 {
                        30_000
                    } else {
                        top as i64
                    },
                )
            },
        }
    }

    /// A consist for a train of the given name, with fresh draws.
    pub fn generate_consist(&self, train_name: &str) -> (consist: TrainConsist)
        ensures
            consist_fits(train_name@, consist@),
    {
        if contains(train_name, "Freight") {
            TrainConsist {
                locomotive_type: "WAG-9".to_owned(),
                total_coaches: draw_u32(20, 60),
                passenger_coaches: 0,
                freight_wagons: draw_u32(20, 60),
                total_length_meters: draw_milli(400_000, 1_200_000),
                max_speed_kmh: draw_milli(75_000, 100_000),
            }
        } else if contains(train_name, "Rajdhani") {
            TrainConsist {
                locomotive_type: "WAP-7".to_owned(),
                total_coaches: draw_u32(16, 24),
                passenger_coaches: draw_u32(16, 24),
                freight_wagons: 0,
                total_length_meters: draw_milli(400_000, 600_000),
                max_speed_kmh: Milli { thousandths: 130_000 },
            }
        } else if contains(train_name, "Shatabdi") {
            TrainConsist {
                locomotive_type: "WAP-5".to_owned(),
                total_coaches: draw_u32(8, 12),
                passenger_coaches: draw_u32(8, 12),
                freight_wagons: 0,
                total_length_meters: draw_milli(200_000, 300_000),
                max_speed_kmh: Milli { thousandths: 150_000 },
            }
        } else if contains(train_name, "Express") {
            let pick = draw_u32(0, 2);
            TrainConsist {
                locomotive_type: if pick == 0 {
                    "WDM-3A".to_owned()
                } else if pick == 1 {
                    "WAP-4".to_owned()
                } else {
                    "WDP-4".to_owned()
                },
                total_coaches: draw_u32(12, 20),
                passenger_coaches: draw_u32(12, 20),
                freight_wagons: 0,
                total_length_meters: draw_milli(300_000, 500_000),
                max_speed_kmh: draw_milli(110_000, 130_000),
            }
        } else {
            let pick = draw_u32(0, 2);
            TrainConsist {
                locomotive_type: if pick == 0 {
                    "WDM-3A".to_owned()
                } else if pick == 1 {
                    "WDP-4".to_owned()
                } else {
                    "WAG-5".to_owned()
                },
                total_coaches: draw_u32(8, 16),
                passenger_coaches: draw_u32(8, 16),
                freight_wagons: 0,
                total_length_meters: draw_milli(200_000, 400_000),
                max_speed_kmh: draw_milli(80_000, 110_000),
            }
        }
    }

    /// When a made-up train is due at its next station, from `now`: the
    /// minutes that chance decided for its status, and its delay on top.
    pub fn eta_at(status: TrainStatus, delay_minutes: i32, base_minutes: i64, now: Timestamp) -> (eta:
        Timestamp)
        requires
            eta_range(status).0 <= base_minutes <= eta_range(status).1,
        ensures
            eta == now.spec_plus_millis((base_minutes + delay_minutes) * MILLIS_PER_MINUTE),
    {
        now.plus_millis((base_minutes + delay_minutes as i64) * MILLIS_PER_MINUTE)
    }

    /// When a made-up train is due at its next station, from the current
    /// instant and with a fresh draw.
    pub fn calculate_eta(&self, train: &Train) -> (eta: Timestamp)
        ensures
            exists|now: Timestamp, base: int|
                eta_range(train.status).0 <= base <= eta_range(train.status).1 && eta
                    == #[trigger] now.spec_plus_millis(
                    (base + train.delay_minutes) * MILLIS_PER_MINUTE,
                ),
    {
        let (low, high): (i64, i64) = match train.status {
            TrainStatus::AtStation => (2, 15),
            TrainStatus::Running => (15, 90),
            TrainStatus::Delayed => (20, 120),
            TrainStatus::Scheduled => (30, 180),
            _ => (60, 240),
        };
        let base = random_in_range(low, high);
        let now = current_time();
        let eta = TrainGenerator::eta_at(train.status, train.delay_minutes, base, now);
        assert(eta == now.spec_plus_millis((base + train.delay_minutes) * MILLIS_PER_MINUTE));
        eta
    }

    /// A route through the sections, with fresh draws: it starts at a
    /// section drawn at random and goes on through further draws, a section
    /// that is drawn again being passed over. Without sections there is no
    /// route.
    pub fn generate_route(&self, sections: &Vec<RailwaySection>) -> (route: Result<
        Vec<usize>,
        String,
    >)
        ensures
            sections@.len() == 0 ==> (route matches Err(e) && e@
                == "No sections available for route generation"@),
            sections@.len() > 0 ==> (route matches Ok(r) && is_route(r@, sections@)),
    {
        if sections.len() == 0 {
            return Err("No sections available for route generation".to_owned());
        }
        let most: usize = if sections.len() < LONGEST_ROUTE {
            sections.len()
        } else {
            LONGEST_ROUTE
        };
        let length: usize = if most < 2 {
            1
        } else {
            random_in_range(2, most as i64) as usize
        };
        let mut route: Vec<usize> = Vec::new();
        route.push(draw_index(sections.len()));
        let mut step: usize = 1;
        while step < length
            invariant
                1 <= step <= length <= LONGEST_ROUTE,
                sections@.len() > 0,
                1 <= route@.len() <= step,
                forall|k: int| 0 <= k < route@.len() ==> #[trigger] route@[k] < sections@.len(),
                forall|a: int, b: int|
                    0 <= a < b < route@.len() ==> sections@[#[trigger] route@[a] as int].id@
                        != sections@[#[trigger] route@[b] as int].id@,
            decreases length - step,
        {
            let next = draw_index(sections.len());
            let mut seen = false;
            let mut k: usize = 0;
            while k < route.len()
                invariant
                    0 <= k <= route@.len(),
                    next < sections@.len(),
                    forall|m: int| 0 <= m < route@.len() ==> #[trigger] route@[m] < sections@.len(),
                    seen <==> exists|m: int|
                        0 <= m < k && sections@[#[trigger] route@[m] as int].id@
                            == sections@[next as int].id@,
                decreases route.len() - k,
            {
                if sections[route[k]].id == sections[next].id {
                    seen = true;
                }
                k += 1;
            }
            if !seen {
                let ghost before = route@;
                route.push(next);
                assert forall|a: int, b: int| 0 <= a < b < route@.len() implies sections@[
                #[trigger] route@[a] as int].id@ != sections@[#[trigger] route@[b] as int].id@ by {
                    if b < before.len() {
                        assert(route@[a] == before[a] && route@[b] == before[b]);
                    } else {
                        assert(route@[a] == before[a]);
                    }
                }
            }
            step += 1;
        }
        Ok(route)
    }

    /// `count` made-up trains with routes through the sections, with fresh
    /// draws. Without sections no train can be made up.
    pub fn generate_trains_with_routes(&self, count: usize, sections: &Vec<RailwaySection>) -> (trains:
        Result<Vec<Train>, String>)
        requires
            count + 19_999 <= u32::MAX,
        ensures
            count > 0 && sections@.len() == 0 ==> (trains matches Err(e) && e@
                == "No sections available for route generation"@),
            count == 0 || sections@.len() > 0 ==> (trains matches Ok(list) && list@.len() == count
                && forall|i: int| 0 <= i < count ==> is_made_up(#[trigger] list@[i], i, sections@)),
    {
        let mut trains: Vec<Train> = Vec::new();
        let mut i: usize = 0;
        while i < count
            invariant
                0 <= i <= count,
                count + 19_999 <= u32::MAX,
                i > 0 ==> sections@.len() > 0,
                trains@.len() == i,
                forall|k: int| 0 <= k < i ==> is_made_up(#[trigger] trains@[k], k, sections@),
            decreases count - i,
        {
            let train_number: u32 = 10_000 + i as u32 + draw_u32(0, 9_999);
            let name = random_train_name(train_number);
            let priority = self.determine_priority(name.as_str());
            let places = match self.generate_route(sections) {
                Ok(places) => places,
                Err(e) => {
                    return Err(e);
                },
            };
            let mut route: Vec<String> = Vec::new();
            let mut k: usize = 0;
            while k < places.len()
                invariant
                    0 <= k <= places@.len(),
                    is_route(places@, sections@),
                    route@.len() == k,
                    forall|m: int|
                        0 <= m < k ==> (#[trigger] route@[m])@ == sections@[places@[m] as int].id@,
                decreases places.len() - k,
            {
                route.push(sections[places[k]].id.clone());
                k += 1;
            }
            let first = &sections[places[0]];
            let ghost route_view = route@;
            let mut train = Train::new(train_number, name, priority, route);
            train.current_section = first.id.clone();
            train.position = first.start_coordinates;
            train.status = self.random_train_status(draw_u32(0, 5) as u8);
            let drawn = draw_u32(0, TrainGenerator::longest_delay(priority) as u32) as i32;
            train.delay_minutes = self.generate_delay(priority, drawn, draw_u32(0, 4) == 0);
            if train.delay_minutes > 0 {
                train.status = TrainStatus::Delayed;
            }
            let range = TrainGenerator::speed_range(train.status, train.consist.max_speed_kmh);
            train.speed_kmh = draw_milli(range.0, range.1);
            train.eta_next_station = self.calculate_eta(&train);
            train.consist = self.generate_consist(train.name.as_str());
            proof {
                assert(views(train.route@) == views(route_view));
                assert(train.route@.len() == route_view.len());
                assert forall|m: int| 0 <= m < train.route@.len() implies exists|n: int|
                    0 <= n < sections@.len() && (#[trigger] train.route@[m])@
                        == sections@[n].id@ by {
                    assert(views(train.route@)[m] == views(route_view)[m]);
                    assert(route_view[m]@ == sections@[places@[m] as int].id@);
                }
                assert(views(train.route@)[0] == views(route_view)[0]);
                assert(is_made_up(train, i as int, sections@));
            }
            let ghost before = trains@;
            trains.push(train);
            assert forall|k: int| 0 <= k < i + 1 implies is_made_up(
                #[trigger] trains@[k],
                k,
                sections@,
            ) by {
                if k < i {
                    assert(trains@[k] == before[k]);
                }
            }
            i += 1;
        }
        Ok(trains)
    }

    /// The made-up trains of a scenario: as many as the scenario holds, the
    /// share that the scenario names delayed further by the minutes that it
    /// names.
    pub fn generate_scenario_trains(&self, scenario: &String, sections: &Vec<RailwaySection>) -> (trains:
        Result<Vec<Train>, String>)
        ensures
            sections@.len() == 0 ==> trains is Err,
            sections@.len() > 0 ==> (trains matches Ok(list) && list@.len() == scenario_load(
                scenario@,
            ).0 && forall|i: int|
                0 <= i < list@.len() ==> 0 <= (#[trigger] list@[i]).delay_minutes <= 120 && (
                list@[i].delay_minutes > 0 ==> list@[i].status == TrainStatus::Delayed)),
    {
        let (count, share) = TrainGenerator::scenario_load(scenario);
        let range = TrainGenerator::scenario_delay_range(scenario);
        let made = match self.generate_trains_with_routes(count, sections) {
            Ok(list) => list,
            Err(e) => {
                return Err(e);
            },
        };
        let mut trains: Vec<Train> = Vec::new();
        let mut i: usize = 0;
        while i < made.len()
            invariant
                0 <= i <= made@.len(),
                0 <= range.0 <= range.1 <= 60,
                trains@.len() == i,
                forall|k: int| 0 <= k < made@.len() ==> is_made_up(#[trigger] made@[k], k, sections@),
                forall|k: int|
                    0 <= k < i ==> 0 <= (#[trigger] trains@[k]).delay_minutes <= 120 && (
                    trains@[k].delay_minutes > 0 ==> trains@[k].status == TrainStatus::Delayed),
            decreases made.len() - i,
        {
            let mut train = made[i].clone();
            assert(is_made_up(made@[i as int], i as int, sections@));
            if random_in_range(0, 999) < share.thousandths {
                let more = random_in_range(range.0 as i64, range.1 as i64) as i32;
                train.add_delay(more);
            }
            let ghost before = trains@;
            trains.push(train);
            assert forall|k: int| 0 <= k < i + 1 implies 0 <= (#[trigger] trains@[k]).delay_minutes
                <= 120 && (trains@[k].delay_minutes > 0 ==> trains@[k].status
                == TrainStatus::Delayed) by {
                if k < i {
                    assert(trains@[k] == before[k]);
                }
            }
            i += 1;
        }
        Ok(trains)
    }
}

} // verus!
