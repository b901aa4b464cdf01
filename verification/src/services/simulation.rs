//! What-if simulation: the locally made answer to a scenario.

use vstd::prelude::*;
use crate::time::{Timestamp, clamp_i64, div_toward_zero};
use crate::models::{Milli, views};
use crate::runtime::{current_time, random_in_range};
use crate::services::ServiceResult;
use crate::services::optimization_service::{OptimizationService, SimulationRequest,
    SimulationResponse, SimulationResults, SimulationEvent, PerformanceComparison};

verus! {

/// What chance decides for a simulation.
#[derive(Clone, Copy, Debug, PartialEq, Eq, Structural)]
pub struct SimulationDraws {
    /// Minutes of delay without the changes, from 10 to 30.
    pub baseline_delay: Milli,
    /// The share of the delay that stays with the changes, from 0.7 to 0.95.
    pub delay_factor: Milli,
    /// Trains per hour without the changes, from 15 to 25.
    pub baseline_throughput: Milli,
    /// The factor by which throughput grows with the changes, from 1.05 to
    /// 1.2.
    pub throughput_gain: Milli,
    /// Trains processed beyond those of the request, from 0 to 5.
    pub extra_trains: u32,
    /// From 0 to 3.
    pub conflicts_detected: u32,
    /// Percent, from 75 to 95.
    pub utilization: Milli,
}

impl SimulationDraws {
    /// Whether every draw lies in the range that the simulation draws from.
    pub open spec fn in_range(self) -> bool {
        &&& 10_000 <= self.baseline_delay.thousandths <= 30_000
        &&& 700 <= self.delay_factor.thousandths <= 950
        &&& 15_000 <= self.baseline_throughput.thousandths <= 25_000
        &&& 1050 <= self.throughput_gain.thousandths <= 1200
        &&& self.extra_trains <= 5
        &&& self.conflicts_detected <= 3
        &&& 75_000 <= self.utilization.thousandths <= 95_000
    }
}

/// `value` times `factor`, rounded toward zero and held in range.
pub open spec fn scaled(value: Milli, factor: Milli) -> Milli {
    Milli {
        thousandths: clamp_i64(
            div_toward_zero(value.thousandths * factor.thousandths, 1000),
        ) as i64,
    }
}

/// By how many percent `changed` differs from a positive `base`, rounded
/// toward zero and held in range; zero for a base that is not positive.
pub open spec fn change_percent(base: Milli, changed: Milli) -> Milli {
    if base.thousandths > 0 {
        Milli {
            thousandths: clamp_i64(
                div_toward_zero(
                    (changed.thousandths - base.thousandths) * 100_000,
                    base.thousandths as int,
                ),
            ) as i64,
        }
    } else {
        Milli { thousandths: 0 }
    }
}

/// By how many percent `reduced` lies below a positive `base`, rounded
/// toward zero and held in range; zero for a base that is not positive.
pub open spec fn reduction_percent(base: Milli, reduced: Milli) -> Milli {
    if base.thousandths > 0 {
        Milli {
            thousandths: clamp_i64(
                div_toward_zero(
                    (base.thousandths - reduced.thousandths) * 100_000,
                    base.thousandths as int,
                ),
            ) as i64,
        }
    } else {
        Milli { thousandths: 0 }
    }
}

/// The comparison that the draws stand for: the delay falls by the share
/// that does not stay, the throughput grows by the gain.
pub open spec fn comparison_from(draws: SimulationDraws) -> PerformanceComparison {
    let scenario_delay = scaled(draws.baseline_delay, draws.delay_factor);
    let scenario_throughput = scaled(draws.baseline_throughput, draws.throughput_gain);
    PerformanceComparison {
        baseline_delay_minutes: draws.baseline_delay,
        scenario_delay_minutes: scenario_delay,
        improvement_percent: reduction_percent(draws.baseline_delay, scenario_delay),
        baseline_throughput: draws.baseline_throughput,
        scenario_throughput,
        throughput_improvement_percent: change_percent(
            draws.baseline_throughput,
            scenario_throughput,
        ),
    }
}

/// The trains that a simulation reports as processed, no more than the
/// field holds.
pub open spec fn trains_processed(requested: nat, extra: u32) -> u32 {
    if requested + extra > u32::MAX {
        u32::MAX
    } else {
        (requested + extra) as u32
    }
}

/// Whether `response` is the locally made answer to `request`, at `now`
/// and with `draws`.
pub open spec fn simulates(
    response: SimulationResponse,
    request: SimulationRequest,
    now: Timestamp,
    draws: SimulationDraws,
) -> bool {
    &&& response.success
    &&& response.scenario_name@ == request.scenario_name@
    &&& response.simulation_results.total_trains_processed == trains_processed(
        request.base_trains@.len(),
        draws.extra_trains,
    )
    &&& response.simulation_results.average_delay_minutes == scaled(
        draws.baseline_delay,
        draws.delay_factor,
    )
    &&& response.simulation_results.throughput_trains_per_hour == scaled(
        draws.baseline_throughput,
        draws.throughput_gain,
    )
    &&& response.simulation_results.conflicts_detected == draws.conflicts_detected
    &&& response.simulation_results.utilization_percent == draws.utilization
    &&& response.simulation_results.timeline_events@.len() == 1
    &&& response.simulation_results.timeline_events@[0].timestamp == now
    &&& response.simulation_results.timeline_events@[0].event_type@ == "TrainDeparture"@
    &&& response.simulation_results.timeline_events@[0].train_id@ == "T12345"@
    &&& response.simulation_results.timeline_events@[0].section_id@ == request.section_id@
    &&& response.simulation_results.timeline_events@[0].description@
        == "Express train departed on schedule"@
    &&& response.performance_comparison == comparison_from(draws)
    &&& views(response.recommendations@) == seq![
        "Consider implementing dynamic platform assignment"@,
        "Optimize signal timing for peak hours"@,
        "Review freight train scheduling during passenger peak times"@,
    ]
}

/// With draws in range the scenario is always better than the baseline:
/// less delay and more throughput, each by more than nothing.
pub proof fn lemma_simulation_improves(draws: SimulationDraws)
    requires
        draws.in_range(),
    ensures
        comparison_from(draws).scenario_delay_minutes.thousandths
            < draws.baseline_delay.thousandths,
        comparison_from(draws).scenario_delay_minutes.thousandths >= 7_000,
        comparison_from(draws).improvement_percent.thousandths > 0,
        comparison_from(draws).scenario_throughput.thousandths
            > draws.baseline_throughput.thousandths,
        comparison_from(draws).throughput_improvement_percent.thousandths > 0,
{
    let b = draws.baseline_delay.thousandths as int;
    let f = draws.delay_factor.thousandths as int;
    let s = b * f / 1000;
    assert(7_000 <= s && s * 1000 <= b * 950 && b * f >= 0) by (nonlinear_arith)
        requires
            10_000 <= b <= 30_000,
            700 <= f <= 950,
            s == b * f / 1000,
    ;
    assert(s < b);
    let gain = (b - s) * 100_000;
    assert(gain / b >= 1 && gain >= 0 && gain / b <= gain) by (nonlinear_arith)
        requires
            gain == (b - s) * 100_000,
            10_000 <= b <= 30_000,
            s * 1000 <= b * 950,
            s >= 0,
    ;
    let t = draws.baseline_throughput.thousandths as int;
    let g = draws.throughput_gain.thousandths as int;
    let u = t * g / 1000;
    assert(u * 1000 > t * 1049 && u <= 30_000 && t * g >= 0) by (nonlinear_arith)
        requires
            15_000 <= t <= 25_000,
            1050 <= g <= 1200,
            u == t * g / 1000,
    ;
    assert(u > t);
    let more = (u - t) * 100_000;
    assert(more / t >= 1 && more >= 0 && more / t <= more) by (nonlinear_arith)
        requires
            more == (u - t) * 100_000,
            15_000 <= t <= 25_000,
            u * 1000 > t * 1049,
            u <= 30_000,
    ;
}

fn scale(value: Milli, factor: Milli) -> (product: Milli)
    ensures
        product == scaled(value, factor),
{
    assert(-0x4000_0000_0000_0000_0000_0000_0000_0000 <= value.thousandths * factor.thousandths
        <= 0x4000_0000_0000_0000_0000_0000_0000_0000) by (nonlinear_arith)
        requires
            -0x8000_0000_0000_0000 <= value.thousandths <= 0x7fff_ffff_ffff_ffff,
            -0x8000_0000_0000_0000 <= factor.thousandths <= 0x7fff_ffff_ffff_ffff,
    ;
    let wide: i128 = value.thousandths as i128 * factor.thousandths as i128;
    let quotient: i128 = if wide >= 0 {
        wide / 1000
    } else {
        -((-wide) / 1000)
    };
    let held: i64 = if quotient < i64::MIN as i128 {
        i64::MIN
    } else if quotient > i64::MAX as i128 {
        i64::MAX
    } else {
        quotient as i64
    };
    Milli { thousandths: held }
}

fn percent_reduction(base: Milli, reduced: Milli) -> (percent: Milli)
    ensures
        percent == reduction_percent(base, reduced),
{
    if base.thousandths <= 0 {
        return Milli { thousandths: 0 };
    }
    let wide: i128 = (base.thousandths as i128 - reduced.thousandths as i128) * 100_000;
    let divisor: i128 = base.thousandths as i128;
    let quotient: i128 = if wide >= 0 {
        wide / divisor
    } else {
        -((-wide) / divisor)
    };
    let held: i64 = if quotient < i64::MIN as i128 {
        i64::MIN
    } else if quotient > i64::MAX as i128 {
        i64::MAX
    } else {
        quotient as i64
    };
    Milli { thousandths: held }
}

fn percent_change(base: Milli, changed: Milli) -> (percent: Milli)
    ensures
        percent == change_percent(base, changed),
{
    if base.thousandths <= 0 {
        return Milli { thousandths: 0 };
    }
    let wide: i128 = (changed.thousandths as i128 - base.thousandths as i128) * 100_000;
    let divisor: i128 = base.thousandths as i128;
    let quotient: i128 = if wide >= 0 {
        wide / divisor
    } else {
        -((-wide) / divisor)
    };
    let held: i64 = if quotient < i64::MIN as i128 {
        i64::MIN
    } else if quotient > i64::MAX as i128 {
        i64::MAX
    } else {
        quotient as i64
    };
    Milli { thousandths: held }
}

impl OptimizationService {
    /// The comparison that the draws stand for.
    pub fn compare(draws: SimulationDraws) -> (comparison: PerformanceComparison)
        ensures
            comparison == comparison_from(draws),
    {
        let scenario_delay = scale(draws.baseline_delay, draws.delay_factor);
        let scenario_throughput = scale(draws.baseline_throughput, draws.throughput_gain);
        PerformanceComparison {
            baseline_delay_minutes: draws.baseline_delay,
            scenario_delay_minutes: scenario_delay,
            improvement_percent: percent_reduction(draws.baseline_delay, scenario_delay),
            baseline_throughput: draws.baseline_throughput,
            scenario_throughput,
            throughput_improvement_percent: percent_change(
                draws.baseline_throughput,
                scenario_throughput,
            ),
        }
    }

    /// The locally made answer to a scenario, at `now` and with what chance
    /// decided in `draws`.
    pub fn simulation_response(&self, request: &SimulationRequest, now: Timestamp, draws: SimulationDraws) -> (response:
        SimulationResponse)
        ensures
            simulates(response, *request, now, draws),
    {
        let comparison = OptimizationService::compare(draws);
        let total: u32 = if request.base_trains.len() > (u32::MAX - draws.extra_trains) as usize {
            u32::MAX
        } else {
            request.base_trains.len() as u32 + draws.extra_trains
        };
        let mut timeline_events: Vec<SimulationEvent> = Vec::new();
        timeline_events.push(
            SimulationEvent {
                timestamp: now,
                event_type: "TrainDeparture".to_owned(),
                train_id: "T12345".to_owned(),
                section_id: request.section_id.clone(),
                description: "Express train departed on schedule".to_owned(),
            },
        );
        let mut recommendations: Vec<String> = Vec::new();
        recommendations.push("Consider implementing dynamic platform assignment".to_owned());
        recommendations.push("Optimize signal timing for peak hours".to_owned());
        recommendations.push(
            "Review freight train scheduling during passenger peak times".to_owned(),
        );
        assert(views(recommendations@) =~= seq![
            "Consider implementing dynamic platform assignment"@,
            "Optimize signal timing for peak hours"@,
            "Review freight train scheduling during passenger peak times"@,
        ]);
        SimulationResponse {
            success: true,
            scenario_name: request.scenario_name.clone(),
            simulation_results: SimulationResults {
                total_trains_processed: total,
                average_delay_minutes: comparison.scenario_delay_minutes,
                throughput_trains_per_hour: comparison.scenario_throughput,
                conflicts_detected: draws.conflicts_detected,
                utilization_percent: draws.utilization,
                timeline_events,
            },
            performance_comparison: comparison,
            recommendations,
        }
    }

    /// Lets chance decide what a simulation leaves open.
    pub fn draw_simulation() -> (draws: SimulationDraws)
        ensures
            draws.in_range(),
    {
        SimulationDraws {
            baseline_delay: Milli { thousandths: random_in_range(10_000, 30_000) },
            delay_factor: Milli { thousandths: random_in_range(700, 950) },
            baseline_throughput: Milli { thousandths: random_in_range(15_000, 25_000) },
            throughput_gain: Milli { thousandths: random_in_range(1050, 1200) },
            extra_trains: random_in_range(0, 5) as u32,
            conflicts_detected: random_in_range(0, 3) as u32,
            utilization: Milli { thousandths: random_in_range(75_000, 95_000) },
        }
    }

    /// Answers a scenario locally, at the current instant and with fresh
    /// draws.
    pub fn mock_simulation(&self, request: &SimulationRequest) -> (response: ServiceResult<
        SimulationResponse,
    >)
        ensures
            response is Ok,
            exists|now: Timestamp, draws: SimulationDraws|
                draws.in_range() && #[trigger] simulates(response.unwrap(), *request, now, draws),
    {
        let now = current_time();
        let draws = OptimizationService::draw_simulation();
        let response = Ok(self.simulation_response(request, now, draws));
        assert(simulates(response.unwrap(), *request, now, draws));
        response
    }

    /// Simulates a scenario. The answer is always made locally and never
    /// fails; it names the scenario, and its scenario improves on the
    /// baseline.
    pub fn simulate_scenario(&self, request: &SimulationRequest) -> (response: ServiceResult<
        SimulationResponse,
    >)
        ensures
            response matches Ok(r) && r.success && r.scenario_name@ == request.scenario_name@
                && r.performance_comparison.improvement_percent.thousandths > 0
                && r.recommendations@.len() == 3,
            exists|now: Timestamp, draws: SimulationDraws|
                draws.in_range() && #[trigger] simulates(response.unwrap(), *request, now, draws),
    {
        let response = self.mock_simulation(request);
        proof {
            let (now, draws) = choose|now: Timestamp, draws: SimulationDraws|
                draws.in_range() && #[trigger] simulates(response.unwrap(), *request, now, draws);
            lemma_simulation_improves(draws);
            assert(views(response.unwrap().recommendations@).len() == 3);
        }
        response
    }
}

} // verus!
