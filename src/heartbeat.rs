//! The heartbeat indicator: two outputs lit one after the other, each for a
//! randomly drawn on-time.

use rand::Rng;
use vstd::prelude::*;

verus! {

/// Shortest on-time of an indicator, in milliseconds.
pub const ON_TIME_MIN_MS: u32 = 500;

/// Bound (exclusive) on the on-time of an indicator, in milliseconds.
pub const ON_TIME_END_MS: u32 = 2000;

/// Relies on rand::thread_rng and rand::Rng::gen_range: a value drawn from
/// `low..high`, which it never leaves; `gen_range` panics on an empty range,
/// which `requires` rules out.
#[verifier::external_body]
fn draw_in_range(low: u32, high: u32) -> (r: u32)
    requires
        low < high,
    ensures
        low <= r < high,
{
    rand::thread_rng().gen_range(low..high)
}

/// The two indicators.
#[derive(Clone, Copy, Debug, PartialEq, Eq, Structural)]
pub enum Indicator {
    Green,
    Red,
}

/// One output operation of a heartbeat cycle.
#[derive(Clone, Copy, Debug, PartialEq, Eq, Structural)]
pub enum IndicatorCommand {
    On(Indicator),
    Off(Indicator),
    DelayMs(u32),
}

/// The on-times of one heartbeat cycle.
#[derive(Clone, Copy, Debug, PartialEq, Eq, Structural)]
pub struct BlinkCycle {
    pub green_ms: u32,
    pub red_ms: u32,
}

/// True when both on-times lie in the allowed range.
pub open spec fn valid_cycle(c: BlinkCycle) -> bool {
    ON_TIME_MIN_MS <= c.green_ms < ON_TIME_END_MS && ON_TIME_MIN_MS <= c.red_ms < ON_TIME_END_MS
}

/// Draws the on-times of the next cycle, independently for each indicator.
pub fn plan_blink_cycle() -> (r: BlinkCycle)
    ensures
        valid_cycle(r),
{
    let green_ms = draw_in_range(ON_TIME_MIN_MS, ON_TIME_END_MS);
    let red_ms = draw_in_range(ON_TIME_MIN_MS, ON_TIME_END_MS);
    BlinkCycle { green_ms, red_ms }
}

/// The output operations of one cycle, performed in order: green on, hold,
/// green off, red on, hold, red off. The indicators are never lit together.
pub fn blink_commands(cycle: BlinkCycle) -> (r: Vec<IndicatorCommand>)
    ensures
        r@ == seq![
            IndicatorCommand::On(Indicator::Green),
            IndicatorCommand::DelayMs(cycle.green_ms),
            IndicatorCommand::Off(Indicator::Green),
            IndicatorCommand::On(Indicator::Red),
            IndicatorCommand::DelayMs(cycle.red_ms),
            IndicatorCommand::Off(Indicator::Red),
        ],
{
    let r = vec![
        IndicatorCommand::On(Indicator::Green),
        IndicatorCommand::DelayMs(cycle.green_ms),
        IndicatorCommand::Off(Indicator::Green),
        IndicatorCommand::On(Indicator::Red),
        IndicatorCommand::DelayMs(cycle.red_ms),
        IndicatorCommand::Off(Indicator::Red),
    ];
    assert(r@ =~= seq![
        IndicatorCommand::On(Indicator::Green),
        IndicatorCommand::DelayMs(cycle.green_ms),
        IndicatorCommand::Off(Indicator::Green),
        IndicatorCommand::On(Indicator::Red),
        IndicatorCommand::DelayMs(cycle.red_ms),
        IndicatorCommand::Off(Indicator::Red),
    ]);
    r
}

} // verus!
