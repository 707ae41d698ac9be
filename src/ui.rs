//! What the meters, the overlay and the counters show.

use vstd::prelude::*;
use vstd::string::StringExecFns;

use crate::bee::{AllergyMeter, CollectedPollen};
use crate::game::{clock_text, decimal, decimal_text, GameState, SessionTimer};

verus! {

/// Color band of the allergy bar.
#[derive(Clone, Copy, Debug, PartialEq, Eq, Structural)]
pub enum MeterBand {
    Green,
    Yellow,
    Red,
}

/// The band of a meter: green under 40%, yellow under 70%, red from there
/// on (and for a meter whose maximum is zero).
pub open spec fn band_of(m: AllergyMeter) -> MeterBand {
    if m.value * 10 < 4 * m.max {
        MeterBand::Green
    } else if m.value * 10 < 7 * m.max {
        MeterBand::Yellow
    } else {
        MeterBand::Red
    }
}

pub fn update_allergy_meter_display(meter: &AllergyMeter) -> (b: MeterBand)
    ensures
        b == band_of(*meter),
{
    let v = (meter.value as u64) * 10;
    let m = meter.max as u64;
    if v < 4 * m {
        MeterBand::Green
    } else if v < 7 * m {
        MeterBand::Yellow
    } else {
        MeterBand::Red
    }
}

/// Green share, in thousandths, of the bee's color: plain yellow (900) up
/// to half a meter, then one thousandth less for each thousandth of fill.
pub fn update_bee_allergy_tint(meter: &AllergyMeter) -> (g: i64)
    requires
        meter.max > 0,
    ensures
        g == (if meter.value * 1000 / (meter.max as int) > 500 {
            1400 - meter.value * 1000 / (meter.max as int)
        } else {
            900
        }),
{
    let p = meter.percentage();
    proof {
        vstd::arithmetic::div_mod::lemma_div_is_ordered(
            meter.value * 1000,
            u32::MAX * 1000,
            meter.max as int,
        );
        vstd::arithmetic::div_mod::lemma_div_is_ordered_by_denominator(
            u32::MAX * 1000,
            1,
            meter.max as int,
        );
    }
    if p > 500 {
        1400 - (p as i64)
    } else {
        900
    }
}

/// Opacity, in thousandths, of the danger border: none up to 60% of the
/// meter, then rising to 500 at a full meter.
pub fn update_danger_vignette(meter: &AllergyMeter) -> (a: u64)
    requires
        meter.max > 0,
    ensures
        a == (if meter.value * 1000 / (meter.max as int) > 600 {
            (meter.value * 1000 / (meter.max as int) - 600) * 5 / 4
        } else {
            0
        }),
{
    let p = meter.percentage();
    proof {
        vstd::arithmetic::div_mod::lemma_div_is_ordered(
            meter.value * 1000,
            u32::MAX * 1000,
            meter.max as int,
        );
        vstd::arithmetic::div_mod::lemma_div_is_ordered_by_denominator(
            u32::MAX * 1000,
            1,
            meter.max as int,
        );
    }
    if p > 600 {
        (p - 600) * 5 / 4
    } else {
        0
    }
}

/// Length of the rizz bar, in thousandths of a world unit: 38 units for a
/// full meter of 100 points.
pub fn update_rizz_meters(rizz: u32) -> (w: u64)
    ensures
        w == rizz * 38 / 100,
{
    (rizz as u64) * 38 / 100
}

/// The message for a game that ended in `state` after `ms` milliseconds.
pub open spec fn overlay_message(state: GameState, ms: nat) -> Seq<char> {
    let head = if state == GameState::Won {
        "You Win!\n\nTime: "@
    } else {
        "Game Over!\n\nTime: "@
    };
    head + clock_text(ms) + "\n\nClick to restart"@
}

/// The text over the field when a game has ended, with its time; `None`
/// during play, when the overlay is hidden.
pub fn update_overlay_visibility(state: GameState, timer: &SessionTimer) -> (t: Option<String>)
    ensures
        t is None <==> state == GameState::Playing,
        t matches Some(s) ==> s@ == overlay_message(state, timer.elapsed_ms as nat),
{
    let head = match state {
        GameState::Playing => {
            return None;
        },
        GameState::Won => "You Win!\n\nTime: ",
        GameState::Lost => "Game Over!\n\nTime: ",
    };
    let clock = timer.formatted();
    let mut s = <String as StringExecFns>::from_str(head);
    s.append(clock.as_str());
    s.append("\n\nClick to restart");
    Some(s)
}

/// The pollen counter: "Pollen: " and the count.
pub fn update_pollen_counter(collected: &CollectedPollen) -> (t: String)
    ensures
        t@ == "Pollen: "@ + decimal(collected.count as nat),
{
    let n = decimal_text(collected.count as u64);
    let mut s = <String as StringExecFns>::from_str("Pollen: ");
    s.append(n.as_str());
    s
}

} // verus!
