//! The course of a game: its state, when it is won or lost, the session
//! clock, and the reset when play starts again.

use vstd::prelude::*;

use crate::bee::{AllergyMeter, CollectedPollen, MoveTarget, SneezeCount};
use crate::geometry::Point;

verus! {

/// Pollen a bee must carry to win.
pub const WIN_POLLEN_THRESHOLD: u32 = 20;

/// Sneezes after which the game is lost.
pub const MAX_SNEEZES: u32 = 3;

/// Where a bee starts, in thousandths of a world unit.
pub const BEE_START_X: i64 = -200_000;

pub const BEE_START_Y: i64 = 0;

#[derive(Clone, Copy, Debug, PartialEq, Eq, Hash, Structural)]
pub enum GameState {
    Playing,
    Won,
    Lost,
}

impl Default for GameState {
    fn default() -> (s: GameState)
        ensures
            s == GameState::Playing,
    {
        GameState::Playing
    }
}

/// The state to move to when a bee carries enough pollen, checked only
/// during play; `None` to stay.
pub fn check_win_condition(current: GameState, pollen_counts: &Vec<u32>) -> (next: Option<
    GameState,
>)
    ensures
        next is Some ==> next == Some(GameState::Won),
        next is Some <==> current == GameState::Playing && exists|i: int|
            0 <= i < pollen_counts.len() && #[trigger] pollen_counts[i] >= WIN_POLLEN_THRESHOLD,
{
    if current != GameState::Playing {
        return None;
    }
    let mut i: usize = 0;
    while i < pollen_counts.len()
        invariant
            current == GameState::Playing,
            i <= pollen_counts.len(),
            forall|j: int| 0 <= j < i ==> #[trigger] pollen_counts[j] < WIN_POLLEN_THRESHOLD,
        decreases pollen_counts.len() - i,
    {
        if pollen_counts[i] >= WIN_POLLEN_THRESHOLD {
            assert(pollen_counts[i as int] >= WIN_POLLEN_THRESHOLD);
            return Some(GameState::Won);
        }
        i = i + 1;
    }
    None
}

/// A bee that has lost: its meter is full, or it has sneezed too often.
pub open spec fn has_lost(meter: AllergyMeter, sneezes: Option<u32>) -> bool {
    meter.value >= meter.max || (sneezes matches Some(c) && c >= MAX_SNEEZES)
}

/// The state to move to when a bee has lost, checked only during play;
/// `None` to stay. `sneezes[i]` counts the sneezes of the bee with meter
/// `meters[i]`, where it keeps count.
pub fn check_lose_condition(
    current: GameState,
    meters: &Vec<AllergyMeter>,
    sneezes: &Vec<Option<u32>>,
) -> (next: Option<GameState>)
    requires
        meters.len() == sneezes.len(),
    ensures
        next is Some ==> next == Some(GameState::Lost),
        next is Some <==> current == GameState::Playing && exists|i: int|
            0 <= i < meters.len() && has_lost(#[trigger] meters[i], sneezes[i]),
{
    if current != GameState::Playing {
        return None;
    }
    let mut i: usize = 0;
    while i < meters.len()
        invariant
            current == GameState::Playing,
            meters.len() == sneezes.len(),
            i <= meters.len(),
            forall|j: int| 0 <= j < i ==> !has_lost(#[trigger] meters[j], sneezes[j]),
        decreases meters.len() - i,
    {
        if meters[i].value >= meters[i].max {
            assert(has_lost(meters[i as int], sneezes[i as int]));
            return Some(GameState::Lost);
        }
        match sneezes[i] {
            Some(c) => {
                if c >= MAX_SNEEZES {
                    assert(has_lost(meters[i as int], sneezes[i as int]));
                    return Some(GameState::Lost);
                }
            },
            None => {},
        }
        i = i + 1;
    }
    None
}

/// A click or a touch after the game ended starts it again.
pub fn handle_restart_input(current: GameState, pressed: bool) -> (next: Option<GameState>)
    ensures
        next == (if current != GameState::Playing && pressed {
            Some(GameState::Playing)
        } else {
            None
        }),
{
    if current != GameState::Playing && pressed {
        Some(GameState::Playing)
    } else {
        None
    }
}

/// Puts a bee back to the start of a game: at its starting point, with an
/// empty meter, no pollen, no target and no sneezes.
pub fn reset_game_on_restart(
    pos: &mut Point,
    meter: &mut AllergyMeter,
    collected: &mut CollectedPollen,
    target: &mut MoveTarget,
    sneezes: &mut SneezeCount,
)
    ensures
        *final(pos) == (Point { x: BEE_START_X, y: BEE_START_Y }),
        final(meter).value == 0,
        final(meter).max == old(meter).max,
        final(collected).count == 0,
        final(target).destination is None,
        final(sneezes).count == 0,
{
    *pos = Point { x: BEE_START_X, y: BEE_START_Y };
    meter.value = 0;
    collected.count = 0;
    target.clear();
    sneezes.count = 0;
}

/// Time spent in the current game.
#[derive(Clone, Copy, Debug, Default, PartialEq, Eq, Structural)]
pub struct SessionTimer {
    pub elapsed_ms: u64,
    pub running: bool,
}

/// A digit as a character.
pub open spec fn digit(d: int) -> char {
    ((d + 48) as u8) as char
}

/// The decimal digits of `n`, without leading zeros.
pub open spec fn decimal(n: nat) -> Seq<char>
    decreases n,
{
    if n < 10 {
        seq![digit(n as int)]
    } else {
        decimal(n / 10).push(digit((n % 10) as int))
    }
}

/// The decimal digits of `n`, at least two.
pub open spec fn two_digits(n: nat) -> Seq<char> {
    if n < 10 {
        seq!['0', digit(n as int)]
    } else {
        decimal(n)
    }
}

/// `ms` milliseconds as minutes, seconds and tenths: "MM:SS.t".
pub open spec fn clock_text(ms: nat) -> Seq<char> {
    two_digits(ms / 60_000) + seq![':'] + two_digits((ms / 1000) % 60) + seq!['.'] + seq![
        digit(((ms / 100) % 10) as int),
    ]
}

fn digit_char(d: u64) -> (c: char)
    requires
        d < 10,
    ensures
        c == digit(d as int),
{
    ((d as u8) + 48) as char
}

fn push_decimal(out: &mut Vec<char>, n: u64)
    ensures
        final(out)@ == old(out)@ + decimal(n as nat),
    decreases n,
{
    if n >= 10 {
        push_decimal(out, n / 10);
    }
    out.push(digit_char(n % 10));
    proof {
        if n >= 10 {
            assert(decimal(n as nat) == decimal((n / 10) as nat).push(digit((n % 10) as int)));
            assert(out@ =~= old(out)@ + decimal(n as nat));
        } else {
            assert(out@ =~= old(out)@ + decimal(n as nat));
        }
    }
}

fn push_two_digits(out: &mut Vec<char>, n: u64)
    ensures
        final(out)@ == old(out)@ + two_digits(n as nat),
{
    if n < 10 {
        out.push('0');
        out.push(digit_char(n));
        assert(out@ =~= old(out)@ + two_digits(n as nat));
    } else {
        push_decimal(out, n);
    }
}

/// Relies on std's `FromIterator<char>` for `String`: the string holds the
/// characters in order.
#[verifier::external_body]
fn string_of(chars: &Vec<char>) -> (s: String)
    ensures
        s@ == chars@,
{
    chars.iter().collect()
}

/// The decimal digits of `n`.
pub fn decimal_text(n: u64) -> (s: String)
    ensures
        s@ == decimal(n as nat),
{
    let mut out: Vec<char> = Vec::new();
    push_decimal(&mut out, n);
    assert(out@ =~= decimal(n as nat));
    string_of(&out)
}

impl SessionTimer {
    /// Starts a new session.
    pub fn reset(&mut self)
        ensures
            final(self).elapsed_ms == 0,
            final(self).running,
    {
        self.elapsed_ms = 0;
        self.running = true;
    }

    pub fn stop(&mut self)
        ensures
            final(self).elapsed_ms == old(self).elapsed_ms,
            !final(self).running,
    {
        self.running = false;
    }

    /// The elapsed time as "MM:SS.t": minutes (at least two digits),
    /// seconds and tenths of a second.
    pub fn formatted(&self) -> (s: String)
        ensures
            s@ == clock_text(self.elapsed_ms as nat),
    {
        let ms = self.elapsed_ms;
        let mut out: Vec<char> = Vec::new();
        push_two_digits(&mut out, ms / 60_000);
        out.push(':');
        push_two_digits(&mut out, (ms / 1000) % 60);
        out.push('.');
        out.push(digit_char((ms / 100) % 10));
        proof {
            assert(out@ =~= clock_text(ms as nat));
        }
        string_of(&out)
    }
}

/// Counts `delta_ms` on the session clock while a game is played and the
/// clock runs; the count stops at `u64::MAX`.
pub fn update_timer(timer: &mut SessionTimer, state: GameState, delta_ms: u32)
    ensures
        final(timer).running == old(timer).running,
        final(timer).elapsed_ms == (if state == GameState::Playing && old(timer).running {
            if old(timer).elapsed_ms + delta_ms <= u64::MAX {
                old(timer).elapsed_ms + delta_ms
            } else {
                u64::MAX as int
            }
        } else {
            old(timer).elapsed_ms as int
        }),
{
    if state == GameState::Playing && timer.running {
        if timer.elapsed_ms <= u64::MAX - delta_ms as u64 {
            timer.elapsed_ms = timer.elapsed_ms + delta_ms as u64;
        } else {
            timer.elapsed_ms = u64::MAX;
        }
    }
}

/// Stops the session clock when the game has ended; returns whether it
/// stopped now.
pub fn stop_timer_on_end(timer: &mut SessionTimer, state: GameState) -> (stopped: bool)
    ensures
        stopped == (old(timer).running && state != GameState::Playing),
        final(timer).elapsed_ms == old(timer).elapsed_ms,
        final(timer).running == (old(timer).running && !stopped),
{
    if !timer.running {
        return false;
    }
    match state {
        GameState::Won | GameState::Lost => {
            timer.stop();
            true
        },
        GameState::Playing => false,
    }
}

} // verus!
