//! What a state becomes when time passes and no press arrives.

use crate::led_level::{FadeDirection, LedLevel};
use crate::led_states::{
    Blinking, Fading, LedState, LedStateTransition, BLINK_PERIOD_MS, FADE_PERIOD_MS,
};
use vstd::prelude::*;

verus! {

/// The state that `s` has become after `n` of its dwell times have passed
/// with no press.
pub open spec fn after_periods(s: LedState, n: nat) -> LedState
    decreases n,
{
    if n == 0 {
        s
    } else {
        after_periods(s, (n - 1) as nat).after_time()
    }
}

/// The brightness of a fade that began dark, `n` steps on: a triangle wave
/// that climbs from 0 to 100 in ten steps and falls back in ten more.
pub open spec fn triangle_wave(n: nat) -> int {
    let m = (n % 20) as int;
    if m <= 10 {
        10 * m
    } else {
        10 * (20 - m)
    }
}

/// A fade that starts dark and going up.
pub open spec fn dark_fade() -> LedState {
    LedState::Fading(Fading { level: LedLevel::of_percent(0), direction: FadeDirection::Up })
}

/// An LED that is off or steadily on stays so for as long as no press
/// arrives: it has no dwell time, and no number of periods changes it.
pub proof fn lemma_steady_states_last(s: LedState, n: nat)
    requires
        s is Off || s is On,
    ensures
        s.dwell_ms() is None,
        after_periods(s, n) == s,
    decreases n,
{
    if n > 0 {
        lemma_steady_states_last(s, (n - 1) as nat);
    }
}

/// A blinking LED changes once every 1000 ms and keeps blinking. After an
/// even number of periods it is lit if it began lit, after an odd number if
/// it began dark; its brightness is 100 when lit and 0 when dark.
pub proof fn lemma_blinking_alternates(lit: bool, n: nat)
    ensures
        after_periods(LedState::Blinking(Blinking(lit)), n) == LedState::Blinking(
            Blinking(lit == (n % 2 == 0)),
        ),
        after_periods(LedState::Blinking(Blinking(lit)), n).dwell_ms() == Some(BLINK_PERIOD_MS),
        after_periods(LedState::Blinking(Blinking(lit)), n).level()@ == (if lit == (n % 2 == 0) {
            100int
        } else {
            0int
        }),
    decreases n,
{
    if n > 0 {
        lemma_blinking_alternates(lit, (n - 1) as nat);
    }
    LedLevel::lemma_of_percent(100);
    LedLevel::lemma_of_percent(0);
}

/// A fade that starts dark and going up steps once every 50 ms and keeps
/// fading. Its brightness follows the triangle wave 0, 10, ..., 100, 90, ...,
/// 10, 0, 10, ...; each step up to 100 goes up and each step down to 0 goes
/// down, so that the direction turns at 0 and at 100 and nowhere else.
pub proof fn lemma_fade_is_triangle(n: nat)
    ensures
        after_periods(dark_fade(), n) matches LedState::Fading(f) && {
            &&& f.level@ == triangle_wave(n)
            &&& f.level.wf()
            &&& n > 0 ==> (f.direction == FadeDirection::Up <==> 1 <= n % 20 <= 10)
            &&& n > 0 ==> (f.next_direction() != f.direction <==> (f.level@ == 0 || f.level@
                == 100))
        },
        after_periods(dark_fade(), n).dwell_ms() == Some(FADE_PERIOD_MS),
        after_periods(dark_fade(), n).level()@ == triangle_wave(n),
    decreases n,
{
    if n == 0 {
        LedLevel::lemma_of_percent(0);
    } else {
        lemma_fade_is_triangle((n - 1) as nat);
        let before = after_periods(dark_fade(), (n - 1) as nat)->Fading_0;
        before.level.lemma_plus(before.next_direction().sign() * 10);
    }
}

} // verus!
