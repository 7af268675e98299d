//! The two controllers of a pair: one animates the LED, one reads the button.
//!
//! Neither controller waits for anything itself. Each says what its runtime
//! has to wait for next, and is told afterwards what happened.

use crate::led_level::LedLevel;
use crate::led_states::{LedState, LedStateTransition, Off, PressType, TimeTransition};
use vstd::prelude::*;

verus! {

/// How long a line must keep its new level before an edge counts, in
/// milliseconds.
pub const DEBOUNCE_MS: u64 = 5;

/// The window that tells a hold from a tap, and a second tap from none, in
/// milliseconds.
pub const GESTURE_WINDOW_MS: u64 = 200;

/// Owns the state of one LED.
pub struct LedController {
    state: LedState,
}

impl View for LedController {
    type V = LedState;

    /// The state the LED is in.
    closed spec fn view(&self) -> LedState {
        self.state
    }
}

impl LedController {
    /// A controller whose LED is off.
    pub fn new() -> (r: LedController)
        ensures
            r@ == LedState::Off(Off),
    {
        LedController { state: LedState::Off(Off) }
    }

    /// The state the LED is in.
    pub fn state(&self) -> (r: LedState)
        ensures
            r == self@,
    {
        self.state
    }

    /// The brightness the LED has to show now.
    pub fn level(&self) -> (r: LedLevel)
        ensures
            r == self@.level(),
    {
        self.state.get_level()
    }

    /// The value to hand to the brightness output now: the current
    /// brightness in percent, which is never more than 100.
    pub fn brightness_percent(&self) -> (p: u8)
        ensures
            p as int == self@.level()@,
            p <= 100,
    {
        self.state.get_level().percent()
    }

    /// The timer to run against the gesture queue, in milliseconds: the
    /// current state's dwell time. `None` when the state lasts for ever, and
    /// only the queue is to be waited on.
    pub fn timer_ms(&self) -> (r: Option<u64>)
        ensures
            r == self@.dwell_ms(),
    {
        match self.state.time_transition() {
            TimeTransition::Never(_) => None,
            TimeTransition::After { millis, next: _ } => Some(millis),
        }
    }

    /// The timer ran out before a gesture arrived: the state gives way to its
    /// successor in time. A state that lasts for ever stays.
    pub fn time(&mut self)
        ensures
            final(self)@ == old(self)@.after_time(),
            old(self)@.dwell_ms() is None ==> final(self)@ == old(self)@,
    {
        match self.state.time_transition() {
            TimeTransition::Never(_) => {},
            TimeTransition::After { millis: _, next } => {
                self.state = next;
            },
        }
    }

    /// A gesture arrived: the state gives way to the one the gesture leads
    /// to. A timer that was running is forgotten.
    pub fn button_pressed(&mut self, press: PressType)
        ensures
            final(self)@ == old(self)@.after_press(press),
    {
        self.state = self.state.press_transition(press);
    }
}

/// One thing the button's runtime can wait for.
#[derive(Debug, PartialEq, Eq, Structural, Clone, Copy)]
pub enum Wait {
    /// Until the line goes from low to high.
    RisingEdge,
    /// Until the line goes from high to low.
    FallingEdge,
    /// Until the line reads high; at once if it already does.
    High,
    /// Until the line reads low; at once if it already does.
    Low,
    /// For this many milliseconds.
    Sleep(u64),
}

/// How a race between a gesture window and the button ended.
#[derive(Debug, PartialEq, Eq, Structural, Clone, Copy)]
pub enum RaceOutcome {
    /// The waits on the button all finished before the window closed, or no
    /// window was running.
    Completed,
    /// The window closed first. The waits still outstanding are abandoned.
    TimedOut,
}

/// How far the press under way has got.
#[derive(Debug, PartialEq, Eq, Structural, Clone, Copy)]
pub enum DetectPhase {
    /// No press has begun.
    Idle,
    /// The button went down and has not been seen to come up.
    Held,
    /// The button went down and came up again within the window.
    Tapped,
}

/// What the runtime has to do next for the button: perform `waits` in order,
/// racing all of them together against one timer of `window_ms`
/// milliseconds, started now. With no window the waits run unopposed.
#[derive(Debug, PartialEq, Eq)]
pub struct Race {
    pub window_ms: Option<u64>,
    pub waits: Vec<Wait>,
}

/// The waits that confirm a press: the rising edge, the debounce delay, and
/// the line still high after it.
pub open spec fn press_waits() -> Seq<Wait> {
    seq![Wait::RisingEdge, Wait::Sleep(DEBOUNCE_MS), Wait::High]
}

/// The waits that confirm a release: the falling edge, the debounce delay,
/// and the line still low after it.
pub open spec fn release_waits() -> Seq<Wait> {
    seq![Wait::FallingEdge, Wait::Sleep(DEBOUNCE_MS), Wait::Low]
}

impl DetectPhase {
    /// The window that runs in this phase: none while waiting for a press to
    /// begin, the gesture window afterwards.
    pub open spec fn window_ms(self) -> Option<u64> {
        match self {
            DetectPhase::Idle => None,
            DetectPhase::Held | DetectPhase::Tapped => Some(GESTURE_WINDOW_MS),
        }
    }

    /// What is waited for in this phase: the press that begins a gesture, the
    /// release that ends a hold, or a whole second tap.
    pub open spec fn waits(self) -> Seq<Wait> {
        match self {
            DetectPhase::Idle => press_waits(),
            DetectPhase::Held => release_waits(),
            DetectPhase::Tapped => press_waits() + release_waits(),
        }
    }

    /// The phase that follows when this phase's race ends with `outcome`.
    /// Every gesture leaves the detector idle; so does a timeout while idle,
    /// when no window was running.
    pub open spec fn next(self, outcome: RaceOutcome) -> DetectPhase {
        match (self, outcome) {
            (DetectPhase::Idle, RaceOutcome::Completed) => DetectPhase::Held,
            (DetectPhase::Held, RaceOutcome::Completed) => DetectPhase::Tapped,
            _ => DetectPhase::Idle,
        }
    }

    /// The gesture that is complete when this phase's race ends with
    /// `outcome`: a long press when the hold outlasts its window, a short one
    /// when no second tap follows in time, a double one when it does.
    pub open spec fn gesture(self, outcome: RaceOutcome) -> Option<PressType> {
        match (self, outcome) {
            (DetectPhase::Held, RaceOutcome::TimedOut) => Some(PressType::Long),
            (DetectPhase::Tapped, RaceOutcome::TimedOut) => Some(PressType::Short),
            (DetectPhase::Tapped, RaceOutcome::Completed) => Some(PressType::Double),
            _ => None,
        }
    }
}

/// Turns what one button does into gestures.
pub struct ButtonController {
    phase: DetectPhase,
}

impl View for ButtonController {
    type V = DetectPhase;

    /// How far the press under way has got.
    closed spec fn view(&self) -> DetectPhase {
        self.phase
    }
}

impl ButtonController {
    /// A controller that has seen no press yet.
    pub fn new() -> (r: ButtonController)
        ensures
            r@ == DetectPhase::Idle,
    {
        ButtonController { phase: DetectPhase::Idle }
    }

    /// How far the press under way has got.
    pub fn phase(&self) -> (r: DetectPhase)
        ensures
            r == self@,
    {
        self.phase
    }

    /// The waits that confirm a press.
    pub fn press() -> (r: Vec<Wait>)
        ensures
            r@ == press_waits(),
    {
        let mut waits: Vec<Wait> = Vec::new();
        waits.push(Wait::RisingEdge);
        waits.push(Wait::Sleep(DEBOUNCE_MS));
        waits.push(Wait::High);
        waits
    }

    /// The waits that confirm a release.
    pub fn release() -> (r: Vec<Wait>)
        ensures
            r@ == release_waits(),
    {
        let mut waits: Vec<Wait> = Vec::new();
        waits.push(Wait::FallingEdge);
        waits.push(Wait::Sleep(DEBOUNCE_MS));
        waits.push(Wait::Low);
        waits
    }

    /// The race to run next.
    pub fn race(&self) -> (r: Race)
        ensures
            r.window_ms == self@.window_ms(),
            r.waits@ == self@.waits(),
    {
        match self.phase {
            DetectPhase::Idle => Race { window_ms: None, waits: Self::press() },
            DetectPhase::Held => Race {
                window_ms: Some(GESTURE_WINDOW_MS),
                waits: Self::release(),
            },
            DetectPhase::Tapped => {
                let mut waits = Self::press();
                let mut release = Self::release();
                waits.append(&mut release);
                Race { window_ms: Some(GESTURE_WINDOW_MS), waits }
            },
        }
    }

    /// Takes in how the race handed out by `race` ended, and returns the
    /// gesture that this completes, if any.
    pub fn detect_press(&mut self, outcome: RaceOutcome) -> (r: Option<PressType>)
        ensures
            r == old(self)@.gesture(outcome),
            final(self)@ == old(self)@.next(outcome),
    {
        let phase = self.phase;
        match (phase, outcome) {
            (DetectPhase::Idle, RaceOutcome::Completed) => {
                self.phase = DetectPhase::Held;
                None
            },
            (DetectPhase::Idle, RaceOutcome::TimedOut) => None,
            (DetectPhase::Held, RaceOutcome::Completed) => {
                self.phase = DetectPhase::Tapped;
                None
            },
            (DetectPhase::Held, RaceOutcome::TimedOut) => {
                self.phase = DetectPhase::Idle;
                Some(PressType::Long)
            },
            (DetectPhase::Tapped, RaceOutcome::Completed) => {
                self.phase = DetectPhase::Idle;
                Some(PressType::Double)
            },
            (DetectPhase::Tapped, RaceOutcome::TimedOut) => {
                self.phase = DetectPhase::Idle;
                Some(PressType::Short)
            },
        }
    }
}

/// How a race ends when the waits on the button take `finished_ms`
/// milliseconds in all (`None`: they never finish) and the window is
/// `window_ms` long (`None`: no window runs). The waits win only by finishing
/// before the window closes; a window that closes at the same moment wins.
pub open spec fn race_outcome(window_ms: Option<u64>, finished_ms: Option<nat>) -> RaceOutcome {
    match (window_ms, finished_ms) {
        (Some(window), Some(finished)) if finished < window => RaceOutcome::Completed,
        (Some(_), _) => RaceOutcome::TimedOut,
        (None, _) => RaceOutcome::Completed,
    }
}

/// The gesture that the detector reports for one press, begun while idle:
/// the button is released `released_ms` milliseconds after the press was
/// confirmed, and a second tap is complete `second_tap_ms` milliseconds after
/// that release (`None`: it never happens).
pub open spec fn detected_gesture(released_ms: Option<nat>, second_tap_ms: Option<nat>) -> Option<
    PressType,
> {
    let held = DetectPhase::Idle.next(RaceOutcome::Completed);
    let first = race_outcome(held.window_ms(), released_ms);
    if held.gesture(first) is Some {
        held.gesture(first)
    } else {
        let tapped = held.next(first);
        tapped.gesture(race_outcome(tapped.window_ms(), second_tap_ms))
    }
}

/// The phase the detector is in once that press has been reported.
pub open spec fn phase_after_gesture(released_ms: Option<nat>, second_tap_ms: Option<nat>)
    -> DetectPhase {
    let held = DetectPhase::Idle.next(RaceOutcome::Completed);
    let first = race_outcome(held.window_ms(), released_ms);
    if held.gesture(first) is Some {
        held.next(first)
    } else {
        let tapped = held.next(first);
        tapped.next(race_outcome(tapped.window_ms(), second_tap_ms))
    }
}

/// A press is classified by its timing alone. Held for 200 ms or longer it is
/// long, whenever the release comes and whatever follows. Released within
/// 200 ms it is double if a second tap is complete within 200 ms of that
/// release, and short if not. Confirming the press reports nothing yet, and
/// every gesture leaves the detector idle.
pub proof fn lemma_gesture_by_timing(released_ms: Option<nat>, second_tap_ms: Option<nat>)
    ensures
        DetectPhase::Idle.gesture(RaceOutcome::Completed) is None,
        !(released_ms matches Some(r) && r < 200) ==> detected_gesture(released_ms, second_tap_ms)
            == Some(PressType::Long),
        (released_ms matches Some(r) && r < 200) && !(second_tap_ms matches Some(t) && t < 200)
            ==> detected_gesture(released_ms, second_tap_ms) == Some(PressType::Short),
        (released_ms matches Some(r) && r < 200) && (second_tap_ms matches Some(t) && t < 200)
            ==> detected_gesture(released_ms, second_tap_ms) == Some(PressType::Double),
        phase_after_gesture(released_ms, second_tap_ms) == DetectPhase::Idle,
{
}

} // verus!
