//! The four LED states, and how time and presses move between them.

use crate::led_level::{FadeDirection, LedLevel};
use crate::pending::{pending, Pending};
use vstd::prelude::*;
use vstd::std_specs::convert::FromSpecImpl;

verus! {

/// How long a blinking LED stays lit or dark, in milliseconds.
pub const BLINK_PERIOD_MS: u64 = 1000;

/// How long a fading LED holds one brightness, in milliseconds.
pub const FADE_PERIOD_MS: u64 = 50;

/// How far one fade step moves the brightness, in percent.
pub const FADE_STEP: i8 = 10;

/// A completed button gesture.
#[derive(Debug, PartialEq, Eq, Structural, Clone, Copy)]
pub enum PressType {
    /// One quick tap.
    Short,
    /// The button was held down.
    Long,
    /// Two quick taps.
    Double,
}

/// The LED is dark.
#[derive(Debug, PartialEq, Eq, Structural, Clone, Copy)]
pub struct Off;

/// The LED is steadily lit.
#[derive(Debug, PartialEq, Eq, Structural, Clone, Copy)]
pub struct On;

/// The LED alternates between lit and dark. The field says whether it is lit
/// now.
#[derive(Debug, PartialEq, Eq, Structural, Clone, Copy)]
pub struct Blinking(pub bool);

/// The LED's brightness ramps up and down between the two ends.
#[derive(Debug, PartialEq, Eq, Structural, Clone, Copy)]
pub struct Fading {
    /// The brightness shown now.
    pub level: LedLevel,
    /// The way the brightness last moved.
    pub direction: FadeDirection,
}

/// What the LED is doing.
#[derive(Debug, PartialEq, Eq, Structural, Clone, Copy)]
pub enum LedState {
    Off(Off),
    On(On),
    Blinking(Blinking),
    Fading(Fading),
}

/// What the passing of time does to a state.
pub enum TimeTransition {
    /// Nothing: the state lasts until a press ends it.
    Never(Pending<LedState>),
    /// After `millis` milliseconds without a press the state gives way to
    /// `next`.
    After { millis: u64, next: LedState },
}

/// The behaviour every state has: what follows it in time, what follows it on
/// a press, and how bright it is.
pub trait LedStateTransition {
    /// How long the state lasts when no press arrives, in milliseconds;
    /// `None` when it lasts for ever.
    spec fn dwell_ms(&self) -> Option<u64>;

    /// The state that follows once the dwell time has passed. A state that
    /// lasts for ever is its own successor.
    spec fn after_time(&self) -> LedState;

    /// The state that the press `b` leads to.
    spec fn after_press(&self, b: PressType) -> LedState;

    /// The brightness of the state.
    spec fn level(&self) -> LedLevel;

    /// The time transition: the wait and the state that follows it, or a wait
    /// that never ends.
    fn time_transition(&self) -> (r: TimeTransition)
        ensures
            self.dwell_ms() is None ==> r is Never,
            self.dwell_ms() matches Some(ms) ==> r == (TimeTransition::After {
                millis: ms,
                next: self.after_time(),
            }),
    ;

    /// The press transition: where the press `b` leads, at once.
    fn press_transition(&self, b: PressType) -> (r: LedState)
        ensures
            r == self.after_press(b),
    ;

    /// The brightness to show while in this state.
    fn get_level(&self) -> (r: LedLevel)
        ensures
            r == self.level(),
    ;
}

impl LedStateTransition for Off {
    open spec fn dwell_ms(&self) -> Option<u64> {
        None
    }

    open spec fn after_time(&self) -> LedState {
        LedState::Off(Off)
    }

    open spec fn after_press(&self, b: PressType) -> LedState {
        LedState::On(On)
    }

    open spec fn level(&self) -> LedLevel {
        LedLevel::of_percent(0)
    }

    fn time_transition(&self) -> (r: TimeTransition) {
        TimeTransition::Never(pending())
    }

    fn press_transition(&self, _b: PressType) -> (r: LedState) {
        LedState::On(On)
    }

    fn get_level(&self) -> (r: LedLevel) {
        LedLevel::min()
    }
}

impl LedStateTransition for On {
    open spec fn dwell_ms(&self) -> Option<u64> {
        None
    }

    open spec fn after_time(&self) -> LedState {
        LedState::On(On)
    }

    open spec fn after_press(&self, b: PressType) -> LedState {
        match b {
            PressType::Long => LedState::Blinking(Blinking(true)),
            PressType::Double => LedState::Fading(
                Fading { level: LedLevel::of_percent(100), direction: FadeDirection::Up },
            ),
            PressType::Short => LedState::Off(Off),
        }
    }

    open spec fn level(&self) -> LedLevel {
        LedLevel::of_percent(100)
    }

    fn time_transition(&self) -> (r: TimeTransition) {
        TimeTransition::Never(pending())
    }

    fn press_transition(&self, b: PressType) -> (r: LedState) {
        match b {
            PressType::Long => LedState::Blinking(Blinking(true)),
            PressType::Double => LedState::Fading(
                Fading { level: LedLevel::max(), direction: FadeDirection::Up },
            ),
            PressType::Short => LedState::Off(Off),
        }
    }

    fn get_level(&self) -> (r: LedLevel) {
        LedLevel::max()
    }
}

impl LedStateTransition for Blinking {
    open spec fn dwell_ms(&self) -> Option<u64> {
        Some(BLINK_PERIOD_MS)
    }

    open spec fn after_time(&self) -> LedState {
        LedState::Blinking(Blinking(!self.0))
    }

    open spec fn after_press(&self, b: PressType) -> LedState {
        match b {
            PressType::Long => LedState::On(On),
            PressType::Short | PressType::Double => LedState::Off(Off),
        }
    }

    open spec fn level(&self) -> LedLevel {
        LedLevel::of_percent(if self.0 { 100int } else { 0int })
    }

    fn time_transition(&self) -> (r: TimeTransition) {
        TimeTransition::After { millis: BLINK_PERIOD_MS, next: LedState::Blinking(Blinking(!self.0)) }
    }

    fn press_transition(&self, b: PressType) -> (r: LedState) {
        match b {
            PressType::Long => LedState::On(On),
            PressType::Short | PressType::Double => LedState::Off(Off),
        }
    }

    fn get_level(&self) -> (r: LedLevel) {
        LedLevel::from(self.0)
    }
}

impl Fading {
    /// The way the next step moves: up from the dark end, down from the lit
    /// end, and onwards as before anywhere between.
    pub open spec fn next_direction(self) -> FadeDirection {
        if self.level@ == 0 {
            FadeDirection::Up
        } else if self.level@ == 100 {
            FadeDirection::Down
        } else {
            self.direction
        }
    }

    /// The fade one step later: the direction turns at either end, then the
    /// level moves one step that way.
    pub open spec fn step(self) -> Fading {
        let direction = self.next_direction();
        Fading { level: self.level.plus(direction.sign() * FADE_STEP), direction }
    }
}

impl LedStateTransition for Fading {
    open spec fn dwell_ms(&self) -> Option<u64> {
        Some(FADE_PERIOD_MS)
    }

    open spec fn after_time(&self) -> LedState {
        LedState::Fading(self.step())
    }

    open spec fn after_press(&self, b: PressType) -> LedState {
        match b {
            PressType::Long => LedState::On(On),
            PressType::Short | PressType::Double => LedState::Off(Off),
        }
    }

    open spec fn level(&self) -> LedLevel {
        self.level
    }

    fn time_transition(&self) -> (r: TimeTransition) {
        let shown: u8 = self.level.percent();
        let direction = if shown == 0 {
            FadeDirection::Up
        } else if shown == 100 {
            FadeDirection::Down
        } else {
            self.direction
        };
        let level = self.level + direction * FADE_STEP;
        TimeTransition::After {
            millis: FADE_PERIOD_MS,
            next: LedState::Fading(Fading { level, direction }),
        }
    }

    fn press_transition(&self, b: PressType) -> (r: LedState) {
        match b {
            PressType::Long => LedState::On(On),
            PressType::Short | PressType::Double => LedState::Off(Off),
        }
    }

    fn get_level(&self) -> (r: LedLevel) {
        self.level
    }
}

impl LedStateTransition for LedState {
    open spec fn dwell_ms(&self) -> Option<u64> {
        match self {
            LedState::Off(s) => s.dwell_ms(),
            LedState::On(s) => s.dwell_ms(),
            LedState::Blinking(s) => s.dwell_ms(),
            LedState::Fading(s) => s.dwell_ms(),
        }
    }

    open spec fn after_time(&self) -> LedState {
        match self {
            LedState::Off(s) => s.after_time(),
            LedState::On(s) => s.after_time(),
            LedState::Blinking(s) => s.after_time(),
            LedState::Fading(s) => s.after_time(),
        }
    }

    open spec fn after_press(&self, b: PressType) -> LedState {
        match self {
            LedState::Off(s) => s.after_press(b),
            LedState::On(s) => s.after_press(b),
            LedState::Blinking(s) => s.after_press(b),
            LedState::Fading(s) => s.after_press(b),
        }
    }

    open spec fn level(&self) -> LedLevel {
        match self {
            LedState::Off(s) => s.level(),
            LedState::On(s) => s.level(),
            LedState::Blinking(s) => s.level(),
            LedState::Fading(s) => s.level(),
        }
    }

    fn time_transition(&self) -> (r: TimeTransition) {
        match self {
            LedState::Off(s) => s.time_transition(),
            LedState::On(s) => s.time_transition(),
            LedState::Blinking(s) => s.time_transition(),
            LedState::Fading(s) => s.time_transition(),
        }
    }

    fn press_transition(&self, b: PressType) -> (r: LedState) {
        match self {
            LedState::Off(s) => s.press_transition(b),
            LedState::On(s) => s.press_transition(b),
            LedState::Blinking(s) => s.press_transition(b),
            LedState::Fading(s) => s.press_transition(b),
        }
    }

    fn get_level(&self) -> (r: LedLevel) {
        match self {
            LedState::Off(s) => s.get_level(),
            LedState::On(s) => s.get_level(),
            LedState::Blinking(s) => s.get_level(),
            LedState::Fading(s) => s.get_level(),
        }
    }
}

/// Which of the four states a state is, whatever it holds.
#[derive(Debug, PartialEq, Eq, Structural, Clone, Copy)]
pub enum StateKind {
    Off,
    On,
    Blinking,
    Fading,
}

impl LedState {
    /// Which of the four states this is.
    pub open spec fn spec_kind(self) -> StateKind {
        match self {
            LedState::Off(_) => StateKind::Off,
            LedState::On(_) => StateKind::On,
            LedState::Blinking(_) => StateKind::Blinking,
            LedState::Fading(_) => StateKind::Fading,
        }
    }

    /// Which of the four states this is.
    #[verifier::when_used_as_spec(spec_kind)]
    pub fn kind(self) -> (k: StateKind)
        ensures
            k == self.spec_kind(),
    {
        match self {
            LedState::Off(_) => StateKind::Off,
            LedState::On(_) => StateKind::On,
            LedState::Blinking(_) => StateKind::Blinking,
            LedState::Fading(_) => StateKind::Fading,
        }
    }

    /// Every level the state holds lies between 0 and 100. Every state that
    /// executable code holds satisfies this.
    pub open spec fn wf(self) -> bool {
        self matches LedState::Fading(f) ==> f.level.wf()
    }
}

/// The press transitions as a table: the state that each gesture leads to
/// from each kind of state.
pub open spec fn press_table(from: StateKind, b: PressType) -> LedState {
    match (from, b) {
        (StateKind::Off, PressType::Short) => LedState::On(On),
        (StateKind::Off, PressType::Long) => LedState::On(On),
        (StateKind::Off, PressType::Double) => LedState::On(On),
        (StateKind::On, PressType::Short) => LedState::Off(Off),
        (StateKind::On, PressType::Long) => LedState::Blinking(Blinking(true)),
        (StateKind::On, PressType::Double) => LedState::Fading(
            Fading { level: LedLevel::of_percent(100), direction: FadeDirection::Up },
        ),
        (StateKind::Blinking, PressType::Short) => LedState::Off(Off),
        (StateKind::Blinking, PressType::Long) => LedState::On(On),
        (StateKind::Blinking, PressType::Double) => LedState::Off(Off),
        (StateKind::Fading, PressType::Short) => LedState::Off(Off),
        (StateKind::Fading, PressType::Long) => LedState::On(On),
        (StateKind::Fading, PressType::Double) => LedState::Off(Off),
    }
}

/// A press leads where the table says, and the table asks only which kind of
/// state the press found: whether a blinking LED was lit at that moment, or
/// how far and which way a fade had got, makes no difference.
pub proof fn lemma_press_follows_table(s: LedState, b: PressType)
    ensures
        s.after_press(b) == press_table(s.kind(), b),
        forall|t: LedState| t.kind() == s.kind() ==> #[trigger] t.after_press(b) == s.after_press(b),
        s.after_press(b).wf(),
{
    LedLevel::lemma_of_percent(100);
}

impl From<Off> for LedState {
    /// An LED that is off, as a state.
    fn from(s: Off) -> (r: LedState)
        ensures
            r == LedState::Off(s),
    {
        LedState::Off(s)
    }
}

impl FromSpecImpl<Off> for LedState {
    open spec fn obeys_from_spec() -> bool {
        true
    }

    open spec fn from_spec(s: Off) -> LedState {
        LedState::Off(s)
    }
}

impl From<On> for LedState {
    /// An LED that is on, as a state.
    fn from(s: On) -> (r: LedState)
        ensures
            r == LedState::On(s),
    {
        LedState::On(s)
    }
}

impl FromSpecImpl<On> for LedState {
    open spec fn obeys_from_spec() -> bool {
        true
    }

    open spec fn from_spec(s: On) -> LedState {
        LedState::On(s)
    }
}

impl From<Blinking> for LedState {
    /// A blinking LED, as a state.
    fn from(s: Blinking) -> (r: LedState)
        ensures
            r == LedState::Blinking(s),
    {
        LedState::Blinking(s)
    }
}

impl FromSpecImpl<Blinking> for LedState {
    open spec fn obeys_from_spec() -> bool {
        true
    }

    open spec fn from_spec(s: Blinking) -> LedState {
        LedState::Blinking(s)
    }
}

impl From<Fading> for LedState {
    /// A fading LED, as a state.
    fn from(s: Fading) -> (r: LedState)
        ensures
            r == LedState::Fading(s),
    {
        LedState::Fading(s)
    }
}

impl FromSpecImpl<Fading> for LedState {
    open spec fn obeys_from_spec() -> bool {
        true
    }

    open spec fn from_spec(s: Fading) -> LedState {
        LedState::Fading(s)
    }
}

} // verus!
