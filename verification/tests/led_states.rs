use button_led::led_level::{FadeDirection, LedLevel};
use button_led::led_states::{
    Blinking, Fading, LedState, LedStateTransition, Off, On, PressType, StateKind, TimeTransition,
    BLINK_PERIOD_MS, FADE_PERIOD_MS, FADE_STEP,
};

fn fade(percent: i8, direction: FadeDirection) -> Fading {
    Fading { level: LedLevel::min() + percent, direction }
}

fn after(t: TimeTransition) -> (u64, LedState) {
    match t {
        TimeTransition::After { millis, next } => (millis, next),
        TimeTransition::Never(_) => panic!("the transition never completes"),
    }
}

#[test]
fn periods_and_step_have_their_values() {
    assert_eq!(BLINK_PERIOD_MS, 1000);
    assert_eq!(FADE_PERIOD_MS, 50);
    assert_eq!(FADE_STEP, 10);
}

#[test]
fn brightness_of_each_state() {
    assert_eq!(Off.get_level().percent(), 0);
    assert_eq!(On.get_level().percent(), 100);
    assert_eq!(Blinking(true).get_level().percent(), 100);
    assert_eq!(Blinking(false).get_level().percent(), 0);
    assert_eq!(fade(40, FadeDirection::Down).get_level().percent(), 40);
    assert_eq!(LedState::Off(Off).get_level().percent(), 0);
    assert_eq!(LedState::On(On).get_level().percent(), 100);
    assert_eq!(LedState::Blinking(Blinking(true)).get_level().percent(), 100);
    assert_eq!(LedState::Fading(fade(70, FadeDirection::Up)).get_level().percent(), 70);
}

#[test]
fn off_and_on_have_no_time_transition() {
    assert!(matches!(Off.time_transition(), TimeTransition::Never(_)));
    assert!(matches!(On.time_transition(), TimeTransition::Never(_)));
    assert!(matches!(LedState::Off(Off).time_transition(), TimeTransition::Never(_)));
    assert!(matches!(LedState::On(On).time_transition(), TimeTransition::Never(_)));
}

#[test]
fn blinking_toggles_every_second() {
    let (millis, next) = after(Blinking(true).time_transition());
    assert_eq!(millis, 1000);
    assert_eq!(next, LedState::Blinking(Blinking(false)));
    let (millis, next) = after(Blinking(false).time_transition());
    assert_eq!(millis, 1000);
    assert_eq!(next, LedState::Blinking(Blinking(true)));
}

#[test]
fn blinking_from_lit_alternates_hundred_and_zero() {
    let mut state = LedState::Blinking(Blinking(true));
    let mut seen: Vec<u8> = Vec::new();
    for _ in 0..6 {
        seen.push(state.get_level().percent());
        state = after(state.time_transition()).1;
    }
    assert_eq!(seen, vec![100, 0, 100, 0, 100, 0]);
}

#[test]
fn blinking_from_dark_starts_at_zero() {
    let mut state = LedState::Blinking(Blinking(false));
    let mut seen: Vec<u8> = Vec::new();
    for _ in 0..4 {
        seen.push(state.get_level().percent());
        state = after(state.time_transition()).1;
    }
    assert_eq!(seen, vec![0, 100, 0, 100]);
}

#[test]
fn fading_steps_every_fifty_milliseconds() {
    let (millis, next) = after(fade(0, FadeDirection::Up).time_transition());
    assert_eq!(millis, 50);
    assert_eq!(next, LedState::Fading(fade(10, FadeDirection::Up)));
}

#[test]
fn fading_turns_down_at_the_top() {
    let (_, next) = after(fade(100, FadeDirection::Up).time_transition());
    assert_eq!(next, LedState::Fading(fade(90, FadeDirection::Down)));
}

#[test]
fn fading_turns_up_at_the_bottom() {
    let (_, next) = after(fade(0, FadeDirection::Down).time_transition());
    assert_eq!(next, LedState::Fading(fade(10, FadeDirection::Up)));
}

#[test]
fn fading_keeps_its_direction_between_the_ends() {
    let (_, next) = after(fade(50, FadeDirection::Down).time_transition());
    assert_eq!(next, LedState::Fading(fade(40, FadeDirection::Down)));
    let (_, next) = after(fade(50, FadeDirection::Up).time_transition());
    assert_eq!(next, LedState::Fading(fade(60, FadeDirection::Up)));
}

#[test]
fn fading_clamps_an_odd_level() {
    let (_, next) = after(fade(95, FadeDirection::Up).time_transition());
    assert_eq!(next, LedState::Fading(fade(100, FadeDirection::Up)));
    let (_, next) = after(fade(5, FadeDirection::Down).time_transition());
    assert_eq!(next, LedState::Fading(fade(0, FadeDirection::Down)));
}

#[test]
fn fading_from_dark_is_a_triangle_wave() {
    let mut state = LedState::Fading(fade(0, FadeDirection::Up));
    let mut levels: Vec<u8> = Vec::new();
    let mut directions: Vec<FadeDirection> = Vec::new();
    for _ in 0..43 {
        levels.push(state.get_level().percent());
        state = after(state.time_transition()).1;
        match state {
            LedState::Fading(f) => directions.push(f.direction),
            _ => panic!("a fade stays a fade"),
        }
    }
    let expected: Vec<u8> = vec![
        0, 10, 20, 30, 40, 50, 60, 70, 80, 90, 100, 90, 80, 70, 60, 50, 40, 30, 20, 10, 0, 10, 20,
        30, 40, 50, 60, 70, 80, 90, 100, 90, 80, 70, 60, 50, 40, 30, 20, 10, 0, 10, 20,
    ];
    assert_eq!(levels, expected);
    for (n, d) in directions.iter().enumerate() {
        let step = (n + 1) % 20;
        let up = 1 <= step && step <= 10;
        assert_eq!(*d == FadeDirection::Up, up, "step {}", n + 1);
    }
}

#[test]
fn press_table_holds_for_every_state_and_gesture() {
    let top_fade = LedState::Fading(Fading { level: LedLevel::max(), direction: FadeDirection::Up });
    let off = LedState::Off(Off);
    let on = LedState::On(On);
    let rows: Vec<(LedState, [LedState; 3])> = vec![
        (off, [on, on, on]),
        (on, [off, LedState::Blinking(Blinking(true)), top_fade]),
        (LedState::Blinking(Blinking(true)), [off, on, off]),
        (LedState::Blinking(Blinking(false)), [off, on, off]),
        (LedState::Fading(fade(0, FadeDirection::Up)), [off, on, off]),
        (LedState::Fading(fade(100, FadeDirection::Down)), [off, on, off]),
        (LedState::Fading(fade(30, FadeDirection::Down)), [off, on, off]),
    ];
    let gestures = [PressType::Short, PressType::Long, PressType::Double];
    for (state, expected) in rows {
        for (g, e) in gestures.iter().zip(expected.iter()) {
            assert_eq!(state.press_transition(*g), *e, "{:?} on {:?}", g, state);
        }
    }
}

#[test]
fn each_state_dispatches_like_the_enum() {
    for g in [PressType::Short, PressType::Long, PressType::Double] {
        assert_eq!(Off.press_transition(g), LedState::Off(Off).press_transition(g));
        assert_eq!(On.press_transition(g), LedState::On(On).press_transition(g));
        assert_eq!(
            Blinking(true).press_transition(g),
            LedState::Blinking(Blinking(true)).press_transition(g)
        );
        assert_eq!(
            fade(20, FadeDirection::Up).press_transition(g),
            LedState::Fading(fade(20, FadeDirection::Up)).press_transition(g)
        );
    }
}

#[test]
fn kind_ignores_what_a_state_holds() {
    assert_eq!(LedState::Off(Off).kind(), StateKind::Off);
    assert_eq!(LedState::On(On).kind(), StateKind::On);
    assert_eq!(LedState::Blinking(Blinking(true)).kind(), StateKind::Blinking);
    assert_eq!(LedState::Blinking(Blinking(false)).kind(), StateKind::Blinking);
    assert_eq!(LedState::Fading(fade(0, FadeDirection::Up)).kind(), StateKind::Fading);
    assert_eq!(LedState::Fading(fade(80, FadeDirection::Down)).kind(), StateKind::Fading);
}

#[test]
fn states_convert_into_the_enum() {
    let s: LedState = Off.into();
    assert_eq!(s, LedState::Off(Off));
    let s: LedState = On.into();
    assert_eq!(s, LedState::On(On));
    let s: LedState = Blinking(true).into();
    assert_eq!(s, LedState::Blinking(Blinking(true)));
    let s: LedState = fade(10, FadeDirection::Up).into();
    assert_eq!(s, LedState::Fading(fade(10, FadeDirection::Up)));
}
