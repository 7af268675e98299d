use button_led::led_states::LedState;
use button_led::pending::{pending, Pending};

#[test]
fn pending_never_yields() {
    let wait: Pending<LedState> = pending();
    for _ in 0..1000 {
        assert!(wait.poll().is_none());
    }
}

#[test]
fn pending_of_any_type_never_yields() {
    assert!(pending::<u8>().poll().is_none());
    assert!(pending::<String>().poll().is_none());
}
