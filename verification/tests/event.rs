use dc2017::event::{wait_any_choice, EventState};

#[test]
fn fresh_event_is_unsignaled() {
    let mut ev = EventState::new();
    assert!(!ev.signaled);
    assert!(!ev.try_consume());
}

#[test]
fn set_is_idempotent_and_consumed_once() {
    let mut ev = EventState::new();
    ev.set();
    ev.set();
    assert!(ev.signaled);
    // The single pending signal wakes exactly one wait and is consumed.
    assert!(ev.try_consume());
    assert!(!ev.try_consume());
}

#[test]
fn wait_on_several_picks_the_first_pending() {
    assert_eq!(wait_any_choice(&vec![false, true]), Some(1));
    assert_eq!(wait_any_choice(&vec![true, true]), Some(0));
    assert_eq!(wait_any_choice(&vec![false, false, true]), Some(2));
}

#[test]
fn wait_on_several_reports_nothing_when_none_pending() {
    assert_eq!(wait_any_choice(&vec![false, false]), None);
    assert_eq!(wait_any_choice(&Vec::new()), None);
}
