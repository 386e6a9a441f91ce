use autolock::guard::decide;
use autolock::guard::Mode;

#[test]
fn trigger_from_normal_locks() {
    assert_eq!(decide(true, Mode::Normal), Some(Mode::Locked));
}

#[test]
fn non_trigger_from_locked_unlocks() {
    assert_eq!(decide(false, Mode::Locked), Some(Mode::Normal));
}

#[test]
fn decide_is_idempotent_on_its_outcomes() {
    // already locked: a trigger asks for nothing
    assert_eq!(decide(true, Mode::Locked), None);
    // already normal: a non-trigger asks for nothing
    assert_eq!(decide(false, Mode::Normal), None);
}

#[test]
fn guard_never_touches_a_third_mode() {
    assert_eq!(decide(false, Mode::Other), None);
    assert_eq!(decide(true, Mode::Other), None);
}
