use autolock::config::parse_trigger_list;
use autolock::config::parse_truthy;
use autolock::controller::State;

#[test]
fn truthy_values() {
    assert!(parse_truthy("true"));
    assert!(parse_truthy("t"));
    assert!(parse_truthy("y"));
    assert!(parse_truthy("1"));
    assert!(parse_truthy(" true "));
}

#[test]
fn non_truthy_values() {
    assert!(!parse_truthy("false"));
    assert!(!parse_truthy("yes"));
    assert!(!parse_truthy("TRUE"));
    assert!(!parse_truthy("0"));
    assert!(!parse_truthy(""));
}

#[test]
fn trigger_list_splits_on_pipe_and_trims() {
    assert_eq!(parse_trigger_list("vim|nvim"), vec!["vim", "nvim"]);
    assert_eq!(parse_trigger_list(" vim | nvim "), vec!["vim", "nvim"]);
    assert_eq!(parse_trigger_list("vim"), vec!["vim"]);
}

#[test]
fn trigger_list_keeps_empty_entries() {
    assert_eq!(parse_trigger_list(""), vec![""]);
    assert_eq!(parse_trigger_list("a||b"), vec!["a", "", "b"]);
    assert_eq!(parse_trigger_list("a|"), vec!["a", ""]);
}

#[test]
fn configuration_replaces_settings() {
    let mut s = State::default();
    let en = "0".to_string();
    let trig = "less| man |vi".to_string();
    let log = "true".to_string();
    s.load_configuration(Some(&en), Some(&trig), Some(&log));
    assert!(!s.is_enabled);
    assert_eq!(s.lock_trigger_cmds, vec!["less", "man", "vi"]);
    assert!(s.print_to_log);
}

#[test]
fn absent_configuration_keeps_defaults() {
    let mut s = State::default();
    s.load_configuration(None, None, None);
    assert!(s.is_enabled);
    assert_eq!(s.lock_trigger_cmds, vec!["vim", "nvim"]);
    assert!(!s.print_to_log);
}
