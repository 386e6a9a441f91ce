use autolock::controller::parse_pipe_command;
use autolock::controller::ClientRef;
use autolock::controller::HostEvent;
use autolock::controller::PipeCommand;
use autolock::controller::State;
use autolock::focus::PaneRef;
use autolock::focus::TabRef;
use autolock::guard::Mode;

fn client(is_current_client: bool, running_command: &str) -> ClientRef {
    ClientRef { is_current_client, running_command: running_command.to_string() }
}

fn tab(position: usize, active: bool) -> TabRef {
    TabRef { position, active }
}

fn pane(tab_pos: usize, id: u32) -> PaneRef {
    PaneRef { tab_pos, id, is_focused: true, is_plugin: false }
}

#[test]
fn default_state_matches_startup() {
    let s = State::default();
    assert!(s.is_enabled);
    assert!(!s.permissions_granted);
    assert_eq!(s.lock_trigger_cmds, vec!["vim".to_string(), "nvim".to_string()]);
    assert!(!s.timer_scheduled);
    assert_eq!(s.latest_tab_pane.tab_pos, None);
    assert_eq!(s.latest_tab_pane.pane_id, None);
    assert_eq!(s.latest_mode, Mode::Normal);
    assert_eq!(s.latest_running_command, "");
    assert!(!s.print_to_log);
}

#[test]
fn trigger_command_locks_from_normal() {
    // trigger set {vim, nvim}; command becomes /usr/bin/vim file.txt; mode Normal
    let mut s = State::default();
    let clients = vec![client(false, "bash"), client(true, "/usr/bin/vim file.txt")];
    let acts = s.update(HostEvent::ListClients(clients));
    assert_eq!(acts.switch_to, Some(Mode::Locked));
    assert!(!acts.redraw);
    assert_eq!(s.latest_running_command, "/usr/bin/vim file.txt");
    // the changed command rearms the debounce timer
    assert!(acts.arm_timer);
    assert!(s.timer_scheduled);
}

#[test]
fn na_command_unlocks_from_locked() {
    let mut s = State::default();
    let _ = s.update(HostEvent::ModeUpdate(Mode::Locked));
    let acts = s.update(HostEvent::ListClients(vec![client(true, "N/A")]));
    assert_eq!(acts.switch_to, Some(Mode::Normal));
}

#[test]
fn disable_suppresses_arming_and_inspection() {
    // "disable", then a focus change: no timer armed, no inspection
    let mut s = State::default();
    let _ = s.update(HostEvent::TabUpdate(vec![tab(0, true)]));
    let acts = s.pipe(PipeCommand::Disable);
    assert!(!s.is_enabled);
    assert!(!acts.request_clients);
    assert!(!acts.arm_timer);
    let acts = s.update(HostEvent::PaneUpdate(vec![pane(0, 7)]));
    assert!(!acts.arm_timer);
    assert!(!acts.request_clients);
    assert_eq!(acts.switch_to, None);
    let acts = s.update(HostEvent::InputReceived);
    assert!(!acts.arm_timer);
    // a client snapshot arriving while disabled is absorbed
    let acts = s.update(HostEvent::ListClients(vec![client(true, "/usr/bin/vim x")]));
    assert_eq!(acts.switch_to, None);
    assert_eq!(s.latest_running_command, "");
}

#[test]
fn two_pane_changes_in_window_yield_one_inspection() {
    // two pane-focus notifications within the debounce window:
    // one timer, one eventual inspection, reflecting the latest focus
    let mut s = State::default();
    let _ = s.update(HostEvent::TabUpdate(vec![tab(0, true)]));
    let a1 = s.update(HostEvent::PaneUpdate(vec![pane(0, 7)]));
    assert!(a1.arm_timer);
    let a2 = s.update(HostEvent::PaneUpdate(vec![pane(0, 9)]));
    assert!(!a2.arm_timer);
    assert_eq!(s.latest_tab_pane.pane_id, Some(9));
    let fired = s.update(HostEvent::TimerFired);
    assert!(fired.request_clients);
    assert!(!s.timer_scheduled);
}

#[test]
fn arming_twice_schedules_once() {
    let mut s = State::default();
    let a1 = s.update(HostEvent::InputReceived);
    assert!(a1.arm_timer);
    let a2 = s.update(HostEvent::InputReceived);
    assert!(!a2.arm_timer);
    let _ = s.update(HostEvent::TimerFired);
    // after the single fire the cycle can start again
    let a3 = s.update(HostEvent::InputReceived);
    assert!(a3.arm_timer);
}

#[test]
fn unchanged_command_does_not_rearm() {
    let mut s = State::default();
    let a1 = s.update(HostEvent::ListClients(vec![client(true, "bash")]));
    assert!(a1.arm_timer);
    let _ = s.update(HostEvent::TimerFired);
    let a2 = s.update(HostEvent::ListClients(vec![client(true, "  bash ")]));
    // trimmed command is the one remembered: no change, no rearm
    assert!(!a2.arm_timer);
    assert_eq!(s.latest_running_command, "bash");
}

#[test]
fn third_mode_is_never_overridden() {
    let mut s = State::default();
    let _ = s.update(HostEvent::ModeUpdate(Mode::Other));
    let acts = s.update(HostEvent::ListClients(vec![client(true, "/usr/bin/vim x")]));
    assert_eq!(acts.switch_to, None);
    let acts = s.update(HostEvent::ListClients(vec![client(true, "N/A")]));
    assert_eq!(acts.switch_to, None);
}

#[test]
fn locked_trigger_makes_no_redundant_switch() {
    let mut s = State::default();
    let _ = s.update(HostEvent::ModeUpdate(Mode::Locked));
    let acts = s.update(HostEvent::ListClients(vec![client(true, "vim")]));
    assert_eq!(acts.switch_to, None);
}

#[test]
fn no_current_client_is_a_no_op() {
    let mut s = State::default();
    let acts = s.update(HostEvent::ListClients(vec![client(false, "vim")]));
    assert_eq!(acts.switch_to, None);
    assert!(!acts.arm_timer);
    // a current client with an empty command field is skipped too
    let acts = s.update(HostEvent::ListClients(vec![client(true, "")]));
    assert_eq!(acts.switch_to, None);
    assert!(!acts.arm_timer);
}

#[test]
fn permission_grant_hides_the_surface() {
    let mut s = State::default();
    let acts = s.update(HostEvent::PermissionResult(true));
    assert!(s.permissions_granted);
    assert!(acts.hide_ui);
    let acts = s.update(HostEvent::PermissionResult(false));
    assert!(!s.permissions_granted);
    assert!(!acts.hide_ui);
}

#[test]
fn timer_fire_requests_inspection_only_while_enabled() {
    let mut s = State::default();
    let _ = s.update(HostEvent::InputReceived);
    let _ = s.pipe(PipeCommand::Disable);
    let fired = s.update(HostEvent::TimerFired);
    assert!(!fired.request_clients);
    assert!(!s.timer_scheduled);
}

#[test]
fn pipe_enable_inspects_and_arms() {
    let mut s = State::default();
    let _ = s.pipe(PipeCommand::Disable);
    let acts = s.pipe(PipeCommand::Enable);
    assert!(s.is_enabled);
    assert!(acts.request_clients);
    assert!(acts.arm_timer);
    assert!(!acts.redraw);
}

#[test]
fn pipe_toggle_flips_the_enabled_flag() {
    let mut s = State::default();
    let _ = s.pipe(PipeCommand::Toggle);
    assert!(!s.is_enabled);
    let acts = s.pipe(PipeCommand::Toggle);
    assert!(s.is_enabled);
    assert!(acts.request_clients);
}

#[test]
fn unrecognized_pipe_message_changes_nothing_but_still_inspects() {
    let mut s = State::default();
    let acts = s.pipe(PipeCommand::Unrecognized);
    assert!(s.is_enabled);
    assert!(acts.request_clients);
    assert!(acts.arm_timer);
}

#[test]
fn pipe_payloads_decode_exactly() {
    assert_eq!(parse_pipe_command("enable"), PipeCommand::Enable);
    assert_eq!(parse_pipe_command("disable"), PipeCommand::Disable);
    assert_eq!(parse_pipe_command("toggle"), PipeCommand::Toggle);
    assert_eq!(parse_pipe_command("Enable"), PipeCommand::Unrecognized);
    assert_eq!(parse_pipe_command("enable "), PipeCommand::Unrecognized);
    assert_eq!(parse_pipe_command(""), PipeCommand::Unrecognized);
}

#[test]
fn irrelevant_events_are_absorbed() {
    let mut s = State::default();
    let acts = s.update(HostEvent::Irrelevant);
    assert!(!acts.arm_timer && !acts.request_clients && !acts.hide_ui && !acts.redraw);
    assert_eq!(acts.switch_to, None);
}
