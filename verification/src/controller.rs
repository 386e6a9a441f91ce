//! Controller: the reactive state machine that wires the focus
//! tracker, the debounce scheduler, the trigger classifier and the
//! mode transition guard together.
//!
//! The host delivers one event at a time; `update` merges it into the
//! session state and hands back the actions the host should perform
//! (request the client list, arm the single-shot timer, switch the
//! input mode, hide the controller's surface).  The controller itself
//! performs no host call: it only decides.

use vstd::prelude::*;
use crate::classify::classify;
use crate::config::is_truthy;
use crate::config::parse_trigger_list;
use crate::config::parse_truthy;
use crate::config::trigger_list;
use crate::classify::is_trigger_cmd;
use crate::focus::FocusedLocation;
use crate::focus::PaneRef;
use crate::focus::TabRef;
use crate::focus::pane_step;
use crate::focus::tab_step;
use crate::guard::Mode;
use crate::guard::decide;
use crate::guard::decide_spec;
use crate::text::str_eq;
use crate::text::trim_str;
use crate::text::trimmed;

verus! {

/// One connected client, as the host reports it: whether it is the
/// currently active client, and the command running in its pane (the
/// host sends `N/A` when there is none).
pub struct ClientRef {
    pub is_current_client: bool,
    pub running_command: String,
}

/// The host events the controller reacts to.  Everything else the
/// host may deliver is `Irrelevant` and leaves the state alone.
pub enum HostEvent {
    PermissionResult(bool),
    ModeUpdate(Mode),
    InputReceived,
    TabUpdate(Vec<TabRef>),
    PaneUpdate(Vec<PaneRef>),
    ListClients(Vec<ClientRef>),
    TimerFired,
    Irrelevant,
}

/// The control messages of the external channel; anything but the
/// three known payloads is `Unrecognized` and changes nothing.
#[derive(Clone, Copy, Debug, PartialEq, Eq, Structural)]
pub enum PipeCommand {
    Enable,
    Disable,
    Toggle,
    Unrecognized,
}

/// What the host is asked to do after an event: at most one of each,
/// and never a redraw (this controller has no visible surface).
#[derive(Clone, Copy, Debug, PartialEq, Eq, Structural)]
pub struct Actions {
    pub hide_ui: bool,
    pub request_clients: bool,
    pub switch_to: Option<Mode>,
    pub arm_timer: bool,
    pub redraw: bool,
}

/// No action at all.
pub open spec fn no_actions() -> Actions {
    Actions {
        hide_ui: false,
        request_clients: false,
        switch_to: None,
        arm_timer: false,
        redraw: false,
    }
}

/// No action at all.
pub fn actions_none() -> (a: Actions)
    ensures
        a == no_actions(),
{
    Actions {
        hide_ui: false,
        request_clients: false,
        switch_to: None,
        arm_timer: false,
        redraw: false,
    }
}

/// The controller's whole session state.
pub struct State {
    pub is_enabled: bool,
    pub permissions_granted: bool,
    pub lock_trigger_cmds: Vec<String>,
    pub timer_scheduled: bool,
    pub latest_tab_pane: FocusedLocation,
    pub latest_mode: Mode,
    pub latest_running_command: String,
    pub print_to_log: bool,
}

/// The debounce step: arming schedules a timer only when the feature
/// is enabled and no timer is outstanding, so at most one timer is
/// ever pending.
pub open spec fn arm_step(s: State) -> (State, bool) {
    if s.is_enabled && !s.timer_scheduled {
        (State { timer_scheduled: true, ..s }, true)
    } else {
        (s, false)
    }
}

/// Whether a client is the one whose command the controller inspects:
/// the current client, with a non-empty command field.
pub open spec fn client_matches(c: ClientRef) -> bool {
    c.is_current_client && c.running_command@.len() > 0
}

/// The first client of the snapshot that `client_matches`, if any.
pub open spec fn current_client(clients: Seq<ClientRef>) -> Option<ClientRef>
    decreases clients.len(),
{
    if clients.len() == 0 {
        None
    } else if client_matches(clients[0]) {
        Some(clients[0])
    } else {
        current_client(clients.drop_first())
    }
}

/// What a client-list snapshot does to the state and which actions it
/// yields: when enabled and a current client is visible, classify its
/// command, let the guard decide the switch, and — when the trimmed
/// command differs from the last one seen — record it and rearm the
/// debounce timer.  Everything else is a no-op.
pub open spec fn list_clients_post(
    pre: State,
    clients: Seq<ClientRef>,
    post: State,
    acts: Actions,
) -> bool {
    if !pre.is_enabled {
        post == pre && acts == no_actions()
    } else {
        match current_client(clients) {
            None => post == pre && acts == no_actions(),
            Some(c) => {
                let rc = trimmed(c.running_command@);
                let trig = is_trigger_cmd(c.running_command@, pre.lock_trigger_cmds@);
                let changed = rc != pre.latest_running_command@;
                &&& acts == (Actions {
                    switch_to: decide_spec(trig, pre.latest_mode),
                    arm_timer: changed && !pre.timer_scheduled,
                    ..no_actions()
                })
                &&& post.latest_running_command@ == rc
                &&& post.timer_scheduled == (pre.timer_scheduled || changed)
                &&& post.is_enabled == pre.is_enabled
                &&& post.permissions_granted == pre.permissions_granted
                &&& post.lock_trigger_cmds == pre.lock_trigger_cmds
                &&& post.latest_tab_pane == pre.latest_tab_pane
                &&& post.latest_mode == pre.latest_mode
                &&& post.print_to_log == pre.print_to_log
            },
        }
    }
}

/// The control message a payload string denotes: exactly `enable`,
/// `disable` or `toggle`; anything else is unrecognized.
pub open spec fn pipe_command_of(s: Seq<char>) -> PipeCommand {
    if s == seq!['e', 'n', 'a', 'b', 'l', 'e'] {
        PipeCommand::Enable
    } else if s == seq!['d', 'i', 's', 'a', 'b', 'l', 'e'] {
        PipeCommand::Disable
    } else if s == seq!['t', 'o', 'g', 'g', 'l', 'e'] {
        PipeCommand::Toggle
    } else {
        PipeCommand::Unrecognized
    }
}

/// Decode a control-channel payload into its closed command variant.
pub fn parse_pipe_command(payload: &str) -> (c: PipeCommand)
    ensures
        c == pipe_command_of(payload@),
{
    proof {
        reveal_strlit("enable");
        reveal_strlit("disable");
        reveal_strlit("toggle");
        assert("enable"@ =~= seq!['e', 'n', 'a', 'b', 'l', 'e']);
        assert("disable"@ =~= seq!['d', 'i', 's', 'a', 'b', 'l', 'e']);
        assert("toggle"@ =~= seq!['t', 'o', 'g', 'g', 'l', 'e']);
    }
    if str_eq(payload, "enable") {
        PipeCommand::Enable
    } else if str_eq(payload, "disable") {
        PipeCommand::Disable
    } else if str_eq(payload, "toggle") {
        PipeCommand::Toggle
    } else {
        PipeCommand::Unrecognized
    }
}

/// What a control message does to the enabled flag.
pub open spec fn enabled_after(cmd: PipeCommand, cur: bool) -> bool {
    match cmd {
        PipeCommand::Enable => true,
        PipeCommand::Disable => false,
        PipeCommand::Toggle => !cur,
        PipeCommand::Unrecognized => cur,
    }
}

proof fn lemma_current_client_found(clients: Seq<ClientRef>, i: int)
    requires
        0 <= i < clients.len(),
        forall|k: int| 0 <= k < i ==> !client_matches(clients[k]),
        client_matches(clients[i]),
    ensures
        current_client(clients) == Some(clients[i]),
    decreases i,
{
    if i > 0 {
        lemma_current_client_found(clients.drop_first(), i - 1);
    }
}

proof fn lemma_current_client_none(clients: Seq<ClientRef>)
    requires
        forall|k: int| 0 <= k < clients.len() ==> !client_matches(clients[k]),
    ensures
        current_client(clients) is None,
    decreases clients.len(),
{
    if clients.len() > 0 {
        lemma_current_client_none(clients.drop_first());
    }
}

/// The index of the first client the controller inspects, if any.
pub fn find_current_client(clients: &Vec<ClientRef>) -> (r: Option<usize>)
    ensures
        match r {
            Some(i) => i < clients@.len() && current_client(clients@) == Some(clients@[i as int]),
            None => current_client(clients@) is None,
        },
{
    let mut i: usize = 0;
    while i < clients.len()
        invariant
            i <= clients@.len(),
            forall|k: int| 0 <= k < i ==> !client_matches(clients@[k]),
        decreases clients@.len() - i,
    {
        if clients[i].is_current_client && !clients[i].running_command.as_str().is_empty() {
            proof {
                lemma_current_client_found(clients@, i as int);
            }
            return Some(i);
        }
        i += 1;
    }
    proof {
        lemma_current_client_none(clients@);
    }
    None
}

impl State {
    /// Arm the debounce timer: schedules only when enabled and no
    /// timer is outstanding, so bursts of qualifying events collapse
    /// into a single pending timer.
    pub fn start_timer(&mut self) -> (armed: bool)
        ensures
            (*final(self), armed) == arm_step(*old(self)),
    {
        if self.is_enabled && !self.timer_scheduled {
            self.timer_scheduled = true;
            true
        } else {
            false
        }
    }

    /// Merge one host event into the state and say which actions the
    /// host should perform.  Never requests a redraw.
    pub fn update(&mut self, event: HostEvent) -> (acts: Actions)
        ensures
            match event {
                HostEvent::PermissionResult(granted) => {
                    &&& *final(self) == (State { permissions_granted: granted, ..*old(self) })
                    &&& acts == (Actions { hide_ui: granted, ..no_actions() })
                },
                HostEvent::ModeUpdate(m) => {
                    let mid = State { latest_mode: m, ..*old(self) };
                    &&& *final(self) == arm_step(mid).0
                    &&& acts == (Actions { arm_timer: arm_step(mid).1, ..no_actions() })
                },
                HostEvent::InputReceived => {
                    &&& *final(self) == arm_step(*old(self)).0
                    &&& acts == (Actions { arm_timer: arm_step(*old(self)).1, ..no_actions() })
                },
                HostEvent::TabUpdate(tabs) => {
                    &&& *final(self) == (State {
                        latest_tab_pane: tab_step(old(self).latest_tab_pane, tabs@),
                        ..*old(self)
                    })
                    &&& acts == no_actions()
                },
                HostEvent::PaneUpdate(panes) => {
                    let stepped = pane_step(old(self).latest_tab_pane, panes@);
                    let mid = State { latest_tab_pane: stepped.0, ..*old(self) };
                    if stepped.1 {
                        &&& *final(self) == arm_step(mid).0
                        &&& acts == (Actions { arm_timer: arm_step(mid).1, ..no_actions() })
                    } else {
                        &&& *final(self) == mid
                        &&& acts == no_actions()
                    }
                },
                HostEvent::ListClients(clients) => list_clients_post(
                    *old(self),
                    clients@,
                    *final(self),
                    acts,
                ),
                HostEvent::TimerFired => {
                    &&& *final(self) == (State { timer_scheduled: false, ..*old(self) })
                    &&& acts == (Actions {
                        request_clients: old(self).is_enabled,
                        ..no_actions()
                    })
                },
                HostEvent::Irrelevant => {
                    &&& *final(self) == *old(self)
                    &&& acts == no_actions()
                },
            },
            acts.redraw == false,
    {
        match event {
            HostEvent::PermissionResult(granted) => {
                self.permissions_granted = granted;
                Actions { hide_ui: granted, ..actions_none() }
            },
            HostEvent::ModeUpdate(m) => {
                self.latest_mode = m;
                let armed = self.start_timer();
                Actions { arm_timer: armed, ..actions_none() }
            },
            HostEvent::InputReceived => {
                let armed = self.start_timer();
                Actions { arm_timer: armed, ..actions_none() }
            },
            HostEvent::TabUpdate(tabs) => {
                self.latest_tab_pane.note_tabs(&tabs);
                actions_none()
            },
            HostEvent::PaneUpdate(panes) => {
                let changed = self.latest_tab_pane.note_panes(&panes);
                if changed {
                    let armed = self.start_timer();
                    Actions { arm_timer: armed, ..actions_none() }
                } else {
                    actions_none()
                }
            },
            HostEvent::ListClients(clients) => {
                if !self.is_enabled {
                    return actions_none();
                }
                match find_current_client(&clients) {
                    None => actions_none(),
                    Some(idx) => {
                        let is_trig = classify(
                            clients[idx].running_command.as_str(),
                            &self.lock_trigger_cmds,
                        );
                        let switch = decide(is_trig, self.latest_mode);
                        let rc = trim_str(clients[idx].running_command.as_str());
                        let changed = !str_eq(
                            rc.as_str(),
                            self.latest_running_command.as_str(),
                        );
                        let mut armed = false;
                        if changed {
                            self.latest_running_command = rc;
                            armed = self.start_timer();
                        }
                        Actions { switch_to: switch, arm_timer: armed, ..actions_none() }
                    },
                }
            },
            HostEvent::TimerFired => {
                self.timer_scheduled = false;
                Actions { request_clients: self.is_enabled, ..actions_none() }
            },
            HostEvent::Irrelevant => actions_none(),
        }
    }

    /// Apply the startup configuration: a truthy `is_enabled` value, a
    /// pipe-delimited `triggers` list replacing the default trigger
    /// set, a truthy `print_to_log` value.  An absent value leaves the
    /// corresponding setting alone.  (The numeric reaction latency is
    /// a floating-point setting and stays with the host glue.)
    pub fn load_configuration(
        &mut self,
        is_enabled: Option<&String>,
        triggers: Option<&String>,
        print_to_log: Option<&String>,
    )
        ensures
            final(self).is_enabled == match is_enabled {
                Some(v) => is_truthy(v@),
                None => old(self).is_enabled,
            },
            match triggers {
                Some(v) => final(self).lock_trigger_cmds@.map_values(|t: String| t@)
                    == trigger_list(v@),
                None => final(self).lock_trigger_cmds == old(self).lock_trigger_cmds,
            },
            final(self).print_to_log == match print_to_log {
                Some(v) => is_truthy(v@),
                None => old(self).print_to_log,
            },
            final(self).permissions_granted == old(self).permissions_granted,
            final(self).timer_scheduled == old(self).timer_scheduled,
            final(self).latest_tab_pane == old(self).latest_tab_pane,
            final(self).latest_mode == old(self).latest_mode,
            final(self).latest_running_command == old(self).latest_running_command,
    {
        if let Some(v) = is_enabled {
            self.is_enabled = parse_truthy(v.as_str());
        }
        if let Some(v) = triggers {
            self.lock_trigger_cmds = parse_trigger_list(v.as_str());
        }
        if let Some(v) = print_to_log {
            self.print_to_log = parse_truthy(v.as_str());
        }
    }

    /// Handle one message of the external control channel: apply the
    /// command to the enabled flag; while enabled afterwards, request
    /// an immediate inspection pass and rearm the debounce cycle.
    /// Never requests a redraw.
    pub fn pipe(&mut self, cmd: PipeCommand) -> (acts: Actions)
        ensures
            ({
                let en = enabled_after(cmd, old(self).is_enabled);
                &&& final(self).is_enabled == en
                &&& final(self).timer_scheduled == (old(self).timer_scheduled || en)
                &&& final(self).permissions_granted == old(self).permissions_granted
                &&& final(self).lock_trigger_cmds == old(self).lock_trigger_cmds
                &&& final(self).latest_tab_pane == old(self).latest_tab_pane
                &&& final(self).latest_mode == old(self).latest_mode
                &&& final(self).latest_running_command == old(self).latest_running_command
                &&& final(self).print_to_log == old(self).print_to_log
                &&& acts == (Actions {
                    request_clients: en,
                    arm_timer: en && !old(self).timer_scheduled,
                    ..no_actions()
                })
            }),
    {
        match cmd {
            PipeCommand::Enable => {
                self.is_enabled = true;
            },
            PipeCommand::Disable => {
                self.is_enabled = false;
            },
            PipeCommand::Toggle => {
                self.is_enabled = !self.is_enabled;
            },
            PipeCommand::Unrecognized => {},
        }
        if self.is_enabled {
            let armed = self.start_timer();
            Actions { request_clients: true, arm_timer: armed, ..actions_none() }
        } else {
            actions_none()
        }
    }
}

impl Default for State {
    /// The startup state: enabled, no permissions yet, the two common
    /// text-editor invocation names as the trigger set, no timer
    /// pending, focus unknown, mode assumed `Normal`, no command seen.
    fn default() -> (r: State)
        ensures
            r.is_enabled == true,
            r.permissions_granted == false,
            r.lock_trigger_cmds@.len() == 2,
            r.lock_trigger_cmds@[0]@ == seq!['v', 'i', 'm'],
            r.lock_trigger_cmds@[1]@ == seq!['n', 'v', 'i', 'm'],
            r.timer_scheduled == false,
            r.latest_tab_pane == (FocusedLocation { tab_pos: None::<usize>, pane_id: None::<u32> }),
            r.latest_mode == Mode::Normal,
            r.latest_running_command@ == Seq::<char>::empty(),
            r.print_to_log == false,
    {
        let mut cmds: Vec<String> = Vec::new();
        cmds.push("vim".to_owned());
        cmds.push("nvim".to_owned());
        proof {
            reveal_strlit("vim");
            reveal_strlit("nvim");
            assert("vim"@ =~= seq!['v', 'i', 'm']);
            assert("nvim"@ =~= seq!['n', 'v', 'i', 'm']);
        }
        State {
            is_enabled: true,
            permissions_granted: false,
            lock_trigger_cmds: cmds,
            timer_scheduled: false,
            latest_tab_pane: FocusedLocation { tab_pos: None, pane_id: None },
            latest_mode: Mode::Normal,
            latest_running_command: String::new(),
            print_to_log: false,
        }
    }
}

/// End to end: while enabled and in `Normal` mode, a client snapshot
/// whose current client runs a trigger command yields a switch to
/// `Locked`.
pub proof fn lemma_snapshot_locks(pre: State, clients: Seq<ClientRef>, post: State, acts: Actions)
    requires
        list_clients_post(pre, clients, post, acts),
        pre.is_enabled,
        pre.latest_mode == Mode::Normal,
        current_client(clients) is Some,
        is_trigger_cmd(current_client(clients)->Some_0.running_command@, pre.lock_trigger_cmds@),
    ensures
        acts.switch_to == Some(Mode::Locked),
{
}

/// End to end: while enabled and in `Locked` mode, a client snapshot
/// whose current client runs no trigger — the `N/A` sentinel included
/// — yields a switch back to `Normal`.
pub proof fn lemma_snapshot_unlocks(pre: State, clients: Seq<ClientRef>, post: State, acts: Actions)
    requires
        list_clients_post(pre, clients, post, acts),
        pre.is_enabled,
        pre.latest_mode == Mode::Locked,
        current_client(clients) is Some,
        !is_trigger_cmd(current_client(clients)->Some_0.running_command@, pre.lock_trigger_cmds@),
    ensures
        acts.switch_to == Some(Mode::Normal),
{
}

/// Debounce law: arming is absorbing.  However a first arming went,
/// arming again right away schedules nothing new and changes nothing:
/// a burst of qualifying events yields at most one outstanding timer.
pub proof fn lemma_debounce_single_arm(s: State)
    ensures
        arm_step(arm_step(s).0).1 == false,
        arm_step(arm_step(s).0).0 == arm_step(s).0,
{
}

} // verus!
