//! Mode transition guard: given the classifier's verdict and the last
//! known input mode, decide whether a mode switch should be issued.
//!
//! The guard only ever manages the `Normal`/`Locked` pair.  Any other
//! host-defined mode was chosen by the user, and the guard refuses to
//! clobber it: from a third mode no switch is ever issued.

use vstd::prelude::*;

verus! {

/// The host's input mode, as far as this controller cares: the managed
/// pair, and one variant standing for every other host-defined mode.
#[derive(Clone, Copy, Debug, PartialEq, Eq, Structural)]
pub enum Mode {
    Normal,
    Locked,
    Other,
}

/// What the guard decides: `Some(target)` means "switch the host to
/// `target`", `None` means leave the mode alone.
pub open spec fn decide_spec(is_trigger: bool, last_known: Mode) -> Option<Mode> {
    if is_trigger {
        if last_known == Mode::Normal {
            Some(Mode::Locked)
        } else {
            None
        }
    } else {
        if last_known == Mode::Locked {
            Some(Mode::Normal)
        } else {
            None
        }
    }
}

/// Decide whether to switch the input mode.
///
/// A trigger command locks input, but only from `Normal`; a
/// non-trigger unlocks, but only from `Locked`.  In every other case,
/// including every mode outside the managed pair, nothing is issued,
/// so the guard never repeats a switch it already made and never
/// overrides a mode it does not manage.
pub fn decide(is_trigger: bool, last_known: Mode) -> (switch: Option<Mode>)
    ensures
        switch == decide_spec(is_trigger, last_known),
{
    match (is_trigger, last_known) {
        (true, Mode::Normal) => Some(Mode::Locked),
        (false, Mode::Locked) => Some(Mode::Normal),
        _ => None,
    }
}

/// The guard is idempotent on its own outcomes: once input is locked a
/// trigger asks for nothing, and once it is normal a non-trigger asks
/// for nothing.
pub proof fn lemma_decide_idempotent()
    ensures
        decide_spec(true, Mode::Locked) == None::<Mode>,
        decide_spec(false, Mode::Normal) == None::<Mode>,
{
}

/// The guard never touches a mode outside the managed pair: whatever
/// the classifier said, from a third mode no switch is issued.
pub proof fn lemma_guard_safety()
    ensures
        forall|is_trigger: bool, m: Mode|
            m != Mode::Normal && m != Mode::Locked ==> decide_spec(is_trigger, m) == None::<Mode>,
{
}

/// A switch, when one is issued, always targets the managed pair and
/// never targets the mode the host is already in.
pub proof fn lemma_decide_no_redundant_switch()
    ensures
        forall|is_trigger: bool, m: Mode|
            #[trigger] decide_spec(is_trigger, m) matches Some(t)
                ==> t != m && (t == Mode::Normal || t == Mode::Locked),
{
}

} // verus!
