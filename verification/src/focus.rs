//! Focus tracker: maintains the identity of the currently focused tab
//! and pane, merging in the tab and pane snapshots the host delivers.
//!
//! A pane identifier is only meaningful within one tab, so switching
//! tabs discards the tracked pane; pane snapshots are consulted for
//! the tracked tab only.

use vstd::prelude::*;

verus! {

/// The pane currently believed to hold keyboard focus.  `None` is the
/// "unset" state: nothing is known yet (startup, or a fresh tab whose
/// focused pane has not been reported).
#[derive(Clone, Copy, Debug, PartialEq, Eq, Structural)]
pub struct FocusedLocation {
    pub tab_pos: Option<usize>,
    pub pane_id: Option<u32>,
}

/// One tab of a tab snapshot: its ordinal position and whether the
/// host considers it the active tab.
#[derive(Clone, Copy, Debug, PartialEq, Eq, Structural)]
pub struct TabRef {
    pub position: usize,
    pub active: bool,
}

/// One pane of a pane snapshot: the position of the tab it belongs
/// to, its identifier, whether it holds focus, and whether it is a
/// plugin surface (plugin panes never count as the focused terminal).
#[derive(Clone, Copy, Debug, PartialEq, Eq, Structural)]
pub struct PaneRef {
    pub tab_pos: usize,
    pub id: u32,
    pub is_focused: bool,
    pub is_plugin: bool,
}

/// The first active tab of a snapshot, if any.
pub open spec fn focused_tab(tabs: Seq<TabRef>) -> Option<TabRef>
    decreases tabs.len(),
{
    if tabs.len() == 0 {
        None
    } else if tabs[0].active {
        Some(tabs[0])
    } else {
        focused_tab(tabs.drop_first())
    }
}

/// Whether a pane counts as the focused terminal pane of tab
/// `tab_pos`.
pub open spec fn pane_matches(p: PaneRef, tab_pos: usize) -> bool {
    p.tab_pos == tab_pos && p.is_focused && !p.is_plugin
}

/// The first focused, non-plugin pane of tab `tab_pos`, if any.
pub open spec fn focused_pane(tab_pos: usize, panes: Seq<PaneRef>) -> Option<PaneRef>
    decreases panes.len(),
{
    if panes.len() == 0 {
        None
    } else if pane_matches(panes[0], tab_pos) {
        Some(panes[0])
    } else {
        focused_pane(tab_pos, panes.drop_first())
    }
}

/// How a tab snapshot changes the tracked location: a newly focused
/// tab position replaces the location and unsets the pane; anything
/// else leaves it alone.
pub open spec fn tab_step(loc: FocusedLocation, tabs: Seq<TabRef>) -> FocusedLocation {
    match focused_tab(tabs) {
        Some(t) => if loc.tab_pos != Some(t.position) {
            FocusedLocation { tab_pos: Some(t.position), pane_id: None }
        } else {
            loc
        },
        None => loc,
    }
}

/// How a pane snapshot changes the tracked location, and whether that
/// counts as a focus change the controller should react to.  Only the
/// tracked tab is consulted; a new pane id there is recorded and
/// signalled, everything else is a no-op.
pub open spec fn pane_step(loc: FocusedLocation, panes: Seq<PaneRef>) -> (FocusedLocation, bool) {
    match loc.tab_pos {
        Some(tp) => match focused_pane(tp, panes) {
            Some(p) => if loc.pane_id != Some(p.id) {
                (FocusedLocation { tab_pos: loc.tab_pos, pane_id: Some(p.id) }, true)
            } else {
                (loc, false)
            },
            None => (loc, false),
        },
        None => (loc, false),
    }
}

proof fn lemma_focused_tab_found(tabs: Seq<TabRef>, i: int)
    requires
        0 <= i < tabs.len(),
        forall|k: int| 0 <= k < i ==> !tabs[k].active,
        tabs[i].active,
    ensures
        focused_tab(tabs) == Some(tabs[i]),
    decreases i,
{
    if i > 0 {
        lemma_focused_tab_found(tabs.drop_first(), i - 1);
    }
}

proof fn lemma_focused_tab_none(tabs: Seq<TabRef>)
    requires
        forall|k: int| 0 <= k < tabs.len() ==> !tabs[k].active,
    ensures
        focused_tab(tabs) == None::<TabRef>,
    decreases tabs.len(),
{
    if tabs.len() > 0 {
        lemma_focused_tab_none(tabs.drop_first());
    }
}

proof fn lemma_focused_pane_found(tab_pos: usize, panes: Seq<PaneRef>, i: int)
    requires
        0 <= i < panes.len(),
        forall|k: int| 0 <= k < i ==> !pane_matches(panes[k], tab_pos),
        pane_matches(panes[i], tab_pos),
    ensures
        focused_pane(tab_pos, panes) == Some(panes[i]),
    decreases i,
{
    if i > 0 {
        lemma_focused_pane_found(tab_pos, panes.drop_first(), i - 1);
    }
}

proof fn lemma_focused_pane_none(tab_pos: usize, panes: Seq<PaneRef>)
    requires
        forall|k: int| 0 <= k < panes.len() ==> !pane_matches(panes[k], tab_pos),
    ensures
        focused_pane(tab_pos, panes) == None::<PaneRef>,
    decreases panes.len(),
{
    if panes.len() > 0 {
        lemma_focused_pane_none(tab_pos, panes.drop_first());
    }
}

/// The first active tab of a snapshot, if any.
pub fn find_focused_tab(tabs: &Vec<TabRef>) -> (r: Option<TabRef>)
    ensures
        r == focused_tab(tabs@),
{
    let mut i: usize = 0;
    while i < tabs.len()
        invariant
            i <= tabs@.len(),
            forall|k: int| 0 <= k < i ==> !tabs@[k].active,
        decreases tabs@.len() - i,
    {
        if tabs[i].active {
            proof {
                lemma_focused_tab_found(tabs@, i as int);
            }
            return Some(tabs[i]);
        }
        i += 1;
    }
    proof {
        lemma_focused_tab_none(tabs@);
    }
    None
}

/// The first focused, non-plugin pane of tab `tab_pos`, if any.
pub fn find_focused_pane(tab_pos: usize, panes: &Vec<PaneRef>) -> (r: Option<PaneRef>)
    ensures
        r == focused_pane(tab_pos, panes@),
{
    let mut i: usize = 0;
    while i < panes.len()
        invariant
            i <= panes@.len(),
            forall|k: int| 0 <= k < i ==> !pane_matches(panes@[k], tab_pos),
        decreases panes@.len() - i,
    {
        if panes[i].tab_pos == tab_pos && panes[i].is_focused && !panes[i].is_plugin {
            proof {
                lemma_focused_pane_found(tab_pos, panes@, i as int);
            }
            return Some(panes[i]);
        }
        i += 1;
    }
    proof {
        lemma_focused_pane_none(tab_pos, panes@);
    }
    None
}

impl FocusedLocation {
    /// The unset location: nothing is known about focus yet.
    pub fn unset() -> (r: FocusedLocation)
        ensures
            r == (FocusedLocation { tab_pos: None::<usize>, pane_id: None::<u32> }),
    {
        FocusedLocation { tab_pos: None, pane_id: None }
    }

    /// Merge a tab snapshot: a change of focused tab replaces the
    /// location and discards the stale pane identity.
    pub fn note_tabs(&mut self, tabs: &Vec<TabRef>)
        ensures
            *final(self) == tab_step(*old(self), tabs@),
    {
        if let Some(tab) = find_focused_tab(tabs) {
            let changed = match self.tab_pos {
                Some(tp) => tp != tab.position,
                None => true,
            };
            if changed {
                self.tab_pos = Some(tab.position);
                self.pane_id = None;
            }
        }
    }

    /// Merge a pane snapshot; the result says whether the tracked
    /// pane changed, which is the focus-change signal the controller
    /// reacts to.
    pub fn note_panes(&mut self, panes: &Vec<PaneRef>) -> (changed: bool)
        ensures
            (*final(self), changed) == pane_step(*old(self), panes@),
    {
        let tp = match self.tab_pos {
            Some(tp) => tp,
            None => {
                return false;
            },
        };
        if let Some(pane) = find_focused_pane(tp, panes) {
            let differs = match self.pane_id {
                Some(pid) => pid != pane.id,
                None => true,
            };
            if differs {
                self.pane_id = Some(pane.id);
                return true;
            }
        }
        false
    }
}

/// A pane snapshot that holds no pane of the tracked tab never updates
/// the tracked pane id and never signals a focus change.
pub proof fn lemma_pane_update_other_tab(loc: FocusedLocation, panes: Seq<PaneRef>)
    requires
        forall|i: int| 0 <= i < panes.len() ==> loc.tab_pos != Some(panes[i].tab_pos),
    ensures
        pane_step(loc, panes) == (loc, false),
{
    if let Some(tp) = loc.tab_pos {
        assert(forall|k: int| 0 <= k < panes.len() ==> !pane_matches(panes[k], tp));
        lemma_focused_pane_none(tp, panes);
    }
}

} // verus!
