//! The popup subsystem: one registry per bar, at most one popup visible.
//!
//! A module that declares a popup registers its node once, at
//! construction, keyed by its unique id; open, close and toggle only
//! change which registered popup is visible, the nodes are never rebuilt.

use crate::widgets::{BuiltNode, Container};
use vstd::prelude::*;

verus! {

/// One module's popup: its UI node and the UI elements that can request
/// its appearance.
#[derive(Debug)]
pub struct PopupEntry {
    pub id: usize,
    pub content: Container,
    pub buttons: Vec<BuiltNode>,
}

/// The per-bar popup registry: every registered popup node, and the id of
/// the at most one that is visible.
#[derive(Debug)]
pub struct PopupRegistry {
    pub visible: Option<usize>,
    pub entries: Vec<PopupEntry>,
}

impl PopupRegistry {
    /// Ids are registered at most once, and only a registered popup can
    /// be visible.
    pub open spec fn wf(self) -> bool {
        &&& forall|i: int, j: int|
            0 <= i < j < self.entries@.len() ==> #[trigger] self.entries@[i].id
                != #[trigger] self.entries@[j].id
        &&& (self.visible matches Some(id) ==> self.spec_registered(id))
    }

    /// Whether a popup node is registered under `id`.
    pub open spec fn spec_registered(self, id: usize) -> bool {
        exists|i: int| 0 <= i < self.entries@.len() && (#[trigger] self.entries@[i].id) == id
    }

    /// Whether `id`'s popup is the visible one.
    pub open spec fn is_visible(self, id: usize) -> bool {
        self.visible == Some(id)
    }

    /// The registry after `open(id)`: the previously visible popup, if
    /// any, is closed, and `id`'s popup is shown — unless `id` is not
    /// registered, in which case nothing changes.
    pub open spec fn spec_open(self, id: usize) -> PopupRegistry {
        if self.spec_registered(id) {
            PopupRegistry { visible: Some(id), entries: self.entries }
        } else {
            self
        }
    }

    /// The registry after `close()`: no popup is visible.
    pub open spec fn spec_close(self) -> PopupRegistry {
        PopupRegistry { visible: None, entries: self.entries }
    }

    /// The registry after `toggle(id)`: closed if `id` was the visible
    /// popup, opened otherwise.
    pub open spec fn spec_toggle(self, id: usize) -> PopupRegistry {
        if self.visible == Some(id) {
            self.spec_close()
        } else {
            self.spec_open(id)
        }
    }

    /// An empty registry with nothing visible.
    pub fn new() -> (r: PopupRegistry)
        ensures
            r.wf(),
            r.visible is None,
            r.entries@ =~= Seq::<PopupEntry>::empty(),
    {
        PopupRegistry { visible: None, entries: Vec::new() }
    }

    /// Whether a popup node is registered under `id`.
    pub fn registered(&self, id: usize) -> (r: bool)
        ensures
            r == self.spec_registered(id),
    {
        let n = self.entries.len();
        let mut i: usize = 0;
        while i < n
            invariant
                0 <= i <= n,
                n == self.entries@.len(),
                forall|j: int| 0 <= j < i ==> (#[trigger] self.entries@[j].id) != id,
            decreases n - i,
        {
            if self.entries[i].id == id {
                return true;
            }
            i += 1;
        }
        false
    }

    /// Registers a popup node under a fresh id. Construction hands out
    /// process-unique ids, so a caller never holds a registered one.
    pub fn register(&mut self, entry: PopupEntry)
        requires
            old(self).wf(),
            !old(self).spec_registered(entry.id),
        ensures
            final(self).wf(),
            final(self).visible == old(self).visible,
            final(self).entries@ =~= old(self).entries@.push(entry),
            final(self).spec_registered(entry.id),
    {
        self.entries.push(entry);
        proof {
            assert forall|id: usize| old(self).spec_registered(id) implies self.spec_registered(
                id,
            ) by {
                let i = choose|i: int|
                    0 <= i < old(self).entries@.len() && (#[trigger] old(self).entries@[i].id)
                        == id;
                assert(self.entries@[i].id == id);
            }
            assert(self.entries@[self.entries@.len() - 1].id == entry.id);
        }
    }

    /// Shows `id`'s popup, closing any currently open one first; with an
    /// unregistered id nothing changes. Returns whether the popup was
    /// shown.
    pub fn open(&mut self, id: usize) -> (shown: bool)
        requires
            old(self).wf(),
        ensures
            final(self).wf(),
            *final(self) == old(self).spec_open(id),
            shown == old(self).spec_registered(id),
    {
        if self.registered(id) {
            self.visible = Some(id);
            true
        } else {
            false
        }
    }

    /// Hides the visible popup; with none open this is a no-op, not an
    /// error.
    pub fn close(&mut self)
        requires
            old(self).wf(),
        ensures
            final(self).wf(),
            *final(self) == old(self).spec_close(),
            final(self).visible is None,
    {
        self.visible = None;
    }

    /// Opens `id`'s popup if it is not the visible one, and closes it if
    /// it is. Returns whether the popup is visible afterwards.
    pub fn toggle(&mut self, id: usize) -> (now_visible: bool)
        requires
            old(self).wf(),
        ensures
            final(self).wf(),
            *final(self) == old(self).spec_toggle(id),
            now_visible == final(self).is_visible(id),
    {
        let is_open = match self.visible {
            Some(v) => v == id,
            None => false,
        };
        if is_open {
            self.close();
            false
        } else {
            self.open(id)
        }
    }
}

/// At most one popup is visible per bar: whenever `a`'s popup is visible,
/// no other module's popup is.
pub proof fn lemma_popup_exclusive(reg: PopupRegistry, a: usize, b: usize)
    requires
        reg.is_visible(a),
        a != b,
    ensures
        !reg.is_visible(b),
{
}

/// Opening `a`'s popup hides whatever was visible: afterwards `a`'s popup
/// is visible and every other popup is not — never two at once.
pub proof fn lemma_open_excludes(reg: PopupRegistry, a: usize)
    requires
        reg.wf(),
        reg.spec_registered(a),
    ensures
        reg.spec_open(a).is_visible(a),
        forall|b: usize| b != a ==> !reg.spec_open(a).is_visible(b),
{
}

/// Toggling a module's popup twice returns the registry to its prior
/// state, provided no other module's popup was visible at the start.
pub proof fn lemma_toggle_twice(reg: PopupRegistry, id: usize)
    requires
        reg.wf(),
        reg.spec_registered(id),
        reg.visible is None || reg.visible == Some(id),
    ensures
        reg.spec_toggle(id).spec_toggle(id) == reg,
{
}

} // verus!
