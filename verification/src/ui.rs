//! Tracking of the hot and the active widget from one frame to the next.

use vstd::prelude::*;

verus! {

/// Identifies a widget. Zero identifies none.
pub type UiId = i32;

/// Which widget the pointer is over (`hot`), which one is engaged (`active`),
/// and which one has claimed the pointer for the coming frame (`next_hot`).
pub struct UIContext {
    pub hot: UiId,
    pub active: UiId,
    pub next_hot: UiId,
}

impl UIContext {
    /// A context in which no widget is hot, active or claiming the pointer.
    pub fn new() -> (context: UIContext)
        ensures
            context.hot == 0,
            context.active == 0,
            context.next_hot == 0,
    {
        UIContext { hot: 0, active: 0, next_hot: 0 }
    }

    /// Lets go of the active widget.
    pub fn set_not_active(&mut self)
        ensures
            final(self).active == 0,
            final(self).hot == old(self).hot,
            final(self).next_hot == old(self).next_hot,
    {
        self.active = 0;
    }

    /// Makes `id` the active widget.
    pub fn set_active(&mut self, id: UiId)
        ensures
            final(self).active == id,
            final(self).hot == old(self).hot,
            final(self).next_hot == old(self).next_hot,
    {
        self.active = id;
    }

    /// Records that `id` claims the pointer for the coming frame. A later claim
    /// in the same frame replaces an earlier one.
    pub fn set_next_hot(&mut self, id: UiId)
        ensures
            final(self).next_hot == id,
            final(self).hot == old(self).hot,
            final(self).active == old(self).active,
    {
        self.next_hot = id;
    }

    /// Makes no widget hot.
    pub fn set_not_hot(&mut self)
        ensures
            final(self).hot == 0,
            final(self).active == old(self).active,
            final(self).next_hot == old(self).next_hot,
    {
        self.hot = 0;
    }

    /// Starts a frame. Where no widget is active, the widget that claimed the
    /// pointer becomes hot; where one is, the hot widget stays. Either way the
    /// claim is cleared and the active widget is kept.
    pub fn frame_init(&mut self)
        ensures
            final(self).hot == if old(self).active == 0 {
                old(self).next_hot
            } else {
                old(self).hot
            },
            final(self).active == old(self).active,
            final(self).next_hot == 0,
    {
        if self.active == 0 {
            self.hot = self.next_hot;
        }
        self.next_hot = 0;
    }
}

} // verus!
