//! Requests to the window system, and a model of what they do to a window.
use crate::win32::{
    excludes_from_taskbar, refuses_activation, ANCHOR_BOTTOM, EX_NOACTIVATE, EX_TOOLWINDOW,
    INDEX_EXSTYLE, POS_NOACTIVATE, POS_NOMOVE, POS_NOSIZE, POS_NOZORDER,
};
use vstd::prelude::*;

verus! {

/// One request to the window system, which the host carries out on the main
/// window through its native handle.
#[derive(Clone, Copy, Debug, PartialEq, Eq, Structural)]
pub enum WindowAction {
    /// `SetWindowLongW`: store `value` in the window under `index`.
    SetLong { index: i32, value: i32 },
    /// `SetWindowPos`: place the window behind `insert_after`, at `x`, `y`
    /// with size `cx`, `cy`, as far as `flags` allow it.
    SetPos { insert_after: isize, x: i32, y: i32, cx: i32, cy: i32, flags: u32 },
}

/// What can be observed of a window from outside: its extended style, whether
/// it lies at the bottom of the Z-order, its frame, and whether it is the
/// active window.
#[derive(Clone, Copy, Debug, PartialEq, Eq, Structural)]
pub struct WindowState {
    pub ex_style: i32,
    pub at_bottom: bool,
    pub x: i32,
    pub y: i32,
    pub width: i32,
    pub height: i32,
    pub active: bool,
}

impl WindowState {
    /// The window after the window system has carried out `action`.
    ///
    /// Only the extended style is kept of what `SetLong` stores. `SetPos`
    /// changes the Z-order unless `POS_NOZORDER` is set, the position unless
    /// `POS_NOMOVE` is set and the size unless `POS_NOSIZE` is set, and it
    /// activates the window unless `POS_NOACTIVATE` is set.
    pub open spec fn after(self, action: WindowAction) -> WindowState {
        match action {
            WindowAction::SetLong { index, value } => WindowState {
                ex_style: if index == INDEX_EXSTYLE {
                    value
                } else {
                    self.ex_style
                },
                ..self
            },
            WindowAction::SetPos { insert_after, x, y, cx, cy, flags } => {
                let keep_order = flags & POS_NOZORDER != 0;
                let keep_place = flags & POS_NOMOVE != 0;
                let keep_size = flags & POS_NOSIZE != 0;
                let keep_focus = flags & POS_NOACTIVATE != 0;
                WindowState {
                    ex_style: self.ex_style,
                    at_bottom: if keep_order {
                        self.at_bottom
                    } else {
                        insert_after == ANCHOR_BOTTOM
                    },
                    x: if keep_place {
                        self.x
                    } else {
                        x
                    },
                    y: if keep_place {
                        self.y
                    } else {
                        y
                    },
                    width: if keep_size {
                        self.width
                    } else {
                        cx
                    },
                    height: if keep_size {
                        self.height
                    } else {
                        cy
                    },
                    active: if keep_focus {
                        self.active
                    } else {
                        true
                    },
                }
            },
        }
    }

    /// The window after `actions` have been carried out in order.
    pub open spec fn after_all(self, actions: Seq<WindowAction>) -> WindowState
        decreases actions.len(),
    {
        if actions.len() == 0 {
            self
        } else {
            self.after_all(actions.drop_last()).after(actions.last())
        }
    }

    /// The window has no taskbar button.
    pub open spec fn taskbar_excluded(self) -> bool {
        excludes_from_taskbar(self.ex_style)
    }

    /// The window cannot be activated.
    pub open spec fn non_activating(self) -> bool {
        refuses_activation(self.ex_style)
    }

    /// The window behaves like a part of the desktop: out of the taskbar,
    /// never active by a click, below every other window.
    pub open spec fn pinned(self) -> bool {
        self.taskbar_excluded() && self.non_activating() && self.at_bottom
    }

    /// No actions leave the window as it is.
    pub proof fn lemma_after_none(self)
        ensures
            self.after_all(Seq::empty()) == self,
    {
    }

    /// One action alone is that action.
    pub proof fn lemma_after_one(self, a: WindowAction)
        ensures
            self.after_all(seq![a]) == self.after(a),
    {
        assert(seq![a].drop_last() =~= Seq::<WindowAction>::empty());
        assert(self.after_all(seq![a].drop_last()) == self);
    }

    /// Two actions are carried out first to last.
    pub proof fn lemma_after_two(self, a: WindowAction, b: WindowAction)
        ensures
            self.after_all(seq![a, b]) == self.after(a).after(b),
    {
        assert(seq![a, b].drop_last() =~= seq![a]);
        self.lemma_after_one(a);
    }

    /// Carries out `action` on this window as the window system would.
    pub fn perform(&mut self, action: WindowAction)
        ensures
            *final(self) == old(self).after(action),
    {
        match action {
            WindowAction::SetLong { index, value } => {
                if index == INDEX_EXSTYLE {
                    self.ex_style = value;
                }
            },
            WindowAction::SetPos { insert_after, x, y, cx, cy, flags } => {
                if flags & POS_NOZORDER == 0 {
                    self.at_bottom = insert_after == ANCHOR_BOTTOM;
                }
                if flags & POS_NOMOVE == 0 {
                    self.x = x;
                    self.y = y;
                }
                if flags & POS_NOSIZE == 0 {
                    self.width = cx;
                    self.height = cy;
                }
                if flags & POS_NOACTIVATE == 0 {
                    self.active = true;
                }
            },
        }
    }

    /// Carries out `actions` on this window, first to last.
    pub fn perform_all(&mut self, actions: &Vec<WindowAction>)
        ensures
            *final(self) == old(self).after_all(actions@),
    {
        let mut i: usize = 0;
        while i < actions.len()
            invariant
                i <= actions.len(),
                *self == old(self).after_all(actions@.take(i as int)),
            decreases actions.len() - i,
        {
            assert(actions@.take(i + 1).drop_last() =~= actions@.take(i as int));
            self.perform(actions[i]);
            i += 1;
        }
        assert(actions@.take(i as int) =~= actions@);
    }

    /// Tells whether the window has no taskbar button.
    pub fn is_taskbar_excluded(&self) -> (yes: bool)
        ensures
            yes == self.taskbar_excluded(),
    {
        self.ex_style & EX_TOOLWINDOW == EX_TOOLWINDOW
    }

    /// Tells whether the window refuses activation.
    pub fn is_non_activating(&self) -> (yes: bool)
        ensures
            yes == self.non_activating(),
    {
        self.ex_style & EX_NOACTIVATE == EX_NOACTIVATE
    }

    /// Tells whether the window is pinned to the desktop.
    pub fn is_pinned(&self) -> (yes: bool)
        ensures
            yes == self.pinned(),
    {
        self.is_taskbar_excluded() && self.is_non_activating() && self.at_bottom
    }
}

} // verus!
