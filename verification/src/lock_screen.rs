//! The lock screen and its quick menu.  Locked, the device only shows
//! the clock; select opens a short window in which the asterisk key
//! confirms the unlock (the caller runs that timed race and reports its
//! outcome).  Unlocked, select opens a one-item-at-a-time menu that the
//! up and down keys cycle through, wrapping at both ends, and the same
//! select-then-asterisk window locks the device again.

use vstd::prelude::*;

use crate::Key;
use crate::KeyEvent;

verus! {

/// The abstract state of the lock screen: locked or not, whether the
/// quick menu is open, how many entries it has and which is shown.
pub struct LockScreenModel {
    pub locked: bool,
    pub menu_open: bool,
    pub len: usize,
    pub index: int,
}

impl LockScreenModel {
    /// The shown entry sits inside the menu.
    pub open spec fn wf(self) -> bool {
        &&& self.len >= 1
        &&& 0 <= self.index < self.len
    }
}

/// What one key press does to the lock screen.  Locked, keys decide
/// nothing here: unlocking hangs on the timed select-then-asterisk
/// race that the caller runs.  Unlocked with the menu open, the up and
/// down keys cycle the entry with wrap-around, cancel closes the menu,
/// and select picks the shown entry.  Unlocked with the menu closed,
/// select opens it.
pub open spec fn lock_screen_step(m: LockScreenModel, event: KeyEvent) -> (
    LockScreenModel,
    Option<int>,
) {
    if m.locked {
        (m, None)
    } else if m.menu_open {
        match event {
            KeyEvent::Down(Key::Cancel) => (LockScreenModel { menu_open: false, ..m }, None),
            KeyEvent::Down(Key::Down) => (
                LockScreenModel { index: (m.index + 1) % (m.len as int), ..m },
                None,
            ),
            KeyEvent::Down(Key::Up) => (
                LockScreenModel {
                    index: if m.index == 0 {
                        m.len - 1
                    } else {
                        m.index - 1
                    },
                    ..m
                },
                None,
            ),
            KeyEvent::Down(Key::Select) => (m, Some(m.index)),
            _ => (m, None),
        }
    } else {
        match event {
            KeyEvent::Down(Key::Select) => (LockScreenModel { menu_open: true, ..m }, None),
            _ => (m, None),
        }
    }
}

/// The lock screen.  Its view is a [`LockScreenModel`].
#[derive(Debug)]
pub struct LockScreen {
    locked: bool,
    menu_open: bool,
    len: usize,
    index: usize,
}

impl View for LockScreen {
    type V = LockScreenModel;

    closed spec fn view(&self) -> LockScreenModel {
        LockScreenModel {
            locked: self.locked,
            menu_open: self.menu_open,
            len: self.len,
            index: self.index as int,
        }
    }
}

impl LockScreen {
    /// A locked screen over a menu of `len` entries — there must be
    /// some.
    pub fn new(len: usize) -> (r: Self)
        requires
            len >= 1,
        ensures
            r@ == (LockScreenModel { locked: true, menu_open: false, len, index: 0 }),
            r@.wf(),
    {
        Self { locked: true, menu_open: false, len, index: 0 }
    }

    pub fn locked(&self) -> (r: bool)
        ensures
            r == self@.locked,
    {
        self.locked
    }

    pub fn menu_open(&self) -> (r: bool)
        ensures
            r == self@.menu_open,
    {
        self.menu_open
    }

    /// The menu entry to show.
    pub fn index(&self) -> (r: usize)
        ensures
            r as int == self@.index,
    {
        self.index
    }

    /// The caller won the unlock race: the asterisk key arrived inside
    /// the window that select opened while locked.
    pub fn confirm_unlock(&mut self)
        ensures
            final(self)@ == (LockScreenModel { locked: false, ..old(self)@ }),
    {
        self.locked = false;
    }

    /// The caller won the lock race: the asterisk key arrived inside
    /// the window that select opened while unlocked with the menu
    /// closed.
    pub fn confirm_lock(&mut self)
        ensures
            final(self)@ == (LockScreenModel { locked: true, menu_open: false, ..old(self)@ }),
    {
        self.locked = true;
        self.menu_open = false;
    }

    /// Feeds one key press in; see [`lock_screen_step`].
    pub fn key_event(&mut self, event: KeyEvent) -> (r: Option<usize>)
        requires
            old(self)@.wf(),
        ensures
            final(self)@.wf(),
            final(self)@.len == old(self)@.len,
            ({
                let (m2, pick) = lock_screen_step(old(self)@, event);
                &&& final(self)@ == m2
                &&& match r {
                    Some(i) => pick == Some(i as int) && i < old(self)@.len,
                    None => pick is None,
                }
            }),
    {
        if self.locked {
            return None;
        }
        if self.menu_open {
            match event {
                KeyEvent::Down(Key::Cancel) => {
                    self.menu_open = false;
                    None
                }
                KeyEvent::Down(Key::Down) => {
                    self.index = (self.index + 1) % self.len;
                    None
                }
                KeyEvent::Down(Key::Up) => {
                    if self.index == 0 {
                        self.index = self.len - 1;
                    } else {
                        self.index -= 1;
                    }
                    None
                }
                KeyEvent::Down(Key::Select) => Some(self.index),
                _ => None,
            }
        } else {
            match event {
                KeyEvent::Down(Key::Select) => {
                    self.menu_open = true;
                    None
                }
                _ => None,
            }
        }
    }
}

} // verus!
