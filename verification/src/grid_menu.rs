//! Navigation of the special-character grid: a fixed-width grid walked
//! cell by cell with the up and down keys, select picking the current
//! cell.  The caller owns the cell texts and the drawing; auto-repeat
//! comes from a held-key detector with the menu timings.

use vstd::prelude::*;

use crate::Key;
use crate::held_key;

verus! {

/// The cells per grid row.
pub const ROW_LENGTH: usize = 8;

/// The abstract state of a grid menu: how many cells it has and which
/// one is current.
pub struct GridMenuModel {
    pub len: usize,
    pub row_index: int,
    pub column_index: int,
}

impl GridMenuModel {
    /// The current cell sits inside the grid.
    pub open spec fn wf(self) -> bool {
        &&& self.len >= 1
        &&& 0 <= self.column_index < ROW_LENGTH
        &&& 0 <= self.row_index
        &&& self.row_index * ROW_LENGTH + self.column_index < self.len
    }

    /// The index of the current cell.
    pub open spec fn selection(self) -> int {
        self.row_index * ROW_LENGTH + self.column_index
    }
}

/// One step towards the end of the grid: right inside a row, down to
/// the start of the next row from its last cell, and not past the last
/// cell.
pub open spec fn grid_down(m: GridMenuModel) -> GridMenuModel {
    if m.selection() == m.len - 1 {
        m
    } else if m.column_index == ROW_LENGTH - 1 {
        GridMenuModel { row_index: m.row_index + 1, column_index: 0, ..m }
    } else {
        GridMenuModel { column_index: m.column_index + 1, ..m }
    }
}

/// One step back towards the start of the grid.
pub open spec fn grid_up(m: GridMenuModel) -> GridMenuModel {
    if m.column_index == 0 && m.row_index == 0 {
        m
    } else if m.column_index == 0 {
        GridMenuModel { row_index: m.row_index - 1, column_index: (ROW_LENGTH - 1) as int, ..m }
    } else {
        GridMenuModel { column_index: m.column_index - 1, ..m }
    }
}

/// What one held-key event does to the menu: the down and up keys move
/// the cell (pressed, long-pressed or auto-repeating alike), select
/// picks the current cell, everything else changes nothing.
pub open spec fn grid_step(m: GridMenuModel, event: Option<held_key::Event>) -> (
    GridMenuModel,
    Option<int>,
) {
    match event {
        Some(held_key::Event::Down(Key::Down)) | Some(held_key::Event::Delay(Key::Down))
            | Some(held_key::Event::Repeat(Key::Down)) => (grid_down(m), None),
        Some(held_key::Event::Down(Key::Up)) | Some(held_key::Event::Delay(Key::Up))
            | Some(held_key::Event::Repeat(Key::Up)) => (grid_up(m), None),
        Some(held_key::Event::Down(Key::Select)) => (m, Some(m.selection())),
        _ => (m, None),
    }
}

/// The grid-menu navigator.  Its view is a [`GridMenuModel`]; the
/// held-key detector that paces auto-repeat rides along.
pub struct GridMenu {
    len: usize,
    row_index: usize,
    column_index: usize,
    held_key: held_key::HeldKey,
}

impl View for GridMenu {
    type V = GridMenuModel;

    closed spec fn view(&self) -> GridMenuModel {
        GridMenuModel {
            len: self.len,
            row_index: self.row_index as int,
            column_index: self.column_index as int,
        }
    }
}

impl GridMenu {
    /// A menu over `len` cells, starting at the first; the held-key
    /// detector is armed with the picker timings.
    pub fn new(len: usize) -> (r: Self)
        requires
            len >= 1,
        ensures
            r@ == (GridMenuModel { len, row_index: 0, column_index: 0 }),
            r@.wf(),
            r.spec_held().wf(),
            r.spec_held()@.timer is None,
    {
        Self { len, row_index: 0, column_index: 0, held_key: held_key::HeldKey::new(1500, 500) }
    }

    /// The held-key detector the caller feeds raw key transitions and
    /// timer fires through.
    pub fn held(&self) -> (r: &held_key::HeldKey)
        ensures
            r == self.spec_held(),
    {
        &self.held_key
    }

    pub closed spec fn spec_held(&self) -> &held_key::HeldKey {
        &self.held_key
    }

    /// Takes the held-key detector out and back, so that the caller
    /// can drive it; the navigation state is untouched.
    pub fn held_mut(&mut self) -> (r: &mut held_key::HeldKey)
        ensures
            *r == *old(self).spec_held(),
            final(self)@ == old(self)@,
            *final(self).spec_held() == *final(r),
    {
        &mut self.held_key
    }

    /// Feeds one held-key event in; see [`grid_step`].
    pub fn key_event(&mut self, event: Option<held_key::Event>) -> (r: Option<usize>)
        requires
            old(self)@.wf(),
        ensures
            final(self)@.wf(),
            final(self)@.len == old(self)@.len,
            *final(self).spec_held() == *old(self).spec_held(),
            ({
                let (m2, pick) = grid_step(old(self)@, event);
                &&& final(self)@ == m2
                &&& match r {
                    Some(i) => pick == Some(i as int) && i < old(self)@.len,
                    None => pick is None,
                }
            }),
    {
        match event {
            Some(held_key::Event::Down(Key::Down)) | Some(held_key::Event::Delay(Key::Down))
            | Some(held_key::Event::Repeat(Key::Down)) => {
                self.down();
                None
            }
            Some(held_key::Event::Down(Key::Up)) | Some(held_key::Event::Delay(Key::Up))
            | Some(held_key::Event::Repeat(Key::Up)) => {
                self.up();
                None
            }
            Some(held_key::Event::Down(Key::Select)) => Some(
                self.row_index * ROW_LENGTH + self.column_index,
            ),
            _ => None,
        }
    }

    fn down(&mut self)
        requires
            old(self)@.wf(),
        ensures
            final(self)@ == grid_down(old(self)@),
            final(self)@.wf(),
            *final(self).spec_held() == *old(self).spec_held(),
    {
        if self.column_index + self.row_index * ROW_LENGTH == self.len - 1 {
            return;
        }
        if self.column_index == ROW_LENGTH - 1 {
            self.row_index += 1;
            self.column_index = 0;
        } else {
            self.column_index += 1;
        }
    }

    fn up(&mut self)
        requires
            old(self)@.wf(),
        ensures
            final(self)@ == grid_up(old(self)@),
            final(self)@.wf(),
            *final(self).spec_held() == *old(self).spec_held(),
    {
        if self.column_index == 0 && self.row_index == 0 {
            return;
        }
        if self.column_index == 0 {
            self.row_index -= 1;
            self.column_index = ROW_LENGTH - 1;
        } else {
            self.column_index -= 1;
        }
    }
}

} // verus!
