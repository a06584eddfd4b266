//! Navigation of the scrolling list menu: a selection moved with the up
//! and down keys (auto-repeating while held), paging so that the
//! selection stays visible, select picking and cancel leaving.  The
//! caller owns the items and the drawing; after each draw it reports
//! the last row that fit on the page.

use vstd::prelude::*;

use crate::Key;
use crate::held_key;

verus! {

/// The abstract state of a menu: the item count, the selection, and the
/// paging bookkeeping — where the page starts, the last index the
/// caller could draw, and how many rows the previous page held.
pub struct MenuModel {
    pub len: usize,
    pub index: int,
    pub start_of_page_index: int,
    pub bottom_visible_index: int,
    pub page_size: int,
}

impl MenuModel {
    /// The selection sits inside the list and behind the page start,
    /// and whenever the page was moved off the top a page size was
    /// recorded.
    pub open spec fn wf(self) -> bool {
        &&& self.len >= 1
        &&& 0 <= self.index < self.len
        &&& 0 <= self.start_of_page_index <= self.index
        &&& (self.start_of_page_index > 0 ==> self.page_size >= 1)
    }
}

/// One step down the list: the selection moves (stopping at the last
/// item), and when it leaves the visible rows the page is moved so that
/// the selection starts the next page, remembering the page size.
pub open spec fn menu_down(m: MenuModel) -> MenuModel {
    let index = if m.index < m.len - 1 {
        m.index + 1
    } else {
        m.index
    };
    if index > m.bottom_visible_index {
        MenuModel {
            index,
            page_size: index - m.start_of_page_index,
            start_of_page_index: index,
            ..m
        }
    } else {
        MenuModel { index, ..m }
    }
}

/// One step up the list: the selection moves (stopping at the first
/// item), and when it climbs above the page start the page is moved
/// back by one previous page.
pub open spec fn menu_up(m: MenuModel) -> MenuModel {
    let index = if m.index > 0 {
        m.index - 1
    } else {
        m.index
    };
    if index < m.start_of_page_index {
        let back = index - (m.page_size - 1);
        MenuModel {
            index,
            start_of_page_index: if back >= 0 {
                back
            } else {
                0
            },
            ..m
        }
    } else {
        MenuModel { index, ..m }
    }
}

/// What one round of the menu ends in: still browsing, left without a
/// choice, or an item picked.
#[derive(Debug, Clone, Copy, PartialEq, Eq, Structural)]
pub enum MenuOutcome {
    Browsing,
    Cancelled,
    Selected(usize),
}

/// What one held-key event does to the menu: the down and up keys move
/// the selection (pressed, long-pressed or auto-repeating alike),
/// cancel leaves, select picks the current item.
pub open spec fn menu_step(m: MenuModel, event: Option<held_key::Event>) -> (
    MenuModel,
    MenuOutcome,
) {
    match event {
        Some(held_key::Event::Down(Key::Down)) | Some(held_key::Event::Delay(Key::Down))
            | Some(held_key::Event::Repeat(Key::Down)) => (menu_down(m), MenuOutcome::Browsing),
        Some(held_key::Event::Down(Key::Up)) | Some(held_key::Event::Delay(Key::Up))
            | Some(held_key::Event::Repeat(Key::Up)) => (menu_up(m), MenuOutcome::Browsing),
        Some(held_key::Event::Down(Key::Cancel)) => (m, MenuOutcome::Cancelled),
        Some(held_key::Event::Down(Key::Select)) => (m, MenuOutcome::Selected(m.index as usize)),
        _ => (m, MenuOutcome::Browsing),
    }
}

/// The list-menu navigator.  Its view is a [`MenuModel`]; the held-key
/// detector that paces auto-repeat rides along, armed with the menu
/// timings.
pub struct Menu {
    len: usize,
    index: usize,
    start_of_page_index: usize,
    bottom_visible_index: usize,
    page_size: usize,
    held_key: held_key::HeldKey,
}

impl View for Menu {
    type V = MenuModel;

    closed spec fn view(&self) -> MenuModel {
        MenuModel {
            len: self.len,
            index: self.index as int,
            start_of_page_index: self.start_of_page_index as int,
            bottom_visible_index: self.bottom_visible_index as int,
            page_size: self.page_size as int,
        }
    }
}

impl Menu {
    /// A menu over `len` items — there must be some — starting at the
    /// first.
    pub fn new(len: usize) -> (r: Self)
        requires
            len >= 1,
        ensures
            r@ == (MenuModel {
                len,
                index: 0,
                start_of_page_index: 0,
                bottom_visible_index: 0,
                page_size: 0,
            }),
            r@.wf(),
            r.spec_held().wf(),
            r.spec_held()@.timer is None,
    {
        Self {
            len,
            index: 0,
            start_of_page_index: 0,
            bottom_visible_index: 0,
            page_size: 0,
            held_key: held_key::HeldKey::new(750, 250),
        }
    }

    pub closed spec fn spec_held(&self) -> &held_key::HeldKey {
        &self.held_key
    }

    /// The held-key detector the caller feeds raw key transitions and
    /// timer fires through.
    pub fn held_mut(&mut self) -> (r: &mut held_key::HeldKey)
        ensures
            *r == *old(self).spec_held(),
            final(self)@ == old(self)@,
            *final(self).spec_held() == *final(r),
    {
        &mut self.held_key
    }

    /// The page start, so that the caller draws the page from there.
    pub fn start_of_page(&self) -> (r: usize)
        ensures
            r as int == self@.start_of_page_index,
    {
        self.start_of_page_index
    }

    /// The selection, for the caller to highlight.
    pub fn index(&self) -> (r: usize)
        ensures
            r as int == self@.index,
    {
        self.index
    }

    /// After a draw, the last item index that fit on the page.  A draw
    /// never fits fewer than the row it starts with.
    pub fn set_bottom_visible(&mut self, index: usize)
        requires
            index as int >= old(self)@.start_of_page_index,
        ensures
            final(self)@ == (MenuModel { bottom_visible_index: index as int, ..old(self)@ }),
            *final(self).spec_held() == *old(self).spec_held(),
    {
        self.bottom_visible_index = index;
    }

    /// Feeds one held-key event in; see [`menu_step`].  The caller
    /// reports the drawn page bottom before each event, which is what
    /// keeps the paging sound.
    pub fn key_event(&mut self, event: Option<held_key::Event>) -> (r: MenuOutcome)
        requires
            old(self)@.wf(),
            old(self)@.bottom_visible_index >= old(self)@.start_of_page_index,
        ensures
            final(self)@.wf(),
            final(self)@.len == old(self)@.len,
            *final(self).spec_held() == *old(self).spec_held(),
            (final(self)@, r) == menu_step(old(self)@, event),
            r matches MenuOutcome::Selected(i) ==> i < old(self)@.len,
    {
        match event {
            Some(held_key::Event::Down(Key::Down)) | Some(held_key::Event::Delay(Key::Down))
            | Some(held_key::Event::Repeat(Key::Down)) => {
                self.down();
                MenuOutcome::Browsing
            }
            Some(held_key::Event::Down(Key::Up)) | Some(held_key::Event::Delay(Key::Up))
            | Some(held_key::Event::Repeat(Key::Up)) => {
                self.up();
                MenuOutcome::Browsing
            }
            Some(held_key::Event::Down(Key::Cancel)) => MenuOutcome::Cancelled,
            Some(held_key::Event::Down(Key::Select)) => MenuOutcome::Selected(self.index),
            _ => MenuOutcome::Browsing,
        }
    }

    fn down(&mut self)
        requires
            old(self)@.wf(),
            old(self)@.bottom_visible_index >= old(self)@.start_of_page_index,
        ensures
            final(self)@ == menu_down(old(self)@),
            final(self)@.wf(),
            *final(self).spec_held() == *old(self).spec_held(),
    {
        if self.index < self.len - 1 {
            self.index += 1;
        }
        if self.index > self.bottom_visible_index {
            self.page_size = self.index - self.start_of_page_index;
            self.start_of_page_index = self.index;
        }
    }

    fn up(&mut self)
        requires
            old(self)@.wf(),
        ensures
            final(self)@ == menu_up(old(self)@),
            final(self)@.wf(),
            *final(self).spec_held() == *old(self).spec_held(),
    {
        if self.index > 0 {
            self.index -= 1;
        }
        if self.index < self.start_of_page_index {
            let back = self.page_size - 1;
            self.start_of_page_index = if self.index >= back {
                self.index - back
            } else {
                0
            };
        }
    }
}

} // verus!
