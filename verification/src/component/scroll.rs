//! The vertical scroll position of a screen taller than the terminal.
//!
//! The steps are those of `tui_scrollview::ScrollViewState`, with which the
//! screen is drawn: a row at a time, or a page less one row, never past either
//! end of the row numbers. A draw then fits the position to the content.

use vstd::prelude::*;

verus! {

/// How far a screen is scrolled down, and the height of one page once it is
/// known.
#[derive(Clone, Copy, Debug, PartialEq, Eq)]
pub struct ScrollState {
    /// The number of rows scrolled past.
    pub offset: u16,
    /// The number of rows drawn at once. Not known before the first draw.
    pub page_height: Option<u16>,
}

/// `a + b`, held at the largest row number.
pub open spec fn rows_add(a: int, b: int) -> int {
    if a + b > u16::MAX {
        u16::MAX as int
    } else {
        a + b
    }
}

/// `a - b`, held at zero.
pub open spec fn rows_sub(a: int, b: int) -> int {
    if a - b < 0 {
        0
    } else {
        a - b
    }
}

impl ScrollState {
    /// The position at the top, with the page height unknown.
    pub open spec fn top() -> ScrollState {
        ScrollState { offset: 0, page_height: None }
    }

    /// The number of rows that a page step moves by, plus one: the page height,
    /// or one while it is unknown.
    pub open spec fn page(self) -> int {
        match self.page_height {
            Some(height) => height as int,
            None => 1,
        }
    }

    /// The position one row up, or the top.
    pub open spec fn up(self) -> ScrollState {
        ScrollState { offset: rows_sub(self.offset as int, 1) as u16, ..self }
    }

    /// The position one row down, or the largest position.
    pub open spec fn down(self) -> ScrollState {
        ScrollState { offset: rows_add(self.offset as int, 1) as u16, ..self }
    }

    /// The position one page down, less one row so that pages overlap.
    pub open spec fn page_down(self) -> ScrollState {
        ScrollState {
            offset: rows_sub(rows_add(self.offset as int, self.page()), 1) as u16,
            ..self
        }
    }

    /// The position one page up, less one row so that pages overlap.
    pub open spec fn page_up(self) -> ScrollState {
        ScrollState {
            offset: rows_sub(rows_add(self.offset as int, 1), self.page()) as u16,
            ..self
        }
    }

    /// The top, on pages of the same height.
    pub open spec fn to_top(self) -> ScrollState {
        ScrollState { offset: 0, ..self }
    }

    /// The position after a draw of pages of `page_height` rows over content that
    /// can be scrolled down by at most `max_offset` rows.
    pub open spec fn fitted(self, page_height: u16, max_offset: u16) -> ScrollState {
        ScrollState {
            offset: if self.offset > max_offset {
                max_offset
            } else {
                self.offset
            },
            page_height: Some(page_height),
        }
    }

    /// The position at the top, with the page height unknown.
    pub fn new() -> (state: ScrollState)
        ensures
            state == ScrollState::top(),
    {
        ScrollState { offset: 0, page_height: None }
    }

    /// Scrolls one row up.
    pub fn scroll_up(&mut self)
        ensures
            *final(self) == old(self).up(),
    {
        self.offset = self.offset.saturating_sub(1);
    }

    /// Scrolls one row down.
    pub fn scroll_down(&mut self)
        ensures
            *final(self) == old(self).down(),
    {
        self.offset = self.offset.saturating_add(1);
    }

    /// Scrolls one page down.
    pub fn scroll_page_down(&mut self)
        ensures
            *final(self) == old(self).page_down(),
    {
        let page: u16 = match self.page_height {
            Some(height) => height,
            None => 1,
        };
        self.offset = self.offset.saturating_add(page).saturating_sub(1);
    }

    /// Scrolls one page up.
    pub fn scroll_page_up(&mut self)
        ensures
            *final(self) == old(self).page_up(),
    {
        let page: u16 = match self.page_height {
            Some(height) => height,
            None => 1,
        };
        self.offset = self.offset.saturating_add(1).saturating_sub(page);
    }

    /// Scrolls to the top.
    pub fn scroll_to_top(&mut self)
        ensures
            *final(self) == old(self).to_top(),
    {
        self.offset = 0;
    }

    /// Records what a draw found: the height of a page, and how far the content
    /// can be scrolled. A position past the end moves back to the end.
    pub fn fit(&mut self, page_height: u16, max_offset: u16)
        ensures
            *final(self) == old(self).fitted(page_height, max_offset),
    {
        if self.offset > max_offset {
            self.offset = max_offset;
        }
        self.page_height = Some(page_height);
    }
}

} // verus!
