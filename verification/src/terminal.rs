//! What the window reads of a terminal, and when it scrolls one.

use alacritty_terminal::term::TermMode;
use vstd::prelude::*;

verus! {

/// Size of a terminal grid, in cells.
#[derive(Clone, Copy, Debug, PartialEq, Eq, Structural)]
pub struct SizeInfo {
    pub screen_lines: usize,
    pub columns: usize,
}

/// The size that a terminal has to take on to fill the display.
pub open spec fn resize_to(terminal: SizeInfo, display: SizeInfo) -> Option<SizeInfo> {
    if terminal == display {
        None
    } else {
        Some(display)
    }
}

/// Direction of a search.
#[derive(Clone, Copy, Debug, PartialEq, Eq, Structural)]
pub enum Direction {
    Left,
    Right,
}

/// The part of the search that decides how the viewport moves.
#[derive(Clone, Copy, Debug, PartialEq, Eq, Structural)]
pub struct SearchState {
    /// Entry of the search history that is being edited; a search is running
    /// while there is one.
    pub history_index: Option<usize>,
    pub direction: Direction,
}

impl SearchState {
    pub open spec fn searching(self) -> bool {
        self.history_index is Some
    }

    /// Whether a search is running.
    pub fn is_searching(&self) -> (searching: bool)
        ensures
            searching == self.searching(),
    {
        self.history_index.is_some()
    }
}

impl Default for SearchState {
    fn default() -> (state: SearchState)
        ensures
            state == (SearchState { history_index: None, direction: Direction::Right }),
    {
        SearchState { history_index: None, direction: Direction::Right }
    }
}

/// Where the cursors of a terminal stand.
///
/// Lines are counted from the top of the screen; lines of the scrollback are
/// negative.
#[derive(Clone, Copy, Debug, PartialEq, Eq, Structural)]
pub struct CursorView {
    pub screen_lines: usize,
    pub cursor_line: i32,
    pub vi_cursor_line: i32,
    /// Bits of the terminal's mode.
    pub mode: u32,
}

/// Bit of the terminal's mode that is set in vi mode.
pub const VI_MODE: u32 = 0x1_0000;

impl CursorView {
    /// Vi mode is on.
    pub open spec fn vi(self) -> bool {
        self.mode & VI_MODE == VI_MODE
    }

    /// The line numbers can be computed with: there is a line below the cursor,
    /// and in vi mode there is a last line on the screen.
    pub open spec fn valid(self) -> bool {
        &&& self.cursor_line < i32::MAX
        &&& self.vi() ==> self.screen_lines > 0
    }

    /// The cursor stands on the last line of the screen.
    pub open spec fn cursor_at_bottom(self) -> bool {
        self.cursor_line + 1 == self.screen_lines as i32
    }

    /// A search in `direction` starts from the last line of the screen.
    pub open spec fn origin_at_bottom(self, direction: Direction) -> bool {
        if self.vi() {
            self.vi_cursor_line == ((self.screen_lines - 1) as usize) as i32
        } else {
            direction == Direction::Left
        }
    }

    /// How far the viewport moves once the display was updated.
    ///
    /// It moves only when a search has just begun, and then by the one line that
    /// keeps the origin of the search visible.
    pub open spec fn search_scroll(
        self,
        direction: Direction,
        old_is_searching: bool,
        new_is_searching: bool,
        display_offset: usize,
    ) -> Option<i32> {
        if old_is_searching || !new_is_searching {
            None
        } else if display_offset == 0 && self.cursor_at_bottom() && !self.origin_at_bottom(
            direction,
        ) {
            Some(1i32)
        } else if display_offset != 0 && self.origin_at_bottom(direction) {
            Some(-1i32)
        } else {
            None
        }
    }

    /// Decides how far the viewport moves once the display was updated.
    ///
    /// `self` and `direction` describe the terminal and the search before the
    /// update, `new_is_searching` and `display_offset` what they are after it.
    pub fn scroll_on_search_start(
        &self,
        direction: Direction,
        old_is_searching: bool,
        new_is_searching: bool,
        display_offset: usize,
    ) -> (delta: Option<i32>)
        requires
            self.valid(),
        ensures
            delta == self.search_scroll(
                direction,
                old_is_searching,
                new_is_searching,
                display_offset,
            ),
    {
        let num_lines = self.screen_lines;
        let cursor_at_bottom = self.cursor_line + 1 == num_lines as i32;
        let origin_at_bottom = if mode_contains_vi(self.mode) {
            self.vi_cursor_line == (num_lines - 1) as i32
        } else {
            direction == Direction::Left
        };

        if !old_is_searching && new_is_searching {
            if display_offset == 0 && cursor_at_bottom && !origin_at_bottom {
                return Some(1);
            } else if display_offset != 0 && origin_at_bottom {
                return Some(-1);
            }
        }
        None
    }
}

/// Asks `TermMode::contains` of alacritty_terminal whether mode bits hold
/// `TermMode::VI`.
///
/// The contract claims that this is so exactly when the bit [`VI_MODE`] is set.
#[verifier::external_body]
fn mode_contains_vi(mode: u32) -> (vi: bool)
    ensures
        vi == (mode & VI_MODE == VI_MODE),
{
    TermMode::from_bits_retain(mode).contains(TermMode::VI)
}

} // verus!
