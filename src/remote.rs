//! The remote-control screen: a grid of commands, four to a row, with one
//! of them highlighted.

use vstd::prelude::*;

use crate::events::{Remote, REMOTE_COUNT};

verus! {

/// Columns of the command grid.
pub const GRID_COLS: usize = 4;

/// Rows of the command grid (the last one partly filled).
pub const GRID_ROWS: usize = 3;

/// The command one step forward in grid order, wrapping to the first.
pub open spec fn spec_next_command(r: Remote) -> Remote {
    Remote::at((r.ord() + 1) % REMOTE_COUNT as int)
}

/// The command one step back in grid order, wrapping to the last.
pub open spec fn spec_prev_command(r: Remote) -> Remote {
    Remote::at((r.ord() + REMOTE_COUNT - 1) % REMOTE_COUNT as int)
}

/// The command in the same column one row down; past the last command it
/// wraps to that column of the first row.
pub open spec fn spec_next_row(r: Remote) -> Remote {
    if r.ord() + GRID_COLS < REMOTE_COUNT {
        Remote::at(r.ord() + GRID_COLS)
    } else {
        Remote::at(r.ord() % GRID_COLS as int)
    }
}

/// In grid positions: one row down from position `i` is `i + 4` while that
/// is a command, else `i mod 4` in the first row; the next and previous
/// commands are one position on and back, modulo the command count.
pub proof fn lemma_grid_positions(r: Remote)
    ensures
        spec_next_row(r).ord() == (if r.ord() + GRID_COLS < REMOTE_COUNT {
            r.ord() + GRID_COLS
        } else {
            r.ord() % GRID_COLS as int
        }),
        spec_next_command(r).ord() == (r.ord() + 1) % REMOTE_COUNT as int,
        spec_prev_command(r).ord() == (r.ord() + REMOTE_COUNT - 1) % REMOTE_COUNT as int,
{
    Remote::lemma_ord_at();
}

/// Which remote command is highlighted.
#[derive(Clone, Copy, Debug, PartialEq, Eq, Structural)]
pub struct TVState {
    pub current_btn: Remote,
}

impl TVState {
    /// Highlights the power command.
    pub fn new() -> (r: TVState)
        ensures
            r.current_btn == Remote::OnOff,
    {
        TVState { current_btn: Remote::OnOff }
    }

    /// Moves the highlight one row down in the same column, wrapping to the
    /// first row.
    pub fn next_row(&mut self) -> (r: Remote)
        ensures
            final(self).current_btn == spec_next_row(old(self).current_btn),
            r == final(self).current_btn,
    {
        proof {
            Remote::lemma_ord_at();
        }
        let cols = GRID_COLS;
        let len = REMOTE_COUNT;
        let idx = self.current_btn.index();
        let col = idx % cols;
        let new_idx = idx + cols;
        let next = if new_idx >= len {
            Remote::from_repr(col)
        } else {
            Remote::from_repr(new_idx)
        };
        match next {
            Some(btn) => {
                self.current_btn = btn;
            },
            None => {},
        }
        self.current_btn
    }

    /// Moves the highlight to the next command, wrapping to the first.
    pub fn next_btn(&mut self) -> (r: Remote)
        ensures
            final(self).current_btn == spec_next_command(old(self).current_btn),
            r == final(self).current_btn,
    {
        proof {
            Remote::lemma_ord_at();
        }
        let idx = (self.current_btn.index() + 1) % REMOTE_COUNT;
        match Remote::from_repr(idx) {
            Some(btn) => {
                self.current_btn = btn;
            },
            None => {},
        }
        self.current_btn
    }

    /// Moves the highlight to the previous command, wrapping to the last.
    pub fn prev_btn(&mut self) -> (r: Remote)
        ensures
            final(self).current_btn == spec_prev_command(old(self).current_btn),
            r == final(self).current_btn,
    {
        proof {
            Remote::lemma_ord_at();
        }
        let len = REMOTE_COUNT;
        let idx = (self.current_btn.index() + len - 1) % len;
        match Remote::from_repr(idx) {
            Some(btn) => {
                self.current_btn = btn;
            },
            None => {},
        }
        self.current_btn
    }
}

/// Layout of the command grid.
#[derive(Clone, Copy, Debug, PartialEq, Eq, Structural)]
pub struct TVRemote {
    pub cols: usize,
    pub rows: usize,
}

impl TVRemote {
    pub fn new() -> (r: TVRemote)
        ensures
            r.cols == GRID_COLS,
            r.rows == GRID_ROWS,
    {
        TVRemote { cols: GRID_COLS, rows: GRID_ROWS }
    }
}

/// The highlight that a remote screen starts with.
pub enum ActiveRemoteButton {
    OnOff,
}

} // verus!
