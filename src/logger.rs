//! The most recent log lines, kept for display: a bounded buffer that drops
//! its oldest line to make room.

use vstd::prelude::*;

use std::collections::VecDeque;

verus! {

/// `log::Level`, carried through as an opaque value.
#[verifier::external_type_specification]
#[verifier::external_body]
pub struct ExLevel(log::Level);

/// How many lines the buffer keeps.
pub const LOGGER_CAPACITY: usize = 20;

/// The last `LOGGER_CAPACITY` log lines, oldest first.
pub struct LogBuffer {
    lines: VecDeque<(log::Level, String)>,
}

/// The lines after `line` is added to `lines`: appended, with the oldest one
/// dropped when the buffer was full.
pub open spec fn pushed(lines: Seq<(log::Level, String)>, line: (log::Level, String)) -> Seq<
    (log::Level, String),
> {
    if lines.len() >= LOGGER_CAPACITY {
        lines.drop_first().push(line)
    } else {
        lines.push(line)
    }
}

/// The last `limit` lines of `lines` (all of them when there are fewer).
pub open spec fn latest(lines: Seq<(log::Level, String)>, limit: usize) -> Seq<
    (log::Level, String),
> {
    if limit >= lines.len() {
        lines
    } else {
        lines.subrange(lines.len() - limit, lines.len() as int)
    }
}

impl View for LogBuffer {
    type V = Seq<(log::Level, String)>;

    closed spec fn view(&self) -> Seq<(log::Level, String)> {
        self.lines@
    }
}

impl LogBuffer {
    /// At most `LOGGER_CAPACITY` lines are held.
    pub closed spec fn wf(&self) -> bool {
        self.lines@.len() <= LOGGER_CAPACITY
    }

    /// An empty buffer.
    pub fn new() -> (r: LogBuffer)
        ensures
            r.wf(),
            r@ == Seq::<(log::Level, String)>::empty(),
    {
        LogBuffer { lines: VecDeque::with_capacity(LOGGER_CAPACITY) }
    }

    /// Number of lines held.
    pub fn len(&self) -> (r: usize)
        ensures
            r == self@.len(),
    {
        self.lines.len()
    }

    /// Adds a line, dropping the oldest one when the buffer is full.
    pub fn push(&mut self, level: log::Level, msg: String)
        requires
            old(self).wf(),
        ensures
            final(self).wf(),
            final(self)@ == pushed(old(self)@, (level, msg)),
    {
        if self.lines.len() >= LOGGER_CAPACITY {
            self.lines.pop_front();
        }
        self.lines.push_back((level, msg));
    }

    /// Copies of the last `limit` lines, oldest first.
    pub fn latest_lines(&self, limit: usize) -> (r: Vec<(log::Level, String)>)
        requires
            self.wf(),
        ensures
            r@ == latest(self@, limit),
    {
        let len = self.lines.len();
        let start: usize = if limit >= len {
            0
        } else {
            len - limit
        };
        let mut out: Vec<(log::Level, String)> = Vec::new();
        let mut i: usize = start;
        while i < len
            invariant
                start <= i <= len,
                len == self.lines@.len(),
                out@ == self.lines@.subrange(start as int, i as int),
            decreases len - i,
        {
            let line = &self.lines[i];
            let level = line.0;
            let msg = line.1.clone();
            out.push((level, msg));
            assert(self.lines@.subrange(start as int, i + 1) =~= self.lines@.subrange(
                start as int,
                i as int,
            ).push(self.lines@[i as int]));
            i = i + 1;
        }
        assert(latest(self@, limit) =~= self.lines@.subrange(start as int, len as int));
        out
    }
}

} // verus!
