//! The events that travel on the bus between input sources, the controller
//! and the output tasks.

use vstd::prelude::*;

verus! {

/// Snapshot of battery and heap figures, passed through unchanged.
#[derive(Clone, Copy, Debug, PartialEq, Eq, Structural)]
pub struct Stats {
    pub battery_level: u8,
    pub heap_used: usize,
    pub heap_free: usize,
}

impl Stats {
    /// All figures zero.
    pub fn new() -> (r: Stats)
        ensures
            r.battery_level == 0 && r.heap_used == 0 && r.heap_free == 0,
    {
        Stats { battery_level: 0, heap_used: 0, heap_free: 0 }
    }
}

/// A peripheral that announced itself on the bus.
#[derive(Clone, Copy, Debug, PartialEq, Eq, Structural)]
pub enum StickHat {
    MiniJoyC,
}

/// Direction reported by the joystick; `Center` when it rests.
#[derive(Clone, Copy, Debug, PartialEq, Eq, Structural)]
pub enum JoycDirection {
    Up,
    Down,
    Left,
    Right,
    Center,
}

/// What the joystick reports: a click of its button, or a new direction with
/// the raw axis readings that gave it.
#[derive(Clone, Copy, Debug, PartialEq, Eq)]
pub enum JoyC {
    Button,
    Pos { dir: JoycDirection, val: (i8, i8) },
}

/// Everything that travels on the bus.
#[derive(Clone, Copy, Debug, PartialEq, Eq)]
pub enum Event {
    /// A peripheral was found and set up.
    InitHat(StickHat),
    /// The screen should be drawn again.
    Draw,
    StatsUpdated(Stats),
    ButtonDown(Button),
    ButtonUp(Button),
    /// A command to send to the television.
    Remote(Remote),
    JoyC(JoyC),
    /// A line was added to the log.
    LogAdded,
}

/// A physical button.
#[derive(Clone, Copy, Debug, PartialEq, Eq, Structural)]
pub enum Button {
    A,
    B,
    C,
}

/// The remote-control commands, in grid order: four columns, rows filled
/// left to right.
#[derive(Clone, Copy, Debug, PartialEq, Eq, Structural)]
pub enum Remote {
    OnOff,
    Home,
    Back,
    Okay,
    Up,
    Right,
    Down,
    Left,
    Mute,
    VolumeUp,
    VolumeDown,
}

/// Number of remote commands.
pub const REMOTE_COUNT: usize = 11;

impl Remote {
    /// Ordinal position of the command in grid order.
    pub open spec fn ord(self) -> int {
        match self {
            Remote::OnOff => 0,
            Remote::Home => 1,
            Remote::Back => 2,
            Remote::Okay => 3,
            Remote::Up => 4,
            Remote::Right => 5,
            Remote::Down => 6,
            Remote::Left => 7,
            Remote::Mute => 8,
            Remote::VolumeUp => 9,
            Remote::VolumeDown => 10,
        }
    }

    /// The command at ordinal `i` (meaningful for `i < REMOTE_COUNT`).
    pub open spec fn at(i: int) -> Remote {
        if i == 0 {
            Remote::OnOff
        } else if i == 1 {
            Remote::Home
        } else if i == 2 {
            Remote::Back
        } else if i == 3 {
            Remote::Okay
        } else if i == 4 {
            Remote::Up
        } else if i == 5 {
            Remote::Right
        } else if i == 6 {
            Remote::Down
        } else if i == 7 {
            Remote::Left
        } else if i == 8 {
            Remote::Mute
        } else if i == 9 {
            Remote::VolumeUp
        } else {
            Remote::VolumeDown
        }
    }

    /// `ord` and `at` are inverse to each other.
    pub proof fn lemma_ord_at()
        ensures
            forall|r: Remote| 0 <= #[trigger] r.ord() < REMOTE_COUNT && Remote::at(r.ord()) == r,
            forall|i: int| 0 <= i < REMOTE_COUNT ==> #[trigger] Remote::at(i).ord() == i,
    {
    }

    /// The text shown for the command on the grid.
    pub open spec fn label_text(self) -> Seq<char> {
        match self {
            Remote::OnOff => "on"@,
            Remote::Home => "home"@,
            Remote::Back => "back"@,
            Remote::Okay => "ok"@,
            Remote::Up => "\u{2191}"@,
            Remote::Right => "\u{2192}"@,
            Remote::Down => "\u{2193}"@,
            Remote::Left => "\u{2190}"@,
            Remote::Mute => "mute"@,
            Remote::VolumeUp => "vol \u{2191}"@,
            Remote::VolumeDown => "vol \u{2193}"@,
        }
    }

    /// The text shown for the command on the grid.
    pub fn label(self) -> (r: String)
        ensures
            r@ == self.label_text(),
    {
        let s: &str = match self {
            Remote::OnOff => "on",
            Remote::Home => "home",
            Remote::Back => "back",
            Remote::Okay => "ok",
            Remote::Up => "\u{2191}",
            Remote::Right => "\u{2192}",
            Remote::Down => "\u{2193}",
            Remote::Left => "\u{2190}",
            Remote::Mute => "mute",
            Remote::VolumeUp => "vol \u{2191}",
            Remote::VolumeDown => "vol \u{2193}",
        };
        s.to_owned()
    }

    /// Ordinal position of the command.
    pub fn index(self) -> (r: usize)
        ensures
            r == self.ord(),
            r < REMOTE_COUNT,
    {
        match self {
            Remote::OnOff => 0,
            Remote::Home => 1,
            Remote::Back => 2,
            Remote::Okay => 3,
            Remote::Up => 4,
            Remote::Right => 5,
            Remote::Down => 6,
            Remote::Left => 7,
            Remote::Mute => 8,
            Remote::VolumeUp => 9,
            Remote::VolumeDown => 10,
        }
    }

    /// The command at ordinal `i`, if there is one.
    pub fn from_repr(i: usize) -> (r: Option<Remote>)
        ensures
            i < REMOTE_COUNT ==> r == Some(Remote::at(i as int)),
            i >= REMOTE_COUNT ==> r.is_none(),
    {
        match i {
            0 => Some(Remote::OnOff),
            1 => Some(Remote::Home),
            2 => Some(Remote::Back),
            3 => Some(Remote::Okay),
            4 => Some(Remote::Up),
            5 => Some(Remote::Right),
            6 => Some(Remote::Down),
            7 => Some(Remote::Left),
            8 => Some(Remote::Mute),
            9 => Some(Remote::VolumeUp),
            10 => Some(Remote::VolumeDown),
            _ => None,
        }
    }
}

} // verus!
