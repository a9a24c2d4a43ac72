//! The joystick peripheral: its two axis readings classified into a
//! direction, reported only when the direction changes, and its button
//! reported on each press.

use vstd::prelude::*;

use crate::events::{Event, JoyC, JoycDirection};

verus! {

/// Magnitude an axis reading must exceed to count as a direction.
pub const DIRECTION_THRESHOLD: i8 = 35;

/// Milliseconds between two polls of the joystick.
pub const POLL_INTERVAL_MS: u64 = 50;

/// A direction of the stick away from its rest position.
#[derive(Clone, Copy, Debug, PartialEq, Eq, Structural)]
pub enum JoyDirection {
    Up,
    Down,
    Left,
    Right,
}

pub open spec fn abs(v: i8) -> int {
    if v < 0 {
        -(v as int)
    } else {
        v as int
    }
}

/// The direction of readings `(x, y)`: the axis of larger magnitude decides
/// (`y` on a tie); past `threshold` on `x` it is Down or Up, on `y` Right or
/// Left; otherwise none.
pub open spec fn spec_classify(x: i8, y: i8, threshold: i8) -> Option<JoyDirection> {
    if abs(x) > abs(y) {
        if x > threshold {
            Some(JoyDirection::Down)
        } else if x < -threshold {
            Some(JoyDirection::Up)
        } else {
            None
        }
    } else if y > threshold {
        Some(JoyDirection::Right)
    } else if y < -threshold {
        Some(JoyDirection::Left)
    } else {
        None
    }
}

/// The direction that the bus reports for a classification.
pub open spec fn spec_bus_direction(d: Option<JoyDirection>) -> JoycDirection {
    match d {
        Some(JoyDirection::Up) => JoycDirection::Up,
        Some(JoyDirection::Down) => JoycDirection::Down,
        Some(JoyDirection::Left) => JoycDirection::Left,
        Some(JoyDirection::Right) => JoycDirection::Right,
        None => JoycDirection::Center,
    }
}

/// The direction that the bus reports for a classification.
pub fn bus_direction(d: Option<JoyDirection>) -> (r: JoycDirection)
    ensures
        r == spec_bus_direction(d),
{
    match d {
        Some(JoyDirection::Up) => JoycDirection::Up,
        Some(JoyDirection::Down) => JoycDirection::Down,
        Some(JoyDirection::Left) => JoycDirection::Left,
        Some(JoyDirection::Right) => JoycDirection::Right,
        None => JoycDirection::Center,
    }
}

/// What the joystick saw at its last poll.
#[derive(Clone, Copy, Debug, PartialEq, Eq, Structural)]
pub struct MiniJoyC {
    /// Classification at the last poll that read the stick.
    pub prev_direction: Option<JoyDirection>,
    /// Button level at the last poll; none before the first.
    pub prev_button: Option<bool>,
}

impl MiniJoyC {
    /// Nothing seen yet.
    pub fn new() -> (r: MiniJoyC)
        ensures
            r.prev_direction.is_none() && r.prev_button.is_none(),
    {
        MiniJoyC { prev_direction: None, prev_button: None }
    }

    /// Classifies readings `(x, y)` against `threshold`.
    pub fn classify_direction(x: i8, y: i8, threshold: i8) -> (r: Option<JoyDirection>)
        ensures
            r == spec_classify(x, y, threshold),
    {
        let ax: i16 = if x < 0 {
            -(x as i16)
        } else {
            x as i16
        };
        let ay: i16 = if y < 0 {
            -(y as i16)
        } else {
            y as i16
        };
        let t = threshold as i16;
        if ax > ay {
            if (x as i16) > t {
                Some(JoyDirection::Down)
            } else if (x as i16) < -t {
                Some(JoyDirection::Up)
            } else {
                None
            }
        } else if (y as i16) > t {
            Some(JoyDirection::Right)
        } else if (y as i16) < -t {
            Some(JoyDirection::Left)
        } else {
            None
        }
    }

    /// The joystick after a poll that read `(x, y)` and `button`.
    pub open spec fn polled(self, x: i8, y: i8, button: bool) -> MiniJoyC {
        MiniJoyC {
            prev_direction: spec_classify(x, y, DIRECTION_THRESHOLD),
            prev_button: Some(button),
        }
    }

    /// The events of a poll that read `(x, y)` and `button`: the new direction
    /// with its readings when the classification changed, then a click when
    /// the button went down since the previous poll.
    pub open spec fn poll_events(self, x: i8, y: i8, button: bool) -> Seq<Event> {
        let d = spec_classify(x, y, DIRECTION_THRESHOLD);
        (if d != self.prev_direction {
            seq![Event::JoyC(JoyC::Pos { dir: spec_bus_direction(d), val: (x, y) })]
        } else {
            Seq::empty()
        }) + (if self.prev_button == Some(false) && button {
            seq![Event::JoyC(JoyC::Button)]
        } else {
            Seq::empty()
        })
    }

    /// Takes one poll's readings and returns the events to publish, in order.
    pub fn poll(&mut self, x: i8, y: i8, button: bool) -> (r: Vec<Event>)
        ensures
            *final(self) == old(self).polled(x, y, button),
            r@ == old(self).poll_events(x, y, button),
    {
        let mut events: Vec<Event> = Vec::new();
        let direction = MiniJoyC::classify_direction(x, y, DIRECTION_THRESHOLD);

        if direction != self.prev_direction {
            events.push(Event::JoyC(JoyC::Pos { dir: bus_direction(direction), val: (x, y) }));
            self.prev_direction = direction;
        }

        let was_down = match self.prev_button {
            Some(b) => b,
            None => false,
        };
        if self.prev_button.is_some() && button && !was_down {
            events.push(Event::JoyC(JoyC::Button));
        }
        self.prev_button = Some(button);
        assert(events@ =~= old(self).poll_events(x, y, button));
        events
    }
}

} // verus!
