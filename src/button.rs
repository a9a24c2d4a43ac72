//! Edge detection for the three push buttons, sampled on a fixed tick.

use vstd::prelude::*;

use crate::events::{self, Event};

verus! {

/// One button: the level seen at the last sample and the edges that the last
/// sample showed.
#[derive(Clone, Copy, Debug, PartialEq, Eq, Structural)]
pub struct Button {
    pub prev_state: bool,
    pub just_pressed: bool,
    pub just_released: bool,
    pub changed: bool,
}

impl Button {
    /// Released, with no edge seen yet.
    pub fn new() -> (r: Button)
        ensures
            r == Button::new_spec(),
    {
        Button { prev_state: false, just_pressed: false, just_released: false, changed: false }
    }

    /// The button after a sample that found it `pressed` or not.
    pub open spec fn sampled(self, pressed: bool) -> Button {
        Button {
            prev_state: pressed,
            just_pressed: pressed && !self.prev_state,
            just_released: !pressed && self.prev_state,
            changed: pressed != self.prev_state,
        }
    }

    pub open spec fn new_spec() -> Button {
        Button { prev_state: false, just_pressed: false, just_released: false, changed: false }
    }

    /// Takes one sample of the button's level.
    pub fn update(&mut self, pressed: bool)
        ensures
            *final(self) == old(self).sampled(pressed),
    {
        self.just_pressed = pressed && !self.prev_state;
        self.just_released = !pressed && self.prev_state;
        self.changed = pressed != self.prev_state;
        self.prev_state = pressed;
    }

    pub fn just_pressed(&self) -> (r: bool)
        ensures
            r == self.just_pressed,
    {
        self.just_pressed
    }

    pub fn just_released(&self) -> (r: bool)
        ensures
            r == self.just_released,
    {
        self.just_released
    }

    pub fn changed(&self) -> (r: bool)
        ensures
            r == self.changed,
    {
        self.changed
    }

    /// Whether the last sample found the button pressed.
    pub fn is_pressed(&self) -> (r: bool)
        ensures
            r == self.prev_state,
    {
        self.prev_state
    }

    /// The bus events for the edges of the last sample of button `id`.
    pub open spec fn edge_events(self, id: events::Button) -> Seq<Event> {
        (if self.just_pressed {
            seq![Event::ButtonDown(id)]
        } else {
            Seq::empty()
        }) + (if self.just_released {
            seq![Event::ButtonUp(id)]
        } else {
            Seq::empty()
        })
    }
}

/// The three buttons of the device.
#[derive(Clone, Copy, Debug, PartialEq, Eq, Structural)]
pub struct Buttons {
    pub a: Button,
    pub b: Button,
    pub c: Button,
}

impl Buttons {
    pub fn new() -> (r: Buttons)
        ensures
            r.a == Button::new_spec() && r.b == Button::new_spec() && r.c == Button::new_spec(),
    {
        Buttons { a: Button::new(), b: Button::new(), c: Button::new() }
    }

    /// The events that a sample of the three buttons yields: the edges of A,
    /// then of B, then of C, and a redraw while any of them is held.
    pub open spec fn update_events(self) -> Seq<Event> {
        self.a.edge_events(events::Button::A) + self.b.edge_events(events::Button::B)
            + self.c.edge_events(events::Button::C) + if self.a.prev_state || self.b.prev_state
            || self.c.prev_state {
            seq![Event::Draw]
        } else {
            Seq::empty()
        }
    }

    /// Samples all three buttons and returns the events to publish, in order.
    pub fn update(&mut self, a: bool, b: bool, c: bool) -> (r: Vec<Event>)
        ensures
            final(self).a == old(self).a.sampled(a),
            final(self).b == old(self).b.sampled(b),
            final(self).c == old(self).c.sampled(c),
            r@ == final(self).update_events(),
    {
        self.a.update(a);
        self.b.update(b);
        self.c.update(c);

        let mut events: Vec<Event> = Vec::new();
        if self.a.just_pressed() {
            events.push(Event::ButtonDown(events::Button::A));
        }
        if self.a.just_released() {
            events.push(Event::ButtonUp(events::Button::A));
        }
        if self.b.just_pressed() {
            events.push(Event::ButtonDown(events::Button::B));
        }
        if self.b.just_released() {
            events.push(Event::ButtonUp(events::Button::B));
        }
        if self.c.just_pressed() {
            events.push(Event::ButtonDown(events::Button::C));
        }
        if self.c.just_released() {
            events.push(Event::ButtonUp(events::Button::C));
        }
        if self.a.is_pressed() || self.b.is_pressed() || self.c.is_pressed() {
            events.push(Event::Draw);
        }
        assert(events@ =~= self.update_events());
        events
    }
}

} // verus!
