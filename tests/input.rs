use stick::button::{Button, Buttons};
use stick::events::{self, Event, JoyC, JoycDirection};
use stick::minijoyc::{JoyDirection, MiniJoyC, DIRECTION_THRESHOLD};

#[test]
fn button_edges() {
    let mut b = Button::new();
    b.update(false);
    assert!(!b.just_pressed() && !b.just_released() && !b.changed() && !b.is_pressed());
    b.update(true);
    assert!(b.just_pressed() && !b.just_released() && b.changed() && b.is_pressed());
    b.update(true);
    assert!(!b.just_pressed() && !b.just_released() && !b.changed() && b.is_pressed());
    b.update(false);
    assert!(!b.just_pressed() && b.just_released() && b.changed() && !b.is_pressed());
}

#[test]
fn buttons_publish_edges_in_order() {
    let mut buttons = Buttons::new();
    assert_eq!(buttons.update(false, false, false), vec![]);
    assert_eq!(
        buttons.update(true, false, true),
        vec![
            Event::ButtonDown(events::Button::A),
            Event::ButtonDown(events::Button::C),
            Event::Draw,
        ]
    );
    assert_eq!(buttons.update(true, false, true), vec![Event::Draw]);
    assert_eq!(
        buttons.update(false, true, false),
        vec![
            Event::ButtonUp(events::Button::A),
            Event::ButtonDown(events::Button::B),
            Event::ButtonUp(events::Button::C),
            Event::Draw,
        ]
    );
    assert_eq!(buttons.update(false, false, false), vec![Event::ButtonUp(events::Button::B)]);
}

#[test]
fn classify_examples() {
    assert_eq!(MiniJoyC::classify_direction(50, 10, DIRECTION_THRESHOLD), Some(JoyDirection::Down));
    assert_eq!(MiniJoyC::classify_direction(10, 10, DIRECTION_THRESHOLD), None);
    assert_eq!(MiniJoyC::classify_direction(-50, 10, 35), Some(JoyDirection::Up));
    assert_eq!(MiniJoyC::classify_direction(10, 50, 35), Some(JoyDirection::Right));
    assert_eq!(MiniJoyC::classify_direction(10, -50, 35), Some(JoyDirection::Left));
    // on a tie the y axis decides
    assert_eq!(MiniJoyC::classify_direction(50, 50, 35), Some(JoyDirection::Right));
    assert_eq!(MiniJoyC::classify_direction(-50, -50, 35), Some(JoyDirection::Left));
    // the threshold itself is not past it
    assert_eq!(MiniJoyC::classify_direction(35, 0, 35), None);
    assert_eq!(MiniJoyC::classify_direction(36, 0, 35), Some(JoyDirection::Down));
    assert_eq!(MiniJoyC::classify_direction(0, -35, 35), None);
    // extreme readings
    assert_eq!(MiniJoyC::classify_direction(-128, 127, 35), Some(JoyDirection::Up));
    assert_eq!(MiniJoyC::classify_direction(0, -128, 35), Some(JoyDirection::Left));
}

#[test]
fn joystick_reports_direction_changes_only() {
    let mut joy = MiniJoyC::new();
    // first poll: the classification (none) equals the initial one: nothing
    assert_eq!(joy.poll(0, 0, false), vec![]);
    assert_eq!(
        joy.poll(50, 10, false),
        vec![Event::JoyC(JoyC::Pos { dir: JoycDirection::Down, val: (50, 10) })]
    );
    assert_eq!(joy.poll(60, 5, false), vec![]);
    assert_eq!(
        joy.poll(10, 10, false),
        vec![Event::JoyC(JoyC::Pos { dir: JoycDirection::Center, val: (10, 10) })]
    );
    assert_eq!(joy.prev_direction, None);
}

#[test]
fn joystick_button_clicks_on_rising_edge() {
    let mut joy = MiniJoyC::new();
    // pressed at the first poll: no earlier level, so no click
    assert_eq!(joy.poll(0, 0, true), vec![]);
    assert_eq!(joy.poll(0, 0, false), vec![]);
    assert_eq!(joy.poll(0, 0, true), vec![Event::JoyC(JoyC::Button)]);
    assert_eq!(joy.poll(0, 0, true), vec![]);
    assert_eq!(
        joy.poll(0, -90, false),
        vec![Event::JoyC(JoyC::Pos { dir: JoycDirection::Left, val: (0, -90) })]
    );
    assert_eq!(
        joy.poll(0, 90, true),
        vec![
            Event::JoyC(JoyC::Pos { dir: JoycDirection::Right, val: (0, 90) }),
            Event::JoyC(JoyC::Button),
        ]
    );
    assert_eq!(joy.prev_button, Some(true));
}
