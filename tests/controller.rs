use stick::app::{ms_to_red, App, SelectedTab, TAB_COUNT};
use stick::events::{Button, Event, Remote, Stats, StickHat};

fn press(app: &mut App, b: Button, down_at: u64, up_at: u64) -> Option<Remote> {
    assert_eq!(app.handle_event_at(Event::ButtonDown(b), down_at), None);
    app.handle_event_at(Event::ButtonUp(b), up_at)
}

#[test]
fn initial_state() {
    let app = App::new();
    assert_eq!(app.selected_tab, SelectedTab::Remote);
    assert_eq!(app.tv.current_btn, Remote::OnOff);
    assert!(!app.tab_touched);
    assert_eq!(app.b_start, None);
    assert_eq!(app.c_start, None);
    assert_eq!(app.stats, Stats::new());
    assert_eq!(app.hat, None);
}

#[test]
fn double_tap_c_on_remote_tab() {
    let mut app = App::new();
    // untouched: a short tap of C switches tabs
    assert_eq!(press(&mut app, Button::C, 0, 100), None);
    assert_eq!(app.selected_tab, SelectedTab::Info);
    assert_eq!(app.c_start, None);
    // come back to the remote tab
    press(&mut app, Button::C, 200, 300);
    assert_eq!(app.selected_tab, SelectedTab::Remote);
    assert_eq!(app.tv.current_btn, Remote::OnOff);
    // A touches the tab and sends the highlight
    assert_eq!(press(&mut app, Button::A, 400, 450), Some(Remote::OnOff));
    assert!(app.tab_touched);
    // now a short C moves the highlight back, wrapping, and stays on the tab
    press(&mut app, Button::C, 1000, 1100);
    assert_eq!(app.selected_tab, SelectedTab::Remote);
    assert_eq!(app.tv.current_btn, Remote::VolumeDown);
}

#[test]
fn c_release_threshold_is_strict() {
    for (held, switches) in [(499u64, false), (500, false), (501, true)] {
        let mut app = App::new();
        app.touch_tab();
        press(&mut app, Button::C, 1000, 1000 + held);
        if switches {
            assert_eq!(app.selected_tab, SelectedTab::Info, "held {}", held);
            assert!(!app.tab_touched);
        } else {
            assert_eq!(app.selected_tab, SelectedTab::Remote, "held {}", held);
            assert_eq!(app.tv.current_btn, Remote::VolumeDown);
            assert!(app.tab_touched);
        }
    }
}

#[test]
fn c_short_release_on_info_tab_is_noop() {
    let mut app = App::new();
    app.next_tab();
    app.touch_tab();
    press(&mut app, Button::C, 0, 100);
    assert_eq!(app.selected_tab, SelectedTab::Info);
    assert_eq!(app.tv.current_btn, Remote::OnOff);
}

#[test]
fn leaving_remote_tab_resets_highlight() {
    let mut app = App::new();
    press(&mut app, Button::B, 0, 10);
    press(&mut app, Button::B, 20, 30);
    assert_eq!(app.tv.current_btn, Remote::Back);
    press(&mut app, Button::C, 40, 600);
    assert_eq!(app.selected_tab, SelectedTab::Info);
    assert_eq!(app.tv.current_btn, Remote::OnOff);
}

#[test]
fn b_short_and_long_release() {
    let mut app = App::new();
    press(&mut app, Button::B, 0, 300);
    assert_eq!(app.tv.current_btn, Remote::Home);
    assert!(app.tab_touched);
    press(&mut app, Button::B, 1000, 1301);
    assert_eq!(app.tv.current_btn, Remote::Right);
    press(&mut app, Button::B, 2000, 2400);
    assert_eq!(app.tv.current_btn, Remote::VolumeUp);
    press(&mut app, Button::B, 3000, 3400);
    assert_eq!(app.tv.current_btn, Remote::Home);
    assert_eq!(app.b_start, None);
}

#[test]
fn b_hold_start_is_kept_while_held() {
    let mut app = App::new();
    app.handle_event_at(Event::ButtonDown(Button::B), 100);
    app.handle_event_at(Event::ButtonDown(Button::B), 300);
    assert_eq!(app.b_start, Some(100));
    assert_eq!(app.b_held_time_at(450), 350);
    app.handle_event_at(Event::ButtonUp(Button::B), 450);
    assert_eq!(app.tv.current_btn, Remote::Up);
    assert_eq!(app.b_held_time_at(500), 0);
}

#[test]
fn buttons_on_info_tab_do_nothing_to_remote() {
    let mut app = App::new();
    app.next_tab();
    assert_eq!(press(&mut app, Button::A, 0, 10), None);
    press(&mut app, Button::B, 20, 30);
    assert_eq!(app.tv.current_btn, Remote::OnOff);
    assert!(!app.tab_touched);
}

#[test]
fn stats_and_hat_are_stored() {
    let mut app = App::new();
    let stats = Stats { battery_level: 77, heap_used: 2048, heap_free: 4096 };
    assert_eq!(app.handle_event_at(Event::StatsUpdated(stats), 5), None);
    assert_eq!(app.stats, stats);
    app.handle_event_at(Event::InitHat(StickHat::MiniJoyC), 6);
    assert_eq!(app.hat, Some(StickHat::MiniJoyC));
    let before = app;
    app.handle_event_at(Event::Draw, 7);
    app.handle_event_at(Event::LogAdded, 8);
    app.handle_event_at(Event::Remote(Remote::Mute), 9);
    assert_eq!(app, before);
}

#[test]
fn tab_cycling_returns_to_start() {
    for start in [SelectedTab::Remote, SelectedTab::Info] {
        let mut t = start;
        for _ in 0..TAB_COUNT {
            t = t.next();
        }
        assert_eq!(t, start);
    }
    let mut app = App::new();
    for _ in 0..TAB_COUNT {
        app.next_tab();
    }
    assert_eq!(app.selected_tab, SelectedTab::Remote);
}

#[test]
fn tab_prev_and_titles() {
    assert_eq!(SelectedTab::Remote.prev(), SelectedTab::Info);
    assert_eq!(SelectedTab::Info.prev(), SelectedTab::Remote);
    assert_eq!(SelectedTab::Remote.next(), SelectedTab::Info);
    assert_eq!(SelectedTab::Remote.title(), "tv");
    assert_eq!(SelectedTab::Info.title(), "info");
    assert_eq!(SelectedTab::titles(), vec!["tv".to_string(), "info".to_string()]);
    let mut app = App::new();
    app.touch_tab();
    app.prev_tab();
    assert_eq!(app.selected_tab, SelectedTab::Info);
    assert!(!app.tab_touched);
}

#[test]
fn ms_to_red_values() {
    assert_eq!(ms_to_red(0), 50);
    assert_eq!(ms_to_red(1500), 152);
    assert_eq!(ms_to_red(3000), 255);
    assert_eq!(ms_to_red(u64::MAX), 255);
}

#[test]
fn tab_bar_red_follows_c_hold() {
    let mut app = App::new();
    assert_eq!(app.tab_bar_red_at(10_000), 50);
    app.handle_event_at(Event::ButtonDown(Button::C), 1000);
    assert_eq!(app.tab_bar_red_at(1499), 50);
    assert_eq!(app.tab_bar_red_at(1500), 84);
    assert_eq!(app.tab_bar_red_at(5000), 255);
}

#[test]
fn footer_hints() {
    let mut app = App::new();
    assert_eq!(app.footer_hint_at(0), Some(" c - next tab, b - next btn"));
    app.handle_event_at(Event::ButtonDown(Button::B), 0);
    assert_eq!(app.footer_hint_at(301), Some(" c - next tab, b - next row"));
    app.handle_event_at(Event::ButtonUp(Button::B), 10);
    app.handle_event_at(Event::ButtonDown(Button::C), 100);
    assert_eq!(app.footer_hint_at(200), Some(" c - prev btn, b - next btn"));
    assert_eq!(app.footer_hint_at(600), Some(" c - next tab, b - next btn"));
    assert_eq!(app.footer_hint_at(1101), Some(" hold to shut down..."));
    app.handle_event_at(Event::ButtonUp(Button::C), 1200);
    assert_eq!(app.selected_tab, SelectedTab::Info);
    assert_eq!(app.footer_hint_at(1300), None);
}

#[test]
fn clock_based_queries_run() {
    let mut app = App::new();
    assert_eq!(app.c_held_time(), 0);
    assert_eq!(app.b_held_time(), 0);
    assert_eq!(app.handle_events(Event::ButtonUp(Button::A)), Some(Remote::OnOff));
    assert!(app.tab_touched);
}

#[test]
fn double_tap_c_literal_sequence() {
    // C tap, A, C tap, without returning to the remote tab in between: the
    // A release lands on the info tab, where it touches nothing, so the
    // second tap is again an untouched tap and switches tabs.
    let mut app = App::new();
    press(&mut app, Button::C, 0, 100);
    assert_eq!(app.selected_tab, SelectedTab::Info);
    assert_eq!(press(&mut app, Button::A, 150, 160), None);
    assert!(!app.tab_touched);
    press(&mut app, Button::C, 200, 300);
    assert_eq!(app.selected_tab, SelectedTab::Remote);
    assert_eq!(app.tv.current_btn, Remote::OnOff);
}
