use stick::battery::battery_level;
use stick::logger::LogBuffer;
use stick::vehicle::{servo_angle_frame, servo_power_frame, servo_pulse_frame, speed_to_angle};

#[test]
fn speed_to_angle_values() {
    assert_eq!(speed_to_angle(-100), 0);
    assert_eq!(speed_to_angle(-50), 45);
    assert_eq!(speed_to_angle(-1), 90);
    assert_eq!(speed_to_angle(0), 90);
    assert_eq!(speed_to_angle(33), 119);
    assert_eq!(speed_to_angle(100), 180);
    assert_eq!(speed_to_angle(127), 204);
    assert_eq!(speed_to_angle(-128), 231);
}

#[test]
fn servo_frames() {
    assert_eq!(servo_angle_frame(1, 90), [0x01, 90]);
    assert_eq!(servo_angle_frame(5, 200), [0x05, 180]);
    assert_eq!(servo_pulse_frame(2, 0x05DC), [0x14, 0x05, 0xDC]);
    assert_eq!(servo_power_frame(true), [0x30, 1]);
    assert_eq!(servo_power_frame(false), [0x30, 0]);
}

#[test]
fn battery_level_values() {
    assert_eq!(battery_level(0), 0);
    assert_eq!(battery_level(1900), 5);
    assert_eq!(battery_level(2000), 26);
    assert_eq!(battery_level(2200), 66);
    assert_eq!(battery_level(2600), 100);
    assert_eq!(battery_level(u16::MAX), 100);
}

#[test]
fn log_buffer_keeps_latest_lines() {
    let mut logs = LogBuffer::new();
    assert_eq!(logs.len(), 0);
    assert!(logs.latest_lines(5).is_empty());
    for i in 0..25 {
        logs.push(log::Level::Info, format!("line {}", i));
    }
    assert_eq!(logs.len(), 20);
    let all = logs.latest_lines(100);
    assert_eq!(all.len(), 20);
    assert_eq!(all[0].1, "line 5");
    assert_eq!(all[19].1, "line 24");
    let last = logs.latest_lines(2);
    assert_eq!(last, vec![(log::Level::Info, "line 23".to_string()), (log::Level::Info, "line 24".to_string())]);
    logs.push(log::Level::Warn, "careful".to_string());
    assert_eq!(logs.latest_lines(1), vec![(log::Level::Warn, "careful".to_string())]);
    assert!(logs.latest_lines(0).is_empty());
}
