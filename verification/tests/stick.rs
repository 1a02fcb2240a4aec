use gamepad::ble::stick::{AnalogStick, Axis, StickUpdate, STICK_DIVIDER, STICK_FULL_RANGE, STICK_OFFSET};
use gamepad::io::display::DisplayFrame;

#[test]
fn axis_new_starts_centred() {
    let axis = Axis::new(1870, 623);
    assert_eq!(axis, Axis { offset: 1870, divider: 623, old: 0 });
}

#[test]
fn centred_sample_reports_nothing() {
    let mut axis = Axis::new(STICK_OFFSET, STICK_DIVIDER);
    assert_eq!(axis.changed(1870), None);
    assert_eq!(axis.changed(1870 + 622), None);
    assert_eq!(axis.changed(1870 - 622), None);
    assert_eq!(axis.old, 0);
}

#[test]
fn level_is_inverted_and_rounded_toward_zero() {
    let mut axis = Axis::new(STICK_OFFSET, STICK_DIVIDER);
    // (3740 - 1870) / 623 = 3 (rounded down from 3.0016), inverted.
    assert_eq!(axis.changed(3740), Some(-3));
    // (0 - 1870) / 623 = -3 (rounded toward zero), inverted.
    assert_eq!(axis.changed(0), Some(3));
    // (1870 + 623) / 623 = 1.
    assert_eq!(axis.changed(1870 + 623), Some(-1));
    // (1870 - 1246) gives -2 rounded toward zero... -1246 / 623 = -2.
    assert_eq!(axis.changed(1870 - 1246), Some(2));
    // -1245 / 623 rounds toward zero to -1, not down to -2.
    assert_eq!(axis.changed(1870 - 1245), Some(1));
}

#[test]
fn same_level_reported_once() {
    let mut axis = Axis::new(STICK_OFFSET, STICK_DIVIDER);
    assert_eq!(axis.changed(100), Some(2));
    assert_eq!(axis.changed(100), None);
    assert_eq!(axis.changed(110), None);
    assert_eq!(axis.changed(1870), Some(0));
}

#[test]
fn level_cut_to_eight_bits() {
    // With divider 1 the level -(32767 - 0) = -32767 is cut to its low byte: 1.
    let mut axis = Axis::new(0, 1);
    assert_eq!(axis.changed(32767), Some(1));
    assert_eq!(axis.old, 1);
    // -(-200) = 200 is cut to -56.
    assert_eq!(axis.changed(-200), Some(-56));
}

#[test]
fn negative_divider_flips_direction() {
    let mut axis = Axis::new(0, -10);
    // 25 / -10 = -2, inverted: 2.
    assert_eq!(axis.changed(25), Some(2));
    // -25 / -10 = 2, inverted: -2.
    assert_eq!(axis.changed(-25), Some(-2));
}

#[test]
fn calibrated_range_gives_levels_within_three() {
    let mut raw: i16 = 0;
    while raw <= STICK_FULL_RANGE {
        let mut axis = Axis::new(STICK_OFFSET, STICK_DIVIDER);
        axis.changed(raw);
        assert!(-3 <= axis.old && axis.old <= 3);
        raw += 1;
    }
}

#[test]
fn symmetric_about_offset() {
    for d in 0..1870i16 {
        let mut hi = Axis::new(STICK_OFFSET, STICK_DIVIDER);
        let mut lo = Axis::new(STICK_OFFSET, STICK_DIVIDER);
        hi.changed(STICK_OFFSET + d);
        lo.changed(STICK_OFFSET - d);
        assert_eq!(hi.old, -lo.old);
    }
}

#[test]
fn stick_new_uses_calibration() {
    let stick = AnalogStick::new();
    assert_eq!(stick.x_axis, Axis { offset: 1870, divider: 623, old: 0 });
    assert_eq!(stick.y_axis, Axis { offset: 1870, divider: 623, old: 0 });
}

#[test]
fn centred_stick_shows_nothing() {
    let mut stick = AnalogStick::new();
    let update = stick.sample([1870, 1900]);
    assert_eq!(update, StickUpdate { notify_x: None, notify_y: None, frame: None });
}

#[test]
fn deflected_stick_notifies_and_shows() {
    let mut stick = AnalogStick::new();
    let update = stick.sample([3740, 1870]);
    assert_eq!(
        update,
        StickUpdate { notify_x: Some(-3), notify_y: None, frame: Some(DisplayFrame::Coord { x: -3, y: 0 }) }
    );
    // Held still: no notification, but the position is shown again.
    let update = stick.sample([3739, 1870]);
    assert_eq!(
        update,
        StickUpdate { notify_x: None, notify_y: None, frame: Some(DisplayFrame::Coord { x: -3, y: 0 }) }
    );
    // Back to the centre on x, pushed on y.
    let update = stick.sample([1870, 0]);
    assert_eq!(
        update,
        StickUpdate { notify_x: Some(0), notify_y: Some(3), frame: Some(DisplayFrame::Coord { x: 0, y: 3 }) }
    );
    // Both centred: both notify zero once, nothing is shown.
    let update = stick.sample([1870, 1870]);
    assert_eq!(update, StickUpdate { notify_x: None, notify_y: Some(0), frame: None });
    assert_eq!(stick.x_axis.old, 0);
    assert_eq!(stick.y_axis.old, 0);
}

#[test]
fn accepts_checks_overflow() {
    let axis = Axis::new(STICK_OFFSET, STICK_DIVIDER);
    assert!(axis.accepts(0));
    assert!(axis.accepts(i16::MAX));
    assert!(axis.accepts(i16::MIN + 1870));
    assert!(!axis.accepts(i16::MIN + 1869));
    assert!(!Axis::new(0, 0).accepts(5));
    assert!(!Axis::new(0, 1).accepts(i16::MIN));
    assert!(!Axis::new(0, -1).accepts(i16::MIN));
    assert!(Axis::new(0, 2).accepts(i16::MIN));
    assert!(Axis::new(0, -1).accepts(i16::MIN + 1));
    assert!(!Axis::new(-10, 3).accepts(i16::MAX));
}

#[test]
fn run_of_samples_never_repeats_a_notification() {
    let mut stick = AnalogStick::new();
    let samples: [[i16; 2]; 9] = [
        [1870, 1870], [3739, 100], [3700, 110], [3739, 1870], [1870, 1870],
        [0, 4000], [10, 3990], [1870, 1870], [1880, 1860],
    ];
    let mut xs = Vec::new();
    let mut ys = Vec::new();
    for buf in samples {
        let update = stick.sample(buf);
        if let Some(x) = update.notify_x {
            xs.push(x);
        }
        if let Some(y) = update.notify_y {
            ys.push(y);
        }
    }
    assert_eq!(xs, vec![-3, -2, -3, 0, 3, 2, 0]);
    assert_eq!(ys, vec![2, 0, -3, 0]);
    assert!(xs.windows(2).all(|w| w[0] != w[1]));
    assert!(ys.windows(2).all(|w| w[0] != w[1]));
    assert_ne!(xs[0], 0);
    assert_ne!(ys[0], 0);
}
