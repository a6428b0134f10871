use puppet_viewport::trig::{sin_cos, EIGHTH_TURN, FULL_TURN, QUARTER_TURN};

#[test]
fn angle_constants() {
    assert_eq!(FULL_TURN, 360_000_000);
    assert_eq!(QUARTER_TURN, 90_000_000);
    assert_eq!(EIGHTH_TURN, 45_000_000);
}

#[test]
fn sine_and_cosine_are_exact_on_the_axes() {
    assert_eq!(sin_cos(0), (0, 1_000_000));
    assert_eq!(sin_cos(90_000_000), (1_000_000, 0));
    assert_eq!(sin_cos(180_000_000), (0, -1_000_000));
    assert_eq!(sin_cos(270_000_000), (-1_000_000, 0));
    assert_eq!(sin_cos(360_000_000), (0, 1_000_000));
    assert_eq!(sin_cos(-90_000_000), (-1_000_000, 0));
    assert_eq!(sin_cos(-360_000_000), (0, 1_000_000));
}

#[test]
fn sine_and_cosine_of_known_angles() {
    assert_eq!(sin_cos(30_000_000), (500_000, 866_025));
    assert_eq!(sin_cos(45_000_000), (707_107, 707_107));
    assert_eq!(sin_cos(60_000_000), (866_025, 500_000));
    assert_eq!(sin_cos(120_000_000), (866_025, -500_000));
    assert_eq!(sin_cos(210_000_000), (-500_000, -866_025));
    assert_eq!(sin_cos(300_000_000), (-866_025, 500_000));
    assert_eq!(sin_cos(-30_000_000), (-500_000, 866_025));
}

#[test]
fn sine_and_cosine_repeat_every_turn() {
    for angle in [1, 12_345_678, 89_999_999, 200_000_001, -77_000_000] {
        let base = sin_cos(angle);
        assert_eq!(sin_cos(angle + 360_000_000), base);
        assert_eq!(sin_cos(angle - 360_000_000), base);
        assert_eq!(sin_cos(angle + 720_000_000), base);
    }
}

#[test]
fn sine_and_cosine_at_the_limits_of_the_angle() {
    let (s, c) = sin_cos(i32::MAX);
    let (es, ec) = ((i32::MAX as f64 / 1e6).to_radians().sin(), (i32::MAX as f64 / 1e6).to_radians().cos());
    assert!((s as f64 / 1e6 - es).abs() < 2e-6);
    assert!((c as f64 / 1e6 - ec).abs() < 2e-6);
    let (s, c) = sin_cos(i32::MIN);
    let (es, ec) = ((i32::MIN as f64 / 1e6).to_radians().sin(), (i32::MIN as f64 / 1e6).to_radians().cos());
    assert!((s as f64 / 1e6 - es).abs() < 2e-6);
    assert!((c as f64 / 1e6 - ec).abs() < 2e-6);
}

#[test]
fn sine_and_cosine_are_close_to_the_real_functions() {
    let mut angle: i64 = -400_000_000;
    while angle <= 400_000_000 {
        let (s, c) = sin_cos(angle as i32);
        let radians = (angle as f64 / 1e6).to_radians();
        assert!((s as f64 / 1e6 - radians.sin()).abs() < 2e-6, "sine of {}", angle);
        assert!((c as f64 / 1e6 - radians.cos()).abs() < 2e-6, "cosine of {}", angle);
        assert!(-1_000_000 <= s && s <= 1_000_000);
        assert!(-1_000_000 <= c && c <= 1_000_000);
        angle += 137_531;
    }
}
