use puppet_viewport::camera::{Camera, Scale, ScreenDelta, ScreenPoint, ViewMatrix, Viewport, WorldVector};
use puppet_viewport::fixed::{div_toward_zero, saturate_to_i64, UNIT};

const VIEW: Viewport = Viewport { width: 1280, height: 720 };

fn camera(x: i64, y: i64, scale: u32, rotation: i32) -> Camera {
    Camera::new(WorldVector { x, y }, Scale { x: scale, y: scale }, rotation).unwrap()
}

#[test]
fn unit_is_one_million() {
    assert_eq!(UNIT, 1_000_000);
}

#[test]
fn division_rounds_toward_zero() {
    assert_eq!(div_toward_zero(7, 2), 3);
    assert_eq!(div_toward_zero(-7, 2), -3);
    assert_eq!(div_toward_zero(6, 3), 2);
    assert_eq!(div_toward_zero(-1, 1_000_000), 0);
}

#[test]
fn saturation_keeps_values_in_range_and_clamps_the_rest() {
    assert_eq!(saturate_to_i64(42), 42);
    assert_eq!(saturate_to_i64(-42), -42);
    assert_eq!(saturate_to_i64(i64::MAX as i128 + 1), i64::MAX);
    assert_eq!(saturate_to_i64(i64::MIN as i128 - 1), i64::MIN);
    assert_eq!(saturate_to_i64(i128::MAX), i64::MAX);
}

#[test]
fn camera_needs_a_positive_scale() {
    let origin = WorldVector { x: 0, y: 0 };
    assert!(Camera::new(origin, Scale { x: 0, y: 1 }, 0).is_none());
    assert!(Camera::new(origin, Scale { x: 1, y: 0 }, 0).is_none());
    assert_eq!(
        Camera::new(origin, Scale { x: 1, y: 2 }, 7),
        Some(Camera { position: origin, scale: Scale { x: 1, y: 2 }, rotation: 7 })
    );
    assert!(Camera { position: origin, scale: Scale { x: 1, y: 2 }, rotation: 7 }.is_well_formed());
    assert!(!Camera { position: origin, scale: Scale { x: 0, y: 2 }, rotation: 7 }.is_well_formed());
    assert!(!Camera { position: origin, scale: Scale { x: 1, y: 0 }, rotation: 7 }.is_well_formed());
}

#[test]
fn offset_between_screen_points() {
    let a = ScreenPoint { x: 100, y: 100 };
    let b = ScreenPoint { x: 150, y: 120 };
    assert_eq!(b.offset_from(&a), ScreenDelta { dx: 50, dy: 20 });
    assert_eq!(a.offset_from(&b), ScreenDelta { dx: -50, dy: -20 });
    let low = ScreenPoint { x: i32::MIN, y: i32::MIN };
    let high = ScreenPoint { x: i32::MAX, y: i32::MAX };
    assert_eq!(high.offset_from(&low), ScreenDelta { dx: 4_294_967_295, dy: 4_294_967_295 });
}

#[test]
fn world_vectors_subtract_with_saturation() {
    let a = WorldVector { x: 10, y: -10 };
    let b = WorldVector { x: 3, y: 4 };
    assert_eq!(a.saturating_sub(&b), WorldVector { x: 7, y: -14 });
    let low = WorldVector { x: i64::MIN, y: i64::MAX };
    let one = WorldVector { x: 1, y: -1 };
    assert_eq!(low.saturating_sub(&one), WorldVector { x: i64::MIN, y: i64::MAX });
}

#[test]
fn screen_delta_is_divided_by_the_scale() {
    let c = camera(0, 0, 150_000, 0);
    let w = c.screen_delta_to_world(ScreenDelta { dx: 50, dy: 20 }, VIEW);
    assert_eq!(w, WorldVector { x: 333_333_333, y: 133_333_333 });
    assert!((w.x as f64 / 1e6 - 333.33).abs() < 0.01);
    assert!((w.y as f64 / 1e6 - 133.33).abs() < 0.01);
}

#[test]
fn opposite_screen_deltas_give_opposite_world_deltas() {
    let c = camera(5, 6, 150_000, 33_000_000);
    let there = c.screen_delta_to_world(ScreenDelta { dx: 50, dy: 20 }, VIEW);
    let back = c.screen_delta_to_world(ScreenDelta { dx: -50, dy: -20 }, VIEW);
    assert_eq!(there.x, -back.x);
    assert_eq!(there.y, -back.y);
}

#[test]
fn screen_delta_does_not_depend_on_the_viewport_or_the_position() {
    let c = camera(0, 0, 2_500_000, 10_000_000);
    let d = ScreenDelta { dx: -7, dy: 13 };
    let a = c.screen_delta_to_world(d, VIEW);
    let b = c.screen_delta_to_world(d, Viewport { width: 1, height: 9000 });
    let moved = camera(123_456, -654_321, 2_500_000, 10_000_000).screen_delta_to_world(d, VIEW);
    assert_eq!(a, b);
    assert_eq!(a, moved);
}

#[test]
fn screen_delta_is_turned_back_by_the_rotation() {
    let quarter = camera(0, 0, 1_000_000, 90_000_000);
    let w = quarter.screen_delta_to_world(ScreenDelta { dx: 50, dy: 20 }, VIEW);
    assert_eq!(w, WorldVector { x: 20_000_000, y: -50_000_000 });
    let half = camera(0, 0, 1_000_000, 180_000_000);
    let w = half.screen_delta_to_world(ScreenDelta { dx: 50, dy: 20 }, VIEW);
    assert_eq!(w, WorldVector { x: -50_000_000, y: -20_000_000 });
    let eighth = camera(0, 0, 1_000_000, 45_000_000);
    let w = eighth.screen_delta_to_world(ScreenDelta { dx: 100, dy: 0 }, VIEW);
    assert_eq!(w, WorldVector { x: 70_710_700, y: -70_710_700 });
}

#[test]
fn screen_delta_uses_each_axis_scale() {
    let c = Camera::new(WorldVector { x: 0, y: 0 }, Scale { x: 500_000, y: 2_000_000 }, 0).unwrap();
    let w = c.screen_delta_to_world(ScreenDelta { dx: 10, dy: 10 }, VIEW);
    assert_eq!(w, WorldVector { x: 20_000_000, y: 5_000_000 });
}

#[test]
fn screen_delta_of_nothing_is_nothing() {
    let c = camera(9, 9, 1, 123_456_789);
    let w = c.screen_delta_to_world(ScreenDelta { dx: 0, dy: 0 }, VIEW);
    assert_eq!(w, WorldVector { x: 0, y: 0 });
}

#[test]
fn world_delta_saturates() {
    let c = camera(0, 0, 1, 0);
    let w = c.screen_delta_to_world(ScreenDelta { dx: i64::MAX, dy: i64::MIN }, VIEW);
    assert_eq!(w, WorldVector { x: i64::MAX, y: i64::MIN });
}

#[test]
fn view_matrix_without_rotation() {
    let c = camera(10_000_000, 20_000_000, 150_000, 0);
    assert_eq!(
        c.to_view_matrix(),
        ViewMatrix { xx: 150_000, xy: 0, yx: 0, yy: 150_000, tx: -1_500_000, ty: -3_000_000 }
    );
}

#[test]
fn view_matrix_of_the_default_camera_is_the_identity() {
    let c = camera(0, 0, 1_000_000, 0);
    assert_eq!(
        c.to_view_matrix(),
        ViewMatrix { xx: 1_000_000, xy: 0, yx: 0, yy: 1_000_000, tx: 0, ty: 0 }
    );
}

#[test]
fn view_matrix_with_a_quarter_turn() {
    let c = Camera::new(
        WorldVector { x: 1_000_000, y: 2_000_000 },
        Scale { x: 2_000_000, y: 3_000_000 },
        90_000_000,
    )
    .unwrap();
    assert_eq!(
        c.to_view_matrix(),
        ViewMatrix { xx: 0, xy: -2_000_000, yx: 3_000_000, yy: 0, tx: 4_000_000, ty: -3_000_000 }
    );
}

#[test]
fn view_matrix_sends_the_camera_position_to_the_centre() {
    let c = camera(123_456_789, -987_654_321, 1_730_000, 77_000_000);
    let m = c.to_view_matrix();
    let x = div_toward_zero(
        m.xx as i128 * c.position.x as i128 + m.xy as i128 * c.position.y as i128,
        1_000_000,
    ) + m.tx as i128;
    let y = div_toward_zero(
        m.yx as i128 * c.position.x as i128 + m.yy as i128 * c.position.y as i128,
        1_000_000,
    ) + m.ty as i128;
    assert_eq!((x, y), (0, 0));
}

#[test]
fn view_matrix_translation_saturates() {
    let c = Camera::new(
        WorldVector { x: i64::MAX, y: 0 },
        Scale { x: u32::MAX, y: 1 },
        0,
    )
    .unwrap();
    let m = c.to_view_matrix();
    assert_eq!(m.xx, u32::MAX as i64);
    assert_eq!(m.tx, i64::MIN);
    assert_eq!(m.ty, 0);
}
