use metaballs::fixed::{fmul, ONE, PI, TWO_PI};
use metaballs::frames::FrameClock;
use metaballs::{Animatable, Axis, Behavior, Material, Metaball, Vec3};

fn ring(sin_axis: Axis, sin_offset: i64, cos_axis: Axis, cos_offset: i64) -> Behavior {
    Behavior::Ring { slots: 8, window: 4 * PI, sin_axis, sin_offset, cos_axis, cos_offset }
}

fn red_ring_member(number: u32) -> Metaball {
    Metaball {
        charge_pos: Vec3::new(0, -ONE, 0),
        strength: 300_000,
        material: Material { color: Vec3::new(ONE, 0, 0), roughness: 8 * ONE },
        behavior: ring(Axis::X, -ONE / 2, Axis::Z, 2 * ONE),
        number,
    }
}

fn to_fixed(x: f64) -> i64 {
    (x * ONE as f64).round() as i64
}

#[test]
fn fixed_product_rounds_down() {
    assert_eq!(fmul(3 * ONE, ONE / 2), 1_500_000);
    assert_eq!(fmul(-3, ONE / 2), -2);
    assert_eq!(fmul(3, ONE / 2), 1);
    assert_eq!(fmul(-7 * ONE, -ONE), 7 * ONE);
    assert_eq!(fmul(i64::MAX, ONE), i64::MAX);
}

#[test]
fn ring_member_holds_before_its_start() {
    let mb = red_ring_member(3);
    // member 3 of 8 starts 3 * 2π / 8 seconds in
    let start = 3 * TWO_PI / 8;
    assert_eq!(start, 2_356_194);
    assert_eq!(mb.phase(0), 0);
    assert_eq!(mb.phase(ONE), 0);
    assert_eq!(mb.phase(start), 0);
    assert_eq!(mb.phase(-5 * ONE), 0);
    assert_eq!(mb.phase(start + 1), 1);
    assert_eq!(mb.phase(3 * ONE), 3 * ONE - start);
}

#[test]
fn ring_member_holds_after_its_window() {
    let mb = red_ring_member(3);
    let start = 3 * TWO_PI / 8;
    assert_eq!(mb.phase(start + 4 * PI), 4 * PI);
    assert_eq!(mb.phase(start + 4 * PI + 1), 4 * PI);
    assert_eq!(mb.phase(100 * ONE), 4 * PI);
}

#[test]
fn ring_member_at_rest_sits_at_angle_zero() {
    let mut mb = red_ring_member(3);
    let t = mb.phase(ONE);
    assert_eq!(t, 0);
    let angle = t as f64 / ONE as f64;
    mb.animate(to_fixed(angle.sin()), to_fixed(angle.cos()));
    assert_eq!(mb.charge_pos, Vec3::new(-ONE / 2, -ONE, 3 * ONE));
    assert_eq!(mb.strength, 300_000);
    assert_eq!(mb.number, 3);
}

#[test]
fn ring_member_moves_in_its_plane() {
    let mut mb = Metaball {
        charge_pos: Vec3::new(0, -ONE, 1_500_000),
        strength: 300_000,
        material: Material { color: Vec3::new(0, 0, 0), roughness: 2_236_060 },
        behavior: ring(Axis::X, ONE / 2, Axis::Y, -ONE),
        number: 0,
    };
    mb.animate(ONE, 0);
    assert_eq!(mb.charge_pos, Vec3::new(1_500_000, -ONE, 1_500_000));
    mb.animate(-ONE / 2, ONE / 4);
    assert_eq!(mb.charge_pos, Vec3::new(0, -750_000, 1_500_000));
}

#[test]
fn static_metaball_keeps_its_place() {
    let mut mb = red_ring_member(0);
    mb.behavior = Behavior::Static;
    assert_eq!(mb.phase(7 * ONE), 0);
    mb.animate(ONE, 0);
    assert_eq!(mb.charge_pos, Vec3::new(0, -ONE, 0));
}

#[test]
fn animation_repeats_exactly() {
    let clock = FrameClock { framerate: 24, duration: 10 };
    for f in [0u64, 1, 57, 100, 239] {
        let t = clock.frame_time(f);
        let mut a = red_ring_member(5);
        let mut b = red_ring_member(5);
        let pa = a.phase(t);
        let pb = b.phase(t);
        assert_eq!(pa, pb);
        let angle = pa as f64 / ONE as f64;
        a.animate(to_fixed(angle.sin()), to_fixed(angle.cos()));
        let angle = pb as f64 / ONE as f64;
        b.animate(to_fixed(angle.sin()), to_fixed(angle.cos()));
        assert_eq!(a, b);
    }
}

#[test]
fn vector_axis_access() {
    let v = Vec3::new(1, 2, 3);
    assert_eq!(v.get(Axis::X), 1);
    assert_eq!(v.get(Axis::Y), 2);
    assert_eq!(v.get(Axis::Z), 3);
    assert_eq!(v.with(Axis::Y, 9), Vec3::new(1, 9, 3));
    assert_eq!(v.with(Axis::Z, -4), Vec3::new(1, 2, -4));
    assert_eq!(v.with(Axis::X, 0), Vec3::new(0, 2, 3));
}
