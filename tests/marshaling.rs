use metaballs::camera::{camera_matrix, Orbit};
use metaballs::fixed::{ONE, PI};
use metaballs::uniforms::{LightField, MetaballField, UniformName, UniformValue};
use metaballs::{Axis, Behavior, Material, Metaball, PointLight, Uniforms, Vec3};

fn member(number: u32, color: Vec3) -> Metaball {
    Metaball {
        charge_pos: Vec3::new(number as i64, -ONE, 0),
        strength: 300_000,
        material: Material { color, roughness: 8 * ONE },
        behavior: Behavior::Ring {
            slots: 8,
            window: 4 * PI,
            sin_axis: Axis::X,
            sin_offset: -ONE / 2,
            cos_axis: Axis::Z,
            cos_offset: 2 * ONE,
        },
        number,
    }
}

fn scene(n_metaballs: u32, n_lights: u32) -> Uniforms<()> {
    let mut metaballs = Vec::new();
    for i in 0..n_metaballs {
        metaballs.push(member(i, Vec3::new(ONE, 0, 0)));
    }
    let mut point_lights = Vec::new();
    for i in 0..n_lights {
        point_lights.push(PointLight {
            pos: Vec3::new(5 * ONE, 6 * ONE, i as i64),
            color: Vec3::new(ONE, ONE, ONE),
            intensity: 4_000,
        });
    }
    Uniforms {
        metaballs,
        point_lights,
        background_texture: (),
        img_plane_z: ONE,
        camera_pos: Vec3::new(0, 0, 0),
        camera_rot_axis: Vec3::new(ONE, 0, 0),
        camera_rot_angle: 0,
        threshold: 10 * ONE,
        screen_width: 1920,
        screen_height: 1200,
    }
}

fn identity() -> [[i64; 4]; 4] {
    [[ONE, 0, 0, 0], [0, ONE, 0, 0], [0, 0, ONE, 0], [0, 0, 0, ONE]]
}

#[test]
fn camera_at_rest_is_identity() {
    for axis in [Vec3::new(ONE, 0, 0), Vec3::new(0, ONE, 0), Vec3::new(0, 0, ONE), Vec3::new(577_350, 577_350, 577_350)] {
        let m = camera_matrix(Vec3::new(0, 0, 0), axis, ONE, 0);
        assert_eq!(m.cols, identity());
    }
    let angle = 0.0f64;
    let m = camera_matrix(Vec3::new(0, 0, 0), Vec3::new(ONE, 0, 0), (angle.cos() * ONE as f64) as i64, (angle.sin() * ONE as f64) as i64);
    assert_eq!(m.cols, identity());
}

#[test]
fn camera_rotates_then_translates() {
    // a quarter turn about z, then a shift by (1, 2, 3)
    let m = camera_matrix(Vec3::new(ONE, 2 * ONE, 3 * ONE), Vec3::new(0, 0, ONE), 0, ONE);
    assert_eq!(m.cols[0], [0, ONE, 0, 0]);
    assert_eq!(m.cols[1], [-ONE, 0, 0, 0]);
    assert_eq!(m.cols[2], [0, 0, ONE, 0]);
    assert_eq!(m.cols[3], [ONE, 2 * ONE, 3 * ONE, ONE]);
    // a half turn about x
    let m = camera_matrix(Vec3::new(0, 0, 0), Vec3::new(ONE, 0, 0), -ONE, 0);
    assert_eq!(m.cols, [[ONE, 0, 0, 0], [0, -ONE, 0, 0], [0, 0, -ONE, 0], [0, 0, 0, ONE]]);
}

#[test]
fn orbit_starts_behind_the_origin() {
    let orbit = Orbit { radius: 4 * ONE, height: ONE };
    let angle = Orbit::angle(0);
    assert_eq!(angle, -1_570_796);
    let a = angle as f64 / ONE as f64;
    let pos = orbit.position((a.cos() * ONE as f64).round() as i64, (a.sin() * ONE as f64).round() as i64);
    let expected = [0.0f64, 1.0, -4.0];
    let got = [pos.x, pos.y, pos.z];
    for k in 0..3 {
        assert!((got[k] as f64 / ONE as f64 - expected[k]).abs() <= 1e-5);
    }
    assert_eq!(orbit.position(0, -ONE), Vec3::new(0, ONE, -4 * ONE));
}

#[test]
fn orbit_angle_is_half_the_time() {
    assert_eq!(Orbit::angle(2 * ONE), ONE - 1_570_796);
    assert_eq!(Orbit::angle(3), 1 - 1_570_796);
    assert_eq!(Orbit::angle(-3), -2 - 1_570_796);
    assert_eq!(Orbit::angle(-4), -2 - 1_570_796);
}

#[test]
fn header_parameters_come_first() {
    let u = scene(0, 0);
    let ps = u.visit_values(ONE, 0);
    assert_eq!(ps.len(), 6);
    assert_eq!(ps[0], (UniformName::ScreenWidth, UniformValue::UnsignedInt(1920)));
    assert_eq!(ps[1], (UniformName::ScreenHeight, UniformValue::UnsignedInt(1200)));
    assert_eq!(ps[2], (UniformName::ImgPlaneZ, UniformValue::Float(ONE)));
    assert_eq!(ps[3], (UniformName::BgTex, UniformValue::Background));
    match ps[4] {
        (UniformName::CameraMat, UniformValue::Mat4(m)) => assert_eq!(m.cols, identity()),
        _ => panic!("camera matrix expected"),
    }
    assert_eq!(ps[5], (UniformName::Threshold, UniformValue::Float(10 * ONE)));
}

#[test]
fn one_group_per_metaball_and_light() {
    let u = scene(16, 2);
    let ps = u.visit_values(ONE, 0);
    assert_eq!(ps.len(), 6 + 4 * 16 + 3 * 2);
    let mut metaball_groups = 0;
    let mut light_groups = 0;
    for (name, _) in &ps {
        match name {
            UniformName::Metaball(_, MetaballField::ChargePos) => metaball_groups += 1,
            UniformName::Light(_, LightField::Pos) => light_groups += 1,
            _ => {}
        }
    }
    assert_eq!(metaball_groups, 16);
    assert_eq!(light_groups, 2);
}

#[test]
fn ordinal_is_position_in_scene() {
    let u = scene(16, 2);
    let ps = u.visit_values(ONE, 0);
    for i in 0..16usize {
        let mb = &u.metaballs[i];
        assert_eq!(ps[6 + 4 * i], (UniformName::Metaball(i, MetaballField::ChargePos), UniformValue::Vec3(mb.charge_pos)));
        assert_eq!(ps[7 + 4 * i], (UniformName::Metaball(i, MetaballField::Strength), UniformValue::Float(mb.strength)));
        assert_eq!(ps[8 + 4 * i], (UniformName::Metaball(i, MetaballField::MaterialColor), UniformValue::Vec3(mb.material.color)));
        assert_eq!(ps[9 + 4 * i], (UniformName::Metaball(i, MetaballField::MaterialRoughness), UniformValue::Float(mb.material.roughness)));
    }
    for j in 0..2usize {
        let l = &u.point_lights[j];
        assert_eq!(ps[70 + 3 * j], (UniformName::Light(j, LightField::Pos), UniformValue::Vec3(l.pos)));
        assert_eq!(ps[71 + 3 * j], (UniformName::Light(j, LightField::Color), UniformValue::Vec3(l.color)));
        assert_eq!(ps[72 + 3 * j], (UniformName::Light(j, LightField::Intensity), UniformValue::Float(l.intensity)));
    }
}

#[test]
fn reordering_changes_ordinals() {
    let mut u = scene(4, 0);
    let first = u.metaballs[0];
    let last = u.metaballs[3];
    u.metaballs.swap(0, 3);
    let ps = u.visit_values(ONE, 0);
    assert_eq!(ps[6 + 4 * 3].1, UniformValue::Vec3(first.charge_pos));
    assert_eq!(ps[6].1, UniformValue::Vec3(last.charge_pos));
    assert_eq!(ps[6 + 4 * 3].0, UniformName::Metaball(3, MetaballField::ChargePos));
}

#[test]
fn parameter_keys() {
    assert_eq!(UniformName::ScreenWidth.text(), "screenWidth");
    assert_eq!(UniformName::ScreenHeight.text(), "screenHeight");
    assert_eq!(UniformName::ImgPlaneZ.text(), "imgPlaneZ");
    assert_eq!(UniformName::BgTex.text(), "bgTex");
    assert_eq!(UniformName::CameraMat.text(), "cameraMat");
    assert_eq!(UniformName::Threshold.text(), "threshold");
    assert_eq!(UniformName::Metaball(0, MetaballField::ChargePos).text(), "metaballs[0].chargePos");
    assert_eq!(UniformName::Metaball(12, MetaballField::Strength).text(), "metaballs[12].strength");
    assert_eq!(UniformName::Metaball(7, MetaballField::MaterialColor).text(), "metaballs[7].material.color");
    assert_eq!(UniformName::Metaball(305, MetaballField::MaterialRoughness).text(), "metaballs[305].material.roughness");
    assert_eq!(UniformName::Light(0, LightField::Pos).text(), "pointLights[0].pos");
    assert_eq!(UniformName::Light(10, LightField::Color).text(), "pointLights[10].color");
    assert_eq!(UniformName::Light(3, LightField::Intensity).text(), "pointLights[3].intensity");
}

#[test]
fn scene_animation_moves_only_positions() {
    let mut u = scene(8, 1);
    let t = 3 * ONE;
    let phases = u.phases(t);
    assert_eq!(phases.len(), 8);
    assert_eq!(phases[0], 3 * ONE);
    assert_eq!(phases[3], 3 * ONE - 2_356_194);
    assert_eq!(phases[4], 0);
    let sines: Vec<i64> = phases.iter().map(|p| ((*p as f64 / ONE as f64).sin() * ONE as f64).round() as i64).collect();
    let cosines: Vec<i64> = phases.iter().map(|p| ((*p as f64 / ONE as f64).cos() * ONE as f64).round() as i64).collect();
    let before = u.metaballs.clone();
    u.animate(&sines, &cosines);
    assert_eq!(u.metaballs.len(), 8);
    for i in 0..8 {
        assert_eq!(u.metaballs[i].charge_pos, Vec3::new(sines[i] - ONE / 2, -ONE, cosines[i] + 2 * ONE));
        assert_eq!(u.metaballs[i].material, before[i].material);
        assert_eq!(u.metaballs[i].number, before[i].number);
    }
    assert_eq!(u.metaballs[4].charge_pos, Vec3::new(-ONE / 2, -ONE, 3 * ONE));
    assert_eq!(u.point_lights.len(), 1);
}

#[test]
fn viewport_and_camera_updates() {
    let mut u = scene(1, 1);
    u.set_viewport(800, 600);
    assert_eq!((u.screen_width, u.screen_height), (800, 600));
    u.set_camera_pos(Vec3::new(1, 2, 3));
    assert_eq!(u.camera_pos, Vec3::new(1, 2, 3));
    assert_eq!(u.screen_width, 800);
}
