use vstd::prelude::*;
use vstd::set_lib::{lemma_int_range, set_int_range};

use crate::animation::Animatable;
use crate::camera::{camera_matrix, is_camera_matrix, is_unit_bounded, Mat4};
use crate::fixed::is_unit_range;
use crate::scene::{Metaball, PointLight, Vec3};

verus! {

/// The parameters of one metaball, in the order in which they are emitted.
#[derive(Clone, Copy, Debug, PartialEq, Eq, Structural)]
pub enum MetaballField {
    ChargePos,
    Strength,
    MaterialColor,
    MaterialRoughness,
}

/// The parameters of one point light, in the order in which they are emitted.
#[derive(Clone, Copy, Debug, PartialEq, Eq, Structural)]
pub enum LightField {
    Pos,
    Color,
    Intensity,
}

/// The name of one shading parameter. Array members carry their ordinal.
#[derive(Clone, Copy, Debug, PartialEq, Eq, Structural)]
pub enum UniformName {
    ScreenWidth,
    ScreenHeight,
    ImgPlaneZ,
    BgTex,
    CameraMat,
    Threshold,
    Metaball(usize, MetaballField),
    Light(usize, LightField),
}

/// The value of one shading parameter. `Background` stands for the scene's
/// background texture, which is handed on as it is.
#[derive(Clone, Copy, Debug, PartialEq, Eq)]
pub enum UniformValue {
    UnsignedInt(u32),
    Float(i64),
    Vec3(Vec3),
    Mat4(Mat4),
    Background,
}

pub type Param = (UniformName, UniformValue);

/// The four parameters of the metaball `mb` at ordinal `i`.
pub open spec fn metaball_group(i: int, mb: Metaball) -> Seq<Param> {
    seq![
        (UniformName::Metaball(i as usize, MetaballField::ChargePos), UniformValue::Vec3(mb.charge_pos)),
        (UniformName::Metaball(i as usize, MetaballField::Strength), UniformValue::Float(mb.strength)),
        (UniformName::Metaball(i as usize, MetaballField::MaterialColor), UniformValue::Vec3(mb.material.color)),
        (UniformName::Metaball(i as usize, MetaballField::MaterialRoughness), UniformValue::Float(mb.material.roughness)),
    ]
}

/// The three parameters of the light `l` at ordinal `i`.
pub open spec fn light_group(i: int, l: PointLight) -> Seq<Param> {
    seq![
        (UniformName::Light(i as usize, LightField::Pos), UniformValue::Vec3(l.pos)),
        (UniformName::Light(i as usize, LightField::Color), UniformValue::Vec3(l.color)),
        (UniformName::Light(i as usize, LightField::Intensity), UniformValue::Float(l.intensity)),
    ]
}

/// The groups of all metaballs, ordinal by ordinal.
pub open spec fn metaball_params(mbs: Seq<Metaball>) -> Seq<Param>
    decreases mbs.len(),
{
    if mbs.len() == 0 {
        seq![]
    } else {
        metaball_params(mbs.drop_last()) + metaball_group(mbs.len() - 1, mbs.last())
    }
}

/// The groups of all lights, ordinal by ordinal.
pub open spec fn light_params(ls: Seq<PointLight>) -> Seq<Param>
    decreases ls.len(),
{
    if ls.len() == 0 {
        seq![]
    } else {
        light_params(ls.drop_last()) + light_group(ls.len() - 1, ls.last())
    }
}

/// The scene as the shading pipeline sees it: viewport, image plane,
/// background, camera, iso-surface threshold, metaballs and point lights.
/// `B` is the background texture, which the scene holds but never reads.
pub struct Uniforms<B> {
    pub metaballs: Vec<Metaball>,
    pub point_lights: Vec<PointLight>,
    pub background_texture: B,
    pub img_plane_z: i64,
    pub camera_pos: Vec3,
    pub camera_rot_axis: Vec3,
    pub camera_rot_angle: i64,
    pub threshold: i64,
    pub screen_width: u32,
    pub screen_height: u32,
}

impl<B> Uniforms<B> {
    pub open spec fn wf(&self) -> bool {
        &&& is_unit_bounded(self.camera_rot_axis)
        &&& forall|i: int| 0 <= i < self.metaballs@.len() ==> (#[trigger] self.metaballs@[i]).wf()
    }

    /// The angle at which each metaball's motion is evaluated at scene time `t`,
    /// in the scene's order.
    pub fn phases(&self, t: i64) -> (r: Vec<i64>)
        requires
            self.wf(),
        ensures
            r@.len() == self.metaballs@.len(),
            forall|i: int| 0 <= i < r@.len() ==> #[trigger] r@[i] == self.metaballs@[i].phase_spec(t as int),
    {
        let mut r: Vec<i64> = Vec::new();
        let mut i: usize = 0;
        while i < self.metaballs.len()
            invariant
                self.wf(),
                i <= self.metaballs@.len(),
                r@.len() == i,
                forall|k: int| 0 <= k < i ==> #[trigger] r@[k] == self.metaballs@[k].phase_spec(t as int),
            decreases self.metaballs@.len() - i,
        {
            let p = self.metaballs[i].phase(t);
            r.push(p);
            i = i + 1;
        }
        r
    }

    /// Moves every metaball: the one at position `i` takes the angle whose
    /// sine is `sines[i]` and cosine `cosines[i]`. Only the metaballs'
    /// positions change; their number and order stay.
    pub fn animate(&mut self, sines: &Vec<i64>, cosines: &Vec<i64>)
        requires
            old(self).wf(),
            sines@.len() == old(self).metaballs@.len(),
            cosines@.len() == old(self).metaballs@.len(),
            forall|i: int| 0 <= i < sines@.len() ==> is_unit_range(#[trigger] sines@[i] as int),
            forall|i: int| 0 <= i < cosines@.len() ==> is_unit_range(#[trigger] cosines@[i] as int),
        ensures
            final(self).wf(),
            final(self).metaballs@.len() == old(self).metaballs@.len(),
            forall|i: int|
                0 <= i < final(self).metaballs@.len() ==> #[trigger] final(self).metaballs@[i]
                    == old(self).metaballs@[i].animated(sines@[i] as int, cosines@[i] as int),
            final(self).point_lights@ == old(self).point_lights@,
            final(self).background_texture == old(self).background_texture,
            final(self).img_plane_z == old(self).img_plane_z,
            final(self).camera_pos == old(self).camera_pos,
            final(self).camera_rot_axis == old(self).camera_rot_axis,
            final(self).camera_rot_angle == old(self).camera_rot_angle,
            final(self).threshold == old(self).threshold,
            final(self).screen_width == old(self).screen_width,
            final(self).screen_height == old(self).screen_height,
    {
        let n = self.metaballs.len();
        let mut i: usize = 0;
        while i < n
            invariant
                n == self.metaballs@.len(),
                n == old(self).metaballs@.len(),
                i <= n,
                sines@.len() == n,
                cosines@.len() == n,
                forall|k: int| 0 <= k < n ==> is_unit_range(#[trigger] sines@[k] as int),
                forall|k: int| 0 <= k < n ==> is_unit_range(#[trigger] cosines@[k] as int),
                forall|k: int| 0 <= k < n ==> (#[trigger] self.metaballs@[k]).wf(),
                forall|k: int|
                    0 <= k < i ==> #[trigger] self.metaballs@[k] == old(self).metaballs@[k].animated(
                        sines@[k] as int,
                        cosines@[k] as int,
                    ),
                forall|k: int| i <= k < n ==> #[trigger] self.metaballs@[k] == old(self).metaballs@[k],
                self.point_lights@ == old(self).point_lights@,
                self.background_texture == old(self).background_texture,
                self.img_plane_z == old(self).img_plane_z,
                self.camera_pos == old(self).camera_pos,
                self.camera_rot_axis == old(self).camera_rot_axis,
                self.camera_rot_angle == old(self).camera_rot_angle,
                self.threshold == old(self).threshold,
                self.screen_width == old(self).screen_width,
                self.screen_height == old(self).screen_height,
            decreases n - i,
        {
            let mut mb = self.metaballs[i];
            mb.animate(sines[i], cosines[i]);
            self.metaballs.set(i, mb);
            i = i + 1;
        }
    }

    /// Refreshes the viewport size from the display surface.
    pub fn set_viewport(&mut self, width: u32, height: u32)
        ensures
            final(self).screen_width == width,
            final(self).screen_height == height,
            final(self).metaballs@ == old(self).metaballs@,
            final(self).point_lights@ == old(self).point_lights@,
            final(self).background_texture == old(self).background_texture,
            final(self).img_plane_z == old(self).img_plane_z,
            final(self).camera_pos == old(self).camera_pos,
            final(self).camera_rot_axis == old(self).camera_rot_axis,
            final(self).camera_rot_angle == old(self).camera_rot_angle,
            final(self).threshold == old(self).threshold,
    {
        self.screen_width = width;
        self.screen_height = height;
    }

    /// Moves the camera to `pos`, keeping its orientation.
    pub fn set_camera_pos(&mut self, pos: Vec3)
        ensures
            final(self).camera_pos == pos,
            final(self).metaballs@ == old(self).metaballs@,
            final(self).point_lights@ == old(self).point_lights@,
            final(self).background_texture == old(self).background_texture,
            final(self).img_plane_z == old(self).img_plane_z,
            final(self).camera_rot_axis == old(self).camera_rot_axis,
            final(self).camera_rot_angle == old(self).camera_rot_angle,
            final(self).threshold == old(self).threshold,
            final(self).screen_width == old(self).screen_width,
            final(self).screen_height == old(self).screen_height,
    {
        self.camera_pos = pos;
    }

    /// The six parameters that come before the metaballs, given the camera matrix `cam`.
    pub open spec fn header(&self, cam: Mat4) -> Seq<Param> {
        seq![
            (UniformName::ScreenWidth, UniformValue::UnsignedInt(self.screen_width)),
            (UniformName::ScreenHeight, UniformValue::UnsignedInt(self.screen_height)),
            (UniformName::ImgPlaneZ, UniformValue::Float(self.img_plane_z)),
            (UniformName::BgTex, UniformValue::Background),
            (UniformName::CameraMat, UniformValue::Mat4(cam)),
            (UniformName::Threshold, UniformValue::Float(self.threshold)),
        ]
    }

    /// The full parameter set, given the camera matrix `cam`.
    pub open spec fn params(&self, cam: Mat4) -> Seq<Param> {
        self.header(cam) + metaball_params(self.metaballs@) + light_params(self.point_lights@)
    }

    /// The parameter set of this scene, where `cs` and `sn` are the cosine and
    /// sine of `camera_rot_angle`. The camera matrix is
    /// `translation(camera_pos) · rotation(camera_rot_angle, camera_rot_axis)`.
    pub fn visit_values(&self, cs: i64, sn: i64) -> (r: Vec<Param>)
        requires
            self.wf(),
            is_unit_range(cs as int),
            is_unit_range(sn as int),
        ensures
            exists|cam: Mat4|
                is_camera_matrix(cam, self.camera_pos, self.camera_rot_axis, cs as int, sn as int)
                    && r@ == self.params(cam),
    {
        let cam = camera_matrix(self.camera_pos, self.camera_rot_axis, cs, sn);
        let mut out: Vec<Param> = Vec::new();
        out.push((UniformName::ScreenWidth, UniformValue::UnsignedInt(self.screen_width)));
        out.push((UniformName::ScreenHeight, UniformValue::UnsignedInt(self.screen_height)));
        out.push((UniformName::ImgPlaneZ, UniformValue::Float(self.img_plane_z)));
        out.push((UniformName::BgTex, UniformValue::Background));
        out.push((UniformName::CameraMat, UniformValue::Mat4(cam)));
        out.push((UniformName::Threshold, UniformValue::Float(self.threshold)));
        assert(out@ =~= self.header(cam));
        let n = self.metaballs.len();
        let mut i: usize = 0;
        while i < n
            invariant
                n == self.metaballs@.len(),
                i <= n,
                out@ == self.header(cam) + metaball_params(self.metaballs@.take(i as int)),
            decreases n - i,
        {
            let mb = self.metaballs[i];
            let ghost before = out@;
            out.push((UniformName::Metaball(i, MetaballField::ChargePos), UniformValue::Vec3(mb.charge_pos)));
            out.push((UniformName::Metaball(i, MetaballField::Strength), UniformValue::Float(mb.strength)));
            out.push((UniformName::Metaball(i, MetaballField::MaterialColor), UniformValue::Vec3(mb.material.color)));
            out.push((UniformName::Metaball(i, MetaballField::MaterialRoughness), UniformValue::Float(mb.material.roughness)));
            proof {
                let t = self.metaballs@.take(i as int + 1);
                assert(t.drop_last() =~= self.metaballs@.take(i as int));
                assert(out@ =~= before + metaball_group(i as int, mb));
            }
            i = i + 1;
        }
        assert(self.metaballs@.take(n as int) =~= self.metaballs@);
        let ghost mid = out@;
        let m = self.point_lights.len();
        let mut j: usize = 0;
        while j < m
            invariant
                m == self.point_lights@.len(),
                j <= m,
                out@ == mid + light_params(self.point_lights@.take(j as int)),
            decreases m - j,
        {
            let l = self.point_lights[j];
            let ghost before = out@;
            out.push((UniformName::Light(j, LightField::Pos), UniformValue::Vec3(l.pos)));
            out.push((UniformName::Light(j, LightField::Color), UniformValue::Vec3(l.color)));
            out.push((UniformName::Light(j, LightField::Intensity), UniformValue::Float(l.intensity)));
            proof {
                let t = self.point_lights@.take(j as int + 1);
                assert(t.drop_last() =~= self.point_lights@.take(j as int));
                assert(out@ =~= before + light_group(j as int, l));
            }
            j = j + 1;
        }
        assert(self.point_lights@.take(m as int) =~= self.point_lights@);
        assert(out@ == self.params(cam));
        out
    }
}

/// The ordinal that a parameter name gives a metaball, or -1 for other names.
pub open spec fn metaball_ordinal(n: UniformName) -> int {
    match n {
        UniformName::Metaball(i, _) => i as int,
        _ => -1,
    }
}

/// The ordinal that a parameter name gives a light, or -1 for other names.
pub open spec fn light_ordinal(n: UniformName) -> int {
    match n {
        UniformName::Light(i, _) => i as int,
        _ => -1,
    }
}

/// The metaball ordinals that occur among the names of `ps`.
pub open spec fn emitted_metaballs(ps: Seq<Param>) -> Set<int> {
    Set::new(|i: int| i >= 0 && exists|k: int| 0 <= k < ps.len() && metaball_ordinal(#[trigger] ps[k].0) == i)
}

/// The light ordinals that occur among the names of `ps`.
pub open spec fn emitted_lights(ps: Seq<Param>) -> Set<int> {
    Set::new(|i: int| i >= 0 && exists|k: int| 0 <= k < ps.len() && light_ordinal(#[trigger] ps[k].0) == i)
}

proof fn lemma_quarter(k: int, q: int)
    requires
        4 * q <= k < 4 * q + 4,
    ensures
        k / 4 == q,
        k % 4 == k - 4 * q,
{
    vstd::arithmetic::div_mod::lemma_fundamental_div_mod_converse(k, 4, q, k - 4 * q);
}

proof fn lemma_third(k: int, q: int)
    requires
        3 * q <= k < 3 * q + 3,
    ensures
        k / 3 == q,
        k % 3 == k - 3 * q,
{
    vstd::arithmetic::div_mod::lemma_fundamental_div_mod_converse(k, 3, q, k - 3 * q);
}

/// Entry `k` of the metaball parameters is field `k % 4` of metaball `k / 4`.
proof fn lemma_metaball_params_shape(s: Seq<Metaball>)
    ensures
        metaball_params(s).len() == 4 * s.len(),
        forall|k: int|
            0 <= k < 4 * s.len() ==> #[trigger] metaball_params(s)[k] == metaball_group(
                k / 4,
                s[k / 4],
            )[k % 4],
    decreases s.len(),
{
    if s.len() > 0 {
        let p = s.drop_last();
        lemma_metaball_params_shape(p);
        let n = s.len() - 1;
        assert forall|k: int| 0 <= k < 4 * s.len() implies #[trigger] metaball_params(s)[k]
            == metaball_group(k / 4, s[k / 4])[k % 4] by {
            if k < 4 * n {
                assert(metaball_params(s)[k] == metaball_params(p)[k]);
                vstd::arithmetic::div_mod::lemma_fundamental_div_mod(k, 4);
                assert(k / 4 < n) by (nonlinear_arith)
                    requires
                        k == 4 * (k / 4) + k % 4,
                        0 <= k % 4,
                        k < 4 * n,
                ;
                assert(k / 4 >= 0) by (nonlinear_arith)
                    requires
                        k == 4 * (k / 4) + k % 4,
                        k % 4 < 4,
                        k >= 0,
                ;
            } else {
                lemma_quarter(k, n);
            }
        }
    }
}

/// Entry `k` of the light parameters is field `k % 3` of light `k / 3`.
proof fn lemma_light_params_shape(s: Seq<PointLight>)
    ensures
        light_params(s).len() == 3 * s.len(),
        forall|k: int|
            0 <= k < 3 * s.len() ==> #[trigger] light_params(s)[k] == light_group(k / 3, s[k / 3])[k
                % 3],
    decreases s.len(),
{
    if s.len() > 0 {
        let p = s.drop_last();
        lemma_light_params_shape(p);
        let n = s.len() - 1;
        assert forall|k: int| 0 <= k < 3 * s.len() implies #[trigger] light_params(s)[k]
            == light_group(k / 3, s[k / 3])[k % 3] by {
            if k < 3 * n {
                assert(light_params(s)[k] == light_params(p)[k]);
                vstd::arithmetic::div_mod::lemma_fundamental_div_mod(k, 3);
                assert(k / 3 < n) by (nonlinear_arith)
                    requires
                        k == 3 * (k / 3) + k % 3,
                        0 <= k % 3,
                        k < 3 * n,
                ;
                assert(k / 3 >= 0) by (nonlinear_arith)
                    requires
                        k == 3 * (k / 3) + k % 3,
                        k % 3 < 3,
                        k >= 0,
                ;
            } else {
                lemma_third(k, n);
            }
        }
    }
}

impl<B> Uniforms<B> {
    /// The metaball at position `i` of the scene is emitted under ordinal `i`:
    /// its four parameters stand at `6 + 4·i` onwards and carry its own values.
    /// The light at position `j` is emitted under ordinal `j` in the same way,
    /// after all metaballs.
    pub proof fn lemma_ordinal_is_position(&self, cam: Mat4)
        ensures
            forall|i: int, f: int|
                0 <= i < self.metaballs@.len() && 0 <= f < 4 ==> #[trigger] self.params(cam)[6 + 4
                    * i + f] == metaball_group(i, self.metaballs@[i])[f],
            forall|j: int, f: int|
                0 <= j < self.point_lights@.len() && 0 <= f < 3 ==> #[trigger] self.params(cam)[6
                    + 4 * self.metaballs@.len() + 3 * j + f] == light_group(
                    j,
                    self.point_lights@[j],
                )[f],
    {
        let mp = metaball_params(self.metaballs@);
        let lp = light_params(self.point_lights@);
        let n = self.metaballs@.len();
        lemma_metaball_params_shape(self.metaballs@);
        lemma_light_params_shape(self.point_lights@);
        assert forall|i: int, f: int| 0 <= i < n && 0 <= f < 4 implies #[trigger] self.params(
            cam,
        )[6 + 4 * i + f] == metaball_group(i, self.metaballs@[i])[f] by {
            lemma_quarter(4 * i + f, i);
            assert(4 * i + f < 4 * n) by (nonlinear_arith)
                requires
                    i < n,
                    f < 4,
            ;
            assert(self.params(cam)[6 + 4 * i + f] == mp[4 * i + f]);
        }
        assert forall|j: int, f: int| 0 <= j < self.point_lights@.len() && 0 <= f < 3 implies #[trigger] self.params(
            cam,
        )[6 + 4 * n + 3 * j + f] == light_group(j, self.point_lights@[j])[f] by {
            lemma_third(3 * j + f, j);
            assert(3 * j + f < 3 * self.point_lights@.len()) by (nonlinear_arith)
                requires
                    j < self.point_lights@.len(),
                    f < 3,
            ;
            assert(self.params(cam)[6 + 4 * n + 3 * j + f] == lp[3 * j + f]);
        }
    }

    /// The ordinals emitted for metaballs are exactly `0 .. metaballs.len()`,
    /// one group for each metaball; likewise for the lights.
    pub proof fn lemma_one_group_per_entity(&self, cam: Mat4)
        requires
            self.metaballs@.len() <= usize::MAX,
            self.point_lights@.len() <= usize::MAX,
        ensures
            emitted_metaballs(self.params(cam)) == set_int_range(0, self.metaballs@.len() as int),
            emitted_metaballs(self.params(cam)).len() == self.metaballs@.len(),
            emitted_lights(self.params(cam)) == set_int_range(0, self.point_lights@.len() as int),
            emitted_lights(self.params(cam)).len() == self.point_lights@.len(),
    {
        let ps = self.params(cam);
        let mp = metaball_params(self.metaballs@);
        let lp = light_params(self.point_lights@);
        let n = self.metaballs@.len() as int;
        let m = self.point_lights@.len() as int;
        lemma_metaball_params_shape(self.metaballs@);
        lemma_light_params_shape(self.point_lights@);
        self.lemma_ordinal_is_position(cam);
        assert forall|i: int| emitted_metaballs(ps).contains(i) implies set_int_range(0, n).contains(i) by {
            let k = choose|k: int| 0 <= k < ps.len() && metaball_ordinal(#[trigger] ps[k].0) == i;
            if 6 <= k < 6 + 4 * n {
                let k2 = k - 6;
                assert(ps[k] == mp[k2]);
                vstd::arithmetic::div_mod::lemma_fundamental_div_mod(k2, 4);
                assert(k2 / 4 < n) by (nonlinear_arith)
                    requires
                        k2 == 4 * (k2 / 4) + k2 % 4,
                        0 <= k2 % 4,
                        k2 < 4 * n,
                ;
            } else if k >= 6 + 4 * n {
                let k3 = k - 6 - 4 * n;
                assert(ps[k] == lp[k3]);
            }
        }
        assert forall|i: int| set_int_range(0, n).contains(i) implies emitted_metaballs(ps).contains(i) by {
            assert(ps[6 + 4 * i + 0] == metaball_group(i, self.metaballs@[i])[0]);
            assert(metaball_ordinal(ps[6 + 4 * i].0) == i);
        }
        assert(emitted_metaballs(ps) =~= set_int_range(0, n));
        assert forall|j: int| emitted_lights(ps).contains(j) implies set_int_range(0, m).contains(j) by {
            let k = choose|k: int| 0 <= k < ps.len() && light_ordinal(#[trigger] ps[k].0) == j;
            if 6 <= k < 6 + 4 * n {
                let k2 = k - 6;
                assert(ps[k] == mp[k2]);
            } else if k >= 6 + 4 * n {
                let k3 = k - 6 - 4 * n;
                assert(ps[k] == lp[k3]);
                vstd::arithmetic::div_mod::lemma_fundamental_div_mod(k3, 3);
                assert(k3 / 3 < m) by (nonlinear_arith)
                    requires
                        k3 == 3 * (k3 / 3) + k3 % 3,
                        0 <= k3 % 3,
                        k3 < 3 * m,
                ;
            }
        }
        assert forall|j: int| set_int_range(0, m).contains(j) implies emitted_lights(ps).contains(j) by {
            assert(ps[6 + 4 * n + 3 * j + 0] == light_group(j, self.point_lights@[j])[0]);
            assert(light_ordinal(ps[6 + 4 * n + 3 * j].0) == j);
        }
        assert(emitted_lights(ps) =~= set_int_range(0, m));
        lemma_int_range(0, n);
        lemma_int_range(0, m);
    }
}

/// Reordering the metaballs reorders their ordinals: when `v` holds the
/// metaballs of `u` with those at `a` and `b` swapped, the metaball that `u`
/// emits under ordinal `a` is emitted by `v` under ordinal `b`.
pub proof fn lemma_swap_moves_ordinal<B>(u: &Uniforms<B>, v: &Uniforms<B>, cam: Mat4, a: int, b: int)
    requires
        0 <= a < u.metaballs@.len(),
        0 <= b < u.metaballs@.len(),
        v.metaballs@ == u.metaballs@.update(a, u.metaballs@[b]).update(b, u.metaballs@[a]),
    ensures
        forall|f: int|
            0 <= f < 4 ==> #[trigger] v.params(cam)[6 + 4 * b + f] == metaball_group(
                b,
                u.metaballs@[a],
            )[f],
        forall|f: int|
            0 <= f < 4 ==> #[trigger] u.params(cam)[6 + 4 * a + f] == metaball_group(
                a,
                u.metaballs@[a],
            )[f],
{
    u.lemma_ordinal_is_position(cam);
    v.lemma_ordinal_is_position(cam);
    assert(v.metaballs@[b] == u.metaballs@[a]);
}

} // verus!
