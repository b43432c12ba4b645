use vstd::prelude::*;

use crate::uniforms::{LightField, MetaballField, UniformName};

verus! {

/// Relies on `String::push`: appends one character.
#[verifier::external_body]
fn push_char(s: &mut String, c: char)
    ensures
        final(s)@ == old(s)@.push(c),
{
    s.push(c)
}

/// Relies on `String::push_str`: appends the characters of `t`.
#[verifier::external_body]
fn push_str(s: &mut String, t: &str)
    ensures
        final(s)@ == old(s)@ + t@,
{
    s.push_str(t)
}

/// The decimal digit `d`.
pub open spec fn digit_char(d: nat) -> char {
    (48 + d) as char
}

/// The decimal representation of `n`, without leading zeros.
pub open spec fn decimal(n: nat) -> Seq<char>
    decreases n,
{
    if n < 10 {
        seq![digit_char(n)]
    } else {
        decimal(n / 10).push(digit_char(n % 10))
    }
}

fn push_decimal(s: &mut String, n: usize)
    ensures
        final(s)@ == old(s)@ + decimal(n as nat),
    decreases n,
{
    if n >= 10 {
        push_decimal(s, n / 10);
    }
    let d: u8 = (n % 10) as u8;
    let c: char = (48u8 + d) as char;
    push_char(s, c);
    assert(s@ =~= old(s)@ + decimal(n as nat));
}

pub open spec fn metaball_field_text(f: MetaballField) -> Seq<char> {
    match f {
        MetaballField::ChargePos => "chargePos"@,
        MetaballField::Strength => "strength"@,
        MetaballField::MaterialColor => "material.color"@,
        MetaballField::MaterialRoughness => "material.roughness"@,
    }
}

pub open spec fn light_field_text(f: LightField) -> Seq<char> {
    match f {
        LightField::Pos => "pos"@,
        LightField::Color => "color"@,
        LightField::Intensity => "intensity"@,
    }
}

/// The key under which the shading pipeline knows a parameter: array members
/// are written `array[ordinal].field`.
pub open spec fn name_text(n: UniformName) -> Seq<char> {
    match n {
        UniformName::ScreenWidth => "screenWidth"@,
        UniformName::ScreenHeight => "screenHeight"@,
        UniformName::ImgPlaneZ => "imgPlaneZ"@,
        UniformName::BgTex => "bgTex"@,
        UniformName::CameraMat => "cameraMat"@,
        UniformName::Threshold => "threshold"@,
        UniformName::Metaball(i, f) => "metaballs["@ + decimal(i as nat) + "]."@
            + metaball_field_text(f),
        UniformName::Light(i, f) => "pointLights["@ + decimal(i as nat) + "]."@ + light_field_text(
            f,
        ),
    }
}

fn metaball_field_str(f: MetaballField) -> (r: &'static str)
    ensures
        r@ == metaball_field_text(f),
{
    match f {
        MetaballField::ChargePos => "chargePos",
        MetaballField::Strength => "strength",
        MetaballField::MaterialColor => "material.color",
        MetaballField::MaterialRoughness => "material.roughness",
    }
}

fn light_field_str(f: LightField) -> (r: &'static str)
    ensures
        r@ == light_field_text(f),
{
    match f {
        LightField::Pos => "pos",
        LightField::Color => "color",
        LightField::Intensity => "intensity",
    }
}

impl UniformName {
    /// The key of this parameter, such as `metaballs[3].chargePos`.
    pub fn text(&self) -> (r: String)
        ensures
            r@ == name_text(*self),
    {
        let mut s = String::new();
        match self {
            UniformName::ScreenWidth => push_str(&mut s, "screenWidth"),
            UniformName::ScreenHeight => push_str(&mut s, "screenHeight"),
            UniformName::ImgPlaneZ => push_str(&mut s, "imgPlaneZ"),
            UniformName::BgTex => push_str(&mut s, "bgTex"),
            UniformName::CameraMat => push_str(&mut s, "cameraMat"),
            UniformName::Threshold => push_str(&mut s, "threshold"),
            UniformName::Metaball(i, f) => {
                push_str(&mut s, "metaballs[");
                push_decimal(&mut s, *i);
                push_str(&mut s, "].");
                push_str(&mut s, metaball_field_str(*f));
            },
            UniformName::Light(i, f) => {
                push_str(&mut s, "pointLights[");
                push_decimal(&mut s, *i);
                push_str(&mut s, "].");
                push_str(&mut s, light_field_str(*f));
            },
        }
        assert(s@ =~= name_text(*self));
        s
    }
}

} // verus!
