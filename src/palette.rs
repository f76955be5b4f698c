use vstd::prelude::*;

use crate::fixed::ONE;

verus! {

/// An 8-bit RGB colour.
#[derive(Clone, Copy, Debug, PartialEq, Eq, Structural)]
pub struct Rgb {
    pub r: u8,
    pub g: u8,
    pub b: u8,
}

/// The classification of a height relative to the sea level.
#[derive(Clone, Copy, Debug, PartialEq, Eq, Structural)]
pub enum Band {
    Water,
    Sand,
    Grass,
    Rock,
    Snow,
}

// The shallow-water colour (depth 0) and the deep-water colour (depth 1).
pub const SHALLOW_R: u8 = 70;

pub const SHALLOW_G: u8 = 130;

pub const SHALLOW_B: u8 = 180;

pub const DEEP_R: u8 = 0;

pub const DEEP_G: u8 = 0;

pub const DEEP_B: u8 = 255;

/// The colour with channels `r`, `g`, `b`, each taken as a byte.
pub open spec fn rgb(r: int, g: int, b: int) -> Rgb {
    Rgb { r: r as u8, g: g as u8, b: b as u8 }
}

/// A height `v` is water when it lies at or below the sea level.
pub open spec fn is_water(v: int, sea: int) -> bool {
    v <= sea
}

/// The land band of a height `v` above the sea level `sea`.
///
/// The normalized land height is `h = (v - sea) / (ONE - sea)`, clamped to
/// `[0, 1]`; the bands start at `h = 1/4`, `1/2` and `3/4`. Above a sea level
/// over the nominal maximum the quotient is negative and clamps to 0 (sand).
/// With the sea level exactly at the nominal maximum (`ONE - sea == 0`) the
/// quotient is undefined: every land height then counts as the highest one
/// (`h = 1`).
pub open spec fn land_band(v: int, sea: int) -> Band {
    let num = v - sea;
    let den = ONE - sea;
    if den == 0 {
        Band::Snow
    } else if den < 0 {
        Band::Sand
    } else if 4 * num < den {
        Band::Sand
    } else if 2 * num < den {
        Band::Grass
    } else if 4 * num < 3 * den {
        Band::Rock
    } else {
        Band::Snow
    }
}

/// The band of height `v`: water at or below the sea level, else its land band.
pub open spec fn band_of(v: int, sea: int) -> Band {
    if is_water(v, sea) {
        Band::Water
    } else {
        land_band(v, sea)
    }
}

/// Numerator of the water depth `(sea - v) / (sea + ONE)`, clamped to `[0, 1]`.
/// Below a sea level under the nominal minimum the quotient is not positive
/// and clamps to 0 (shallow). With the sea level exactly at the nominal minimum
/// (`sea + ONE == 0`) the quotient is undefined: all water then counts as
/// fully deep (depth 1).
pub open spec fn depth_num(v: int, sea: int) -> int {
    let den = sea + ONE;
    if den == 0 {
        1
    } else if den < 0 {
        0
    } else if sea - v < den {
        sea - v
    } else {
        den
    }
}

/// Denominator of the water depth.
pub open spec fn depth_den(sea: int) -> int {
    if sea + ONE <= 0 {
        1
    } else {
        sea + ONE
    }
}

/// A channel interpolated from `shallow` (depth 0) to `deep` (depth 1) at
/// depth `dn / dd`, truncated to an integer.
pub open spec fn lerp_channel(shallow: int, deep: int, dn: int, dd: int) -> int {
    (shallow * (dd - dn) + deep * dn) / dd
}

/// The colour of water height `v`, shaded by its depth.
pub open spec fn water_color(v: int, sea: int) -> Rgb {
    let dn = depth_num(v, sea);
    let dd = depth_den(sea);
    rgb(
        lerp_channel(SHALLOW_R as int, DEEP_R as int, dn, dd),
        lerp_channel(SHALLOW_G as int, DEEP_G as int, dn, dd),
        lerp_channel(SHALLOW_B as int, DEEP_B as int, dn, dd),
    )
}

/// The fixed colour of a land band: sand, grass, rock, snow.
pub open spec fn land_color(b: Band) -> Rgb {
    match b {
        Band::Sand => rgb(238, 214, 175),
        Band::Grass => rgb(34, 139, 34),
        Band::Rock => rgb(139, 137, 137),
        _ => rgb(255, 250, 250),
    }
}

/// The colour of height `v` with sea level `sea`.
pub open spec fn color_of(v: int, sea: int) -> Rgb {
    if is_water(v, sea) {
        water_color(v, sea)
    } else {
        land_color(land_band(v, sea))
    }
}

/// The grey level of height `v`: `clamp((v / ONE + 1) / 2 * 255, 0, 255)`,
/// truncated.
pub open spec fn gray_of(v: int) -> int {
    let t = (v + ONE) * 255 / (2 * ONE);
    if t < 0 {
        0
    } else if t > 255 {
        255
    } else {
        t
    }
}

/// An interpolated channel stays between its two end values.
pub proof fn lemma_lerp_between(shallow: int, deep: int, dn: int, dd: int)
    requires
        0 <= shallow <= 255,
        0 <= deep <= 255,
        0 <= dn <= dd,
        0 < dd,
    ensures
        shallow <= deep ==> shallow <= lerp_channel(shallow, deep, dn, dd) <= deep,
        deep <= shallow ==> deep <= lerp_channel(shallow, deep, dn, dd) <= shallow,
        0 <= lerp_channel(shallow, deep, dn, dd) <= 255,
{
    let n = shallow * (dd - dn) + deep * dn;
    if shallow <= deep {
        assert(shallow * dd <= n <= deep * dd) by (nonlinear_arith)
            requires
                n == shallow * (dd - dn) + deep * dn,
                shallow <= deep,
                0 <= dn <= dd,
        ;
        lemma_div_between(n, shallow, deep, dd);
    } else {
        assert(deep * dd <= n <= shallow * dd) by (nonlinear_arith)
            requires
                n == shallow * (dd - dn) + deep * dn,
                deep <= shallow,
                0 <= dn <= dd,
        ;
        lemma_div_between(n, deep, shallow, dd);
    }
}

proof fn lemma_div_between(n: int, lo: int, hi: int, d: int)
    requires
        0 < d,
        lo * d <= n <= hi * d,
    ensures
        lo <= n / d <= hi,
{
    vstd::arithmetic::div_mod::lemma_fundamental_div_mod(n, d);
    let q = n / d;
    assert(lo <= q) by (nonlinear_arith)
        requires
            lo * d <= n,
            n == d * q + n % d,
            0 <= n % d < d,
            0 < d,
    ;
    assert(q <= hi) by (nonlinear_arith)
        requires
            n <= hi * d,
            n == d * q + n % d,
            0 <= n % d,
            0 < d,
    ;
}

/// Depth is a fraction in `[0, 1]` for every water height.
proof fn lemma_depth_in_unit(v: int, sea: int)
    requires
        is_water(v, sea),
    ensures
        0 <= depth_num(v, sea) <= depth_den(sea),
        0 < depth_den(sea),
{
}

/// Every channel of every colour, and every grey level, is the exact value of
/// its formula, an integer in `[0, 255]`: nothing is wrapped into a byte.
pub proof fn lemma_channels_in_range(v: int, sea: int)
    ensures
        is_water(v, sea) ==> 0 <= lerp_channel(SHALLOW_R as int, DEEP_R as int, depth_num(v, sea), depth_den(sea)) <= 255,
        is_water(v, sea) ==> 0 <= lerp_channel(SHALLOW_G as int, DEEP_G as int, depth_num(v, sea), depth_den(sea)) <= 255,
        is_water(v, sea) ==> 0 <= lerp_channel(SHALLOW_B as int, DEEP_B as int, depth_num(v, sea), depth_den(sea)) <= 255,
        0 <= gray_of(v) <= 255,
{
    if is_water(v, sea) {
        lemma_depth_in_unit(v, sea);
        lemma_lerp_between(SHALLOW_R as int, DEEP_R as int, depth_num(v, sea), depth_den(sea));
        lemma_lerp_between(SHALLOW_G as int, DEEP_G as int, depth_num(v, sea), depth_den(sea));
        lemma_lerp_between(SHALLOW_B as int, DEEP_B as int, depth_num(v, sea), depth_den(sea));
    }
}

proof fn lemma_lerp_ends(shallow: int, deep: int, dd: int)
    requires
        0 <= shallow,
        0 <= deep,
        0 < dd,
    ensures
        lerp_channel(shallow, deep, 0, dd) == shallow,
        lerp_channel(shallow, deep, dd, dd) == deep,
{
    assert(shallow * (dd - 0) + deep * 0 == shallow * dd) by (nonlinear_arith);
    assert(shallow * (dd - dd) + deep * dd == deep * dd) by (nonlinear_arith);
    vstd::arithmetic::div_mod::lemma_div_by_multiple(shallow, dd);
    vstd::arithmetic::div_mod::lemma_div_by_multiple(deep, dd);
}

/// A height exactly at the sea level is water, at depth 0: it takes the
/// shallow-water colour whenever the sea level is above the nominal minimum.
pub proof fn lemma_sea_level_is_water(sea: int)
    ensures
        band_of(sea, sea) == Band::Water,
        color_of(sea, sea) == water_color(sea, sea),
        sea + ONE > 0 ==> color_of(sea, sea) == rgb(SHALLOW_R as int, SHALLOW_G as int, SHALLOW_B as int),
{
    if sea + ONE > 0 {
        assert(depth_num(sea, sea) == 0);
        lemma_lerp_ends(SHALLOW_R as int, DEEP_R as int, depth_den(sea));
        lemma_lerp_ends(SHALLOW_G as int, DEEP_G as int, depth_den(sea));
        lemma_lerp_ends(SHALLOW_B as int, DEEP_B as int, depth_den(sea));
    }
}

/// A land height whose normalized height is exactly 1/4, 1/2 or 3/4 falls in
/// the band that starts there: grass, rock and snow.
pub proof fn lemma_band_thresholds(v: int, sea: int)
    requires
        sea < ONE,
    ensures
        4 * (v - sea) == ONE - sea ==> band_of(v, sea) == Band::Grass,
        2 * (v - sea) == ONE - sea ==> band_of(v, sea) == Band::Rock,
        4 * (v - sea) == 3 * (ONE - sea) ==> band_of(v, sea) == Band::Snow,
{
}

/// Every sea level gives every height a well-defined colour. With the sea
/// level at 1, heights above it are the highest land (snow) and the rest is
/// water; with the sea level at -1, all water is fully deep. Beyond the nominal
/// range the clamped quotients give sand above the sea and shallow water below.
pub proof fn lemma_degenerate_sea_levels(v: int, sea: int)
    ensures
        v > ONE ==> band_of(v, ONE as int) == Band::Snow,
        v > ONE ==> color_of(v, ONE as int) == land_color(Band::Snow),
        v <= ONE ==> band_of(v, ONE as int) == Band::Water,
        v <= -ONE ==> color_of(v, -ONE) == rgb(DEEP_R as int, DEEP_G as int, DEEP_B as int),
        sea > ONE && v > sea ==> band_of(v, sea) == Band::Sand,
        sea < -ONE && v <= sea ==> color_of(v, sea) == rgb(SHALLOW_R as int, SHALLOW_G as int, SHALLOW_B as int),
{
    if v <= -ONE {
        assert(depth_num(v, -ONE) == 1 && depth_den(-ONE) == 1);
        lemma_lerp_ends(SHALLOW_R as int, DEEP_R as int, 1);
        lemma_lerp_ends(SHALLOW_G as int, DEEP_G as int, 1);
        lemma_lerp_ends(SHALLOW_B as int, DEEP_B as int, 1);
    }
    if sea < -ONE && v <= sea {
        assert(depth_num(v, sea) == 0 && depth_den(sea) == 1);
        lemma_lerp_ends(SHALLOW_R as int, DEEP_R as int, 1);
        lemma_lerp_ends(SHALLOW_G as int, DEEP_G as int, 1);
        lemma_lerp_ends(SHALLOW_B as int, DEEP_B as int, 1);
    }
}

/// Classifies height `v` against sea level `sea`.
pub fn classify(v: i32, sea: i32) -> (b: Band)
    ensures
        b == band_of(v as int, sea as int),
        b == Band::Water <==> v <= sea,
{
    if v <= sea {
        Band::Water
    } else {
        let num: i64 = v as i64 - sea as i64;
        let den: i64 = ONE - sea as i64;
        if den == 0 {
            Band::Snow
        } else if den < 0 {
            Band::Sand
        } else if 4 * num < den {
            Band::Sand
        } else if 2 * num < den {
            Band::Grass
        } else if 4 * num < 3 * den {
            Band::Rock
        } else {
            Band::Snow
        }
    }
}

fn lerp(shallow: u8, deep: u8, dn: i64, dd: i64) -> (c: u8)
    requires
        0 <= dn <= dd,
        0 < dd <= 0x1_0000_0000,
    ensures
        c as int == lerp_channel(shallow as int, deep as int, dn as int, dd as int),
{
    proof {
        lemma_lerp_between(shallow as int, deep as int, dn as int, dd as int);
        assert(0 <= shallow * (dd - dn) <= 255 * 0x1_0000_0000) by (nonlinear_arith)
            requires
                0 <= shallow <= 255,
                0 <= dn <= dd <= 0x1_0000_0000,
        ;
        assert(0 <= deep * dn <= 255 * 0x1_0000_0000) by (nonlinear_arith)
            requires
                0 <= deep <= 255,
                0 <= dn <= 0x1_0000_0000,
        ;
    }
    let n: i64 = shallow as i64 * (dd - dn) + deep as i64 * dn;
    (n / dd) as u8
}

/// The colour of height `v` with sea level `sea`: water shades from shallow to
/// deep with depth, land takes the colour of its band.
pub fn terrain_color(v: i32, sea: i32) -> (c: Rgb)
    ensures
        c == color_of(v as int, sea as int),
{
    if v <= sea {
        let den: i64 = sea as i64 + ONE;
        let (dn, dd): (i64, i64) = if den == 0 {
            (1, 1)
        } else if den < 0 {
            (0, 1)
        } else if (sea as i64 - v as i64) < den {
            (sea as i64 - v as i64, den)
        } else {
            (den, den)
        };
        Rgb {
            r: lerp(SHALLOW_R, DEEP_R, dn, dd),
            g: lerp(SHALLOW_G, DEEP_G, dn, dd),
            b: lerp(SHALLOW_B, DEEP_B, dn, dd),
        }
    } else {
        match classify(v, sea) {
            Band::Sand => Rgb { r: 238, g: 214, b: 175 },
            Band::Grass => Rgb { r: 34, g: 139, b: 34 },
            Band::Rock => Rgb { r: 139, g: 137, b: 137 },
            _ => Rgb { r: 255, g: 250, b: 250 },
        }
    }
}

/// The grey level of height `v`, mapping the nominal range `[-1, 1]` onto
/// `[0, 255]`.
pub fn gray_level(v: i32) -> (g: u8)
    ensures
        g as int == gray_of(v as int),
{
    let t: i64 = (v as i64 + ONE) * 255;
    if t < 0 {
        proof {
            let ti = t as int;
            let d = 2 * ONE as int;
            vstd::arithmetic::div_mod::lemma_fundamental_div_mod(ti, d);
            let q = ti / d;
            assert(q < 0) by (nonlinear_arith)
                requires
                    ti < 0,
                    d > 0,
                    ti == d * q + ti % d,
                    ti % d < d,
            ;
        }
        0
    } else {
        let q: i64 = t / (2 * ONE);
        if q > 255 {
            255
        } else {
            q as u8
        }
    }
}

} // verus!
