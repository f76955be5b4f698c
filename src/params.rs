use vstd::prelude::*;

use crate::field::{HeightField, RenderMode};
use crate::fixed::{domain_scale, scale_den, scale_num, Fraction};
use crate::png::{terrain_png, EncodeError};

verus! {

/// Default number of noise octaves.
pub const DEFAULT_OCTAVES: usize = 6;

/// Default per-octave amplitude factor, 0.5 in fixed point.
pub const DEFAULT_PERSISTENCE: i32 = 32768;

/// Default per-octave frequency factor, 2.0 in fixed point.
pub const DEFAULT_LACUNARITY: i32 = 131072;

/// Default sea level, 0.0 in fixed point.
pub const DEFAULT_SEA_LEVEL: i32 = 0;

/// The parameters of one terrain. `rooms`, `persistence`, `lacunarity` and
/// `sea_level` are fixed point (see `fixed::ONE`). `seed`, `octaves`,
/// `persistence` and `lacunarity` configure the noise that fills the height
/// field; `rooms` sets the sampled domain and `sea_level` the water line.
#[derive(Clone, Copy, Debug, PartialEq, Eq, Structural)]
pub struct TerrainParams {
    pub rooms: i32,
    pub seed: u32,
    pub octaves: usize,
    pub persistence: i32,
    pub lacunarity: i32,
    pub sea_level: i32,
}

impl TerrainParams {
    /// Parameters with the default noise settings and sea level.
    pub fn with_defaults(rooms: i32, seed: u32) -> (p: TerrainParams)
        ensures
            p.rooms == rooms,
            p.seed == seed,
            p.octaves == DEFAULT_OCTAVES,
            p.persistence == DEFAULT_PERSISTENCE,
            p.lacunarity == DEFAULT_LACUNARITY,
            p.sea_level == DEFAULT_SEA_LEVEL,
    {
        TerrainParams {
            rooms,
            seed,
            octaves: DEFAULT_OCTAVES,
            persistence: DEFAULT_PERSISTENCE,
            lacunarity: DEFAULT_LACUNARITY,
            sea_level: DEFAULT_SEA_LEVEL,
        }
    }

    /// The coloured rendering at this sea level.
    pub fn render_mode(&self) -> (m: RenderMode)
        ensures
            m == (RenderMode::Colored { sea_level: self.sea_level }),
    {
        RenderMode::Colored { sea_level: self.sea_level }
    }

    /// The domain scale `1 + rooms / 10`.
    pub fn scale(&self) -> (s: Fraction)
        ensures
            s.num == scale_num(self.rooms as int),
            s.den == scale_den(),
    {
        domain_scale(self.rooms)
    }

    /// The coloured PNG of `field`, sampled with these parameters.
    pub fn png_for(&self, field: &HeightField) -> (r: Result<Vec<u8>, EncodeError>)
        requires
            field.wf(),
        ensures
            r matches Ok(bytes) ==> bytes@ == crate::png::png_stream(
                crate::field::pixels_of(field@, RenderMode::Colored { sea_level: self.sea_level }),
                crate::fixed::WIDTH as nat,
                crate::fixed::HEIGHT as nat,
                crate::field::Layout::Rgb,
            ),
            r is Ok,
    {
        terrain_png(field, self.render_mode())
    }
}

} // verus!
