use vstd::prelude::*;

use crate::fixed::{HEIGHT, PIXELS, WIDTH};
use crate::palette::{color_of, gray_level, gray_of, terrain_color, Rgb};

verus! {

/// A grid of `WIDTH * HEIGHT` height samples in fixed point, row-major.
pub struct HeightField {
    samples: Vec<i32>,
}

impl View for HeightField {
    type V = Seq<i32>;

    closed spec fn view(&self) -> Seq<i32> {
        self.samples@
    }
}

impl HeightField {
    pub open spec fn wf(&self) -> bool {
        self@.len() == PIXELS
    }

    /// Takes `WIDTH * HEIGHT` row-major samples; any other count is refused.
    pub fn from_samples(samples: Vec<i32>) -> (r: Option<HeightField>)
        ensures
            r is Some <==> samples@.len() == PIXELS,
            r matches Some(f) ==> f.wf() && f@ == samples@,
    {
        if samples.len() == PIXELS {
            Some(HeightField { samples })
        } else {
            None
        }
    }

    /// The sample at column `x` and row `y`.
    pub fn get(&self, x: usize, y: usize) -> (v: i32)
        requires
            self.wf(),
            x < WIDTH,
            y < HEIGHT,
        ensures
            v == self@[y * WIDTH + x],
    {
        self.samples[y * WIDTH + x]
    }
}

/// The channel layout of a pixel buffer.
#[derive(Clone, Copy, Debug, PartialEq, Eq, Structural)]
pub enum Layout {
    Gray,
    Rgb,
}

pub open spec fn channels(l: Layout) -> nat {
    match l {
        Layout::Gray => 1,
        Layout::Rgb => 3,
    }
}

/// How heights become pixels.
#[derive(Clone, Copy, Debug, PartialEq, Eq, Structural)]
pub enum RenderMode {
    /// Water at or below `sea_level` (fixed point), land in four bands above it.
    Colored { sea_level: i32 },
    /// One grey level per height, with no sea level.
    Grayscale,
}

pub open spec fn layout_of(mode: RenderMode) -> Layout {
    match mode {
        RenderMode::Colored { .. } => Layout::Rgb,
        RenderMode::Grayscale => Layout::Gray,
    }
}

pub open spec fn rgb_bytes(c: Rgb) -> Seq<u8> {
    seq![c.r, c.g, c.b]
}

/// The RGB bytes of each height in turn.
pub open spec fn colored_pixels(heights: Seq<i32>, sea: int) -> Seq<u8> {
    heights.map_values(|v: i32| rgb_bytes(color_of(v as int, sea))).flatten()
}

/// One grey byte per height.
pub open spec fn gray_pixels(heights: Seq<i32>) -> Seq<u8> {
    heights.map_values(|v: i32| gray_of(v as int) as u8)
}

pub open spec fn pixels_of(heights: Seq<i32>, mode: RenderMode) -> Seq<u8> {
    match mode {
        RenderMode::Colored { sea_level } => colored_pixels(heights, sea_level as int),
        RenderMode::Grayscale => gray_pixels(heights),
    }
}

proof fn lemma_colored_len(heights: Seq<i32>, sea: int)
    ensures
        colored_pixels(heights, sea).len() == 3 * heights.len(),
    decreases heights.len(),
{
    if heights.len() > 0 {
        let f = |v: i32| rgb_bytes(color_of(v as int, sea));
        let rest = heights.drop_last();
        lemma_colored_len(rest, sea);
        assert(heights.map_values(f) =~= rest.map_values(f).push(f(heights.last())));
        rest.map_values(f).lemma_flatten_push(f(heights.last()));
    }
}

/// Any sequence of heights renders to exactly `channels` bytes per height, so a
/// full grid always renders to a `WIDTH * HEIGHT` image, whatever the mode and
/// sea level.
pub proof fn lemma_pixels_len(heights: Seq<i32>, mode: RenderMode)
    ensures
        pixels_of(heights, mode).len() == heights.len() * channels(layout_of(mode)),
        heights.len() == PIXELS ==> pixels_of(heights, mode).len() == WIDTH * HEIGHT * channels(
            layout_of(mode),
        ),
{
    if let RenderMode::Colored { sea_level } = mode {
        lemma_colored_len(heights, sea_level as int);
    }
}

/// A rendered `WIDTH * HEIGHT` image: row-major pixels of `channels(layout)`
/// bytes each.
pub struct PixelBuffer {
    layout: Layout,
    data: Vec<u8>,
}

impl View for PixelBuffer {
    type V = Seq<u8>;

    closed spec fn view(&self) -> Seq<u8> {
        self.data@
    }
}

impl PixelBuffer {
    pub closed spec fn spec_layout(&self) -> Layout {
        self.layout
    }

    pub open spec fn wf(&self) -> bool {
        self@.len() == PIXELS * channels(self.spec_layout())
    }

    pub fn layout(&self) -> (l: Layout)
        ensures
            l == self.spec_layout(),
    {
        self.layout
    }

    pub fn as_bytes(&self) -> (b: &Vec<u8>)
        ensures
            b@ == self@,
    {
        &self.data
    }

    pub fn into_bytes(self) -> (b: Vec<u8>)
        ensures
            b@ == self@,
    {
        self.data
    }
}

fn render_colored(heights: &Vec<i32>, sea: i32) -> (data: Vec<u8>)
    requires
        heights.len() == PIXELS,
    ensures
        data@ == colored_pixels(heights@, sea as int),
        data@.len() == 3 * PIXELS,
{
    let mut data: Vec<u8> = Vec::new();
    let mut i: usize = 0;
    while i < heights.len()
        invariant
            heights.len() == PIXELS,
            i <= heights.len(),
            data@.len() == 3 * i,
            data@ == colored_pixels(heights@.take(i as int), sea as int),
        decreases heights.len() - i,
    {
        let c = terrain_color(heights[i], sea);
        proof {
            let f = |v: i32| rgb_bytes(color_of(v as int, sea as int));
            let prev = heights@.take(i as int).map_values(f);
            assert(heights@.take(i as int + 1).map_values(f) =~= prev.push(f(heights@[i as int])));
            prev.lemma_flatten_push(f(heights@[i as int]));
        }
        data.push(c.r);
        data.push(c.g);
        data.push(c.b);
        i = i + 1;
    }
    assert(heights@.take(i as int) =~= heights@);
    data
}

fn render_gray(heights: &Vec<i32>) -> (data: Vec<u8>)
    requires
        heights.len() == PIXELS,
    ensures
        data@ == gray_pixels(heights@),
{
    let mut data: Vec<u8> = Vec::new();
    let mut i: usize = 0;
    while i < heights.len()
        invariant
            i <= heights.len(),
            data@ =~= gray_pixels(heights@.take(i as int)),
        decreases heights.len() - i,
    {
        let g = gray_level(heights[i]);
        data.push(g);
        i = i + 1;
    }
    assert(heights@.take(i as int) =~= heights@);
    data
}

/// Renders every height of `field`, in row-major order, as `mode` asks.
pub fn render(field: &HeightField, mode: RenderMode) -> (buf: PixelBuffer)
    requires
        field.wf(),
    ensures
        buf.wf(),
        buf.spec_layout() == layout_of(mode),
        buf@ == pixels_of(field@, mode),
{
    match mode {
        RenderMode::Colored { sea_level } => {
            let data = render_colored(&field.samples, sea_level);
            PixelBuffer { layout: Layout::Rgb, data }
        },
        RenderMode::Grayscale => {
            let data = render_gray(&field.samples);
            PixelBuffer { layout: Layout::Gray, data }
        },
    }
}

} // verus!
