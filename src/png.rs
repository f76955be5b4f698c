use vstd::prelude::*;

use image::ImageEncoder;

use crate::field::{channels, layout_of, pixels_of, render, HeightField, Layout, PixelBuffer, RenderMode};
use crate::fixed::{HEIGHT, WIDTH};

verus! {

#[verifier::external_type_specification]
#[verifier::external_body]
pub struct ExImageError(image::ImageError);

/// The PNG stream that image's PNG encoder, at its default compression and
/// filter, writes for a `width` by `height` image of row-major `pixels` laid
/// out as `layout`.
pub uninterp spec fn png_stream(pixels: Seq<u8>, width: nat, height: nat, layout: Layout) -> Seq<u8>;

/// Relies on image::codecs::png::PngEncoder::write_image (through the
/// ImageEncoder trait): it panics unless `pixels` holds exactly
/// `width * height * channels` bytes. For 8-bit grey or RGB pixels it fails
/// only on a zero width or height (writing into a `Vec` cannot fail), and
/// otherwise writes a PNG stream that depends on its arguments alone.
#[verifier::external_body]
fn write_png(pixels: &Vec<u8>, width: u32, height: u32, layout: Layout) -> (r: Result<Vec<u8>, image::ImageError>)
    requires
        pixels@.len() == width * height * channels(layout),
    ensures
        width > 0 && height > 0 ==> r is Ok,
        r matches Ok(bytes) ==> bytes@ == png_stream(pixels@, width as nat, height as nat, layout),
{
    let color = match layout {
        Layout::Gray => image::ExtendedColorType::L8,
        Layout::Rgb => image::ExtendedColorType::Rgb8,
    };
    let mut out: Vec<u8> = Vec::new();
    let res = image::codecs::png::PngEncoder::new(&mut out).write_image(pixels.as_slice(), width, height, color);
    res.map(|_| out)
}

/// Why an image could not be encoded. The encoder reports no failure for the
/// buffers this library renders.
#[derive(Clone, Copy, Debug, PartialEq, Eq, Structural)]
pub enum EncodeError {
    /// The PNG encoder reported a failure.
    Png,
}

/// Encodes a rendered buffer as a PNG stream of `WIDTH` by `HEIGHT` pixels.
pub fn encode_png(buf: &PixelBuffer) -> (r: Result<Vec<u8>, EncodeError>)
    requires
        buf.wf(),
    ensures
        r is Ok,
        r matches Ok(bytes) ==> bytes@ == png_stream(buf@, WIDTH as nat, HEIGHT as nat, buf.spec_layout()),
{
    let layout = buf.layout();
    match write_png(buf.as_bytes(), WIDTH as u32, HEIGHT as u32, layout) {
        Ok(bytes) => Ok(bytes),
        Err(_) => Err(EncodeError::Png),
    }
}

/// Renders `field` as `mode` asks and encodes the result as PNG.
pub fn terrain_png(field: &HeightField, mode: RenderMode) -> (r: Result<Vec<u8>, EncodeError>)
    requires
        field.wf(),
    ensures
        r matches Ok(bytes) ==> bytes@ == png_stream(
            pixels_of(field@, mode),
            WIDTH as nat,
            HEIGHT as nat,
            layout_of(mode),
        ),
        r is Ok,
{
    let buf = render(field, mode);
    encode_png(&buf)
}

/// Rendering and encoding depend on the height field and the mode alone: equal
/// inputs give byte-identical pixel buffers and byte-identical PNG streams
/// (and `terrain_png` always succeeds, so equal inputs give equal results).
pub proof fn lemma_deterministic(h1: Seq<i32>, h2: Seq<i32>, m1: RenderMode, m2: RenderMode)
    requires
        h1 == h2,
        m1 == m2,
    ensures
        pixels_of(h1, m1) == pixels_of(h2, m2),
        png_stream(pixels_of(h1, m1), WIDTH as nat, HEIGHT as nat, layout_of(m1)) == png_stream(
            pixels_of(h2, m2),
            WIDTH as nat,
            HEIGHT as nat,
            layout_of(m2),
        ),
{
}

} // verus!
