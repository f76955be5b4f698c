use noise::{Fbm, MultiFractal, NoiseFn, Perlin};
use terrain_gen::field::{render, HeightField, Layout, RenderMode};
use terrain_gen::fixed::{domain_scale, sample_coordinate, Fraction, HEIGHT, ONE, PIXELS, WIDTH};
use terrain_gen::palette::{classify, gray_level, terrain_color, Band, Rgb};
use terrain_gen::params::TerrainParams;
use terrain_gen::png::{encode_png, terrain_png};

const Q: i32 = ONE as i32;

fn rgb(r: u8, g: u8, b: u8) -> Rgb {
    Rgb { r, g, b }
}

fn constant_field(v: i32) -> HeightField {
    HeightField::from_samples(vec![v; PIXELS]).unwrap()
}

fn ramp_field() -> HeightField {
    let samples: Vec<i32> = (0..PIXELS as i32).map(|i| (i - 32768) * 2).collect();
    HeightField::from_samples(samples).unwrap()
}

fn to_fixed(v: f64) -> i32 {
    (v * ONE as f64).round() as i32
}

fn as_f64(f: Fraction) -> f64 {
    f.num as f64 / f.den as f64
}

fn noise_field(p: &TerrainParams) -> HeightField {
    let fbm = Fbm::<Perlin>::new(p.seed)
        .set_octaves(p.octaves)
        .set_persistence(p.persistence as f64 / ONE as f64)
        .set_lacunarity(p.lacunarity as f64 / ONE as f64)
        .set_frequency(1.0);
    let mut samples = Vec::with_capacity(PIXELS);
    for y in 0..HEIGHT as u32 {
        for x in 0..WIDTH as u32 {
            let nx = as_f64(sample_coordinate(x, p.rooms));
            let ny = as_f64(sample_coordinate(y, p.rooms));
            samples.push(to_fixed(fbm.get([nx, ny, 0.0])));
        }
    }
    HeightField::from_samples(samples).unwrap()
}

#[test]
fn height_at_sea_level_is_water() {
    assert_eq!(classify(0, 0), Band::Water);
    assert_eq!(terrain_color(0, 0), rgb(70, 130, 180));
    assert_eq!(classify(Q / 4, Q / 4), Band::Water);
    assert_eq!(classify(1, 0), Band::Sand);
}

#[test]
fn band_starts_at_its_threshold() {
    assert_eq!(classify(Q / 4 - 1, 0), Band::Sand);
    assert_eq!(classify(Q / 4, 0), Band::Grass);
    assert_eq!(classify(Q / 2 - 1, 0), Band::Grass);
    assert_eq!(classify(Q / 2, 0), Band::Rock);
    assert_eq!(classify(3 * Q / 4 - 1, 0), Band::Rock);
    assert_eq!(classify(3 * Q / 4, 0), Band::Snow);
    // sea level 0.5: h = 0.25 at v = 0.625
    assert_eq!(classify(Q / 2 + Q / 8, Q / 2), Band::Grass);
    assert_eq!(classify(5 * Q, 0), Band::Snow);
}

#[test]
fn land_colors() {
    assert_eq!(terrain_color(Q / 8, 0), rgb(238, 214, 175));
    assert_eq!(terrain_color(Q / 4, 0), rgb(34, 139, 34));
    assert_eq!(terrain_color(Q / 2, 0), rgb(139, 137, 137));
    assert_eq!(terrain_color(Q, 0), rgb(255, 250, 250));
}

#[test]
fn water_shades_with_depth() {
    assert_eq!(terrain_color(-Q / 2, 0), rgb(35, 65, 217));
    assert_eq!(terrain_color(-Q, 0), rgb(0, 0, 255));
    assert_eq!(terrain_color(-3 * Q, 0), rgb(0, 0, 255));
    assert_eq!(terrain_color(-Q / 4, 0), rgb(52, 97, 198));
}

#[test]
fn sea_level_one_is_defined() {
    assert_eq!(classify(Q + 1, Q), Band::Snow);
    assert_eq!(terrain_color(Q + 1, Q), rgb(255, 250, 250));
    assert_eq!(terrain_color(Q, Q), rgb(70, 130, 180));
    assert_eq!(terrain_color(0, Q), rgb(35, 65, 217));
    assert_eq!(terrain_color(-Q, Q), rgb(0, 0, 255));
    let buf = render(&ramp_field(), RenderMode::Colored { sea_level: Q });
    assert_eq!(buf.as_bytes().len(), 3 * PIXELS);
}

#[test]
fn sea_level_minus_one_is_fully_deep() {
    assert_eq!(terrain_color(-Q, -Q), rgb(0, 0, 255));
    assert_eq!(terrain_color(-2 * Q, -Q), rgb(0, 0, 255));
    assert_eq!(terrain_color(-Q + 1, -Q), rgb(238, 214, 175));
}

#[test]
fn gray_levels() {
    assert_eq!(gray_level(0), 127);
    assert_eq!(gray_level(Q), 255);
    assert_eq!(gray_level(-Q), 0);
    assert_eq!(gray_level(3 * Q), 255);
    assert_eq!(gray_level(-3 * Q), 0);
    assert_eq!(gray_level(Q / 2), 191);
    assert_eq!(gray_level(i32::MAX), 255);
    assert_eq!(gray_level(i32::MIN), 0);
}

#[test]
fn scale_is_one_without_rooms() {
    let s = domain_scale(0);
    assert_eq!(s.num, s.den);
    let s10 = domain_scale(10 * Q);
    assert_eq!(s10.num, 2 * s10.den);
    assert_eq!(TerrainParams::with_defaults(5 * Q, 1).scale(), domain_scale(5 * Q));
}

#[test]
fn sampling_coordinates() {
    assert_eq!(as_f64(sample_coordinate(0, 0)), -0.5);
    assert_eq!(as_f64(sample_coordinate(128, 0)), 0.0);
    assert_eq!(as_f64(sample_coordinate(192, 0)), 0.25);
    assert_eq!(as_f64(sample_coordinate(0, 10 * Q)), -1.0);
    assert_eq!(as_f64(sample_coordinate(255, 10 * Q)), 255.0 / 128.0 - 1.0);
}

#[test]
fn more_rooms_widen_the_domain() {
    for i in [0u32, 17, 128, 200, 255] {
        let a = as_f64(sample_coordinate(i, 0)).abs();
        let b = as_f64(sample_coordinate(i, 3 * Q)).abs();
        assert!(a <= b);
        if i != 128 {
            assert!(a < b);
        }
    }
}

#[test]
fn height_field_takes_only_full_grids() {
    assert!(HeightField::from_samples(vec![0; PIXELS - 1]).is_none());
    assert!(HeightField::from_samples(Vec::new()).is_none());
    assert!(HeightField::from_samples(vec![0; PIXELS + 1]).is_none());
    let f = ramp_field();
    assert_eq!(f.get(0, 0), -65536);
    assert_eq!(f.get(3, 1), (256 + 3 - 32768) * 2);
}

#[test]
fn buffers_are_always_full_size() {
    for v in [i32::MIN, -Q, 0, Q, i32::MAX] {
        for sea in [i32::MIN, -Q, 0, Q, i32::MAX] {
            let buf = render(&constant_field(v), RenderMode::Colored { sea_level: sea });
            assert_eq!(buf.layout(), Layout::Rgb);
            assert_eq!(buf.as_bytes().len(), WIDTH * HEIGHT * 3);
        }
        let gray = render(&constant_field(v), RenderMode::Grayscale);
        assert_eq!(gray.layout(), Layout::Gray);
        assert_eq!(gray.into_bytes().len(), WIDTH * HEIGHT);
    }
}

#[test]
fn rendered_pixels_follow_their_heights() {
    let field = ramp_field();
    let sea = Q / 8;
    let buf = render(&field, RenderMode::Colored { sea_level: sea });
    let bytes = buf.as_bytes();
    for y in [0usize, 1, 100, 128, 255] {
        for x in [0usize, 7, 128, 255] {
            let i = y * WIDTH + x;
            let c = terrain_color(field.get(x, y), sea);
            assert_eq!(&bytes[3 * i..3 * i + 3], &[c.r, c.g, c.b]);
        }
    }
    let gray = render(&field, RenderMode::Grayscale);
    assert_eq!(gray.as_bytes()[0], 0);
    assert_eq!(gray.as_bytes()[PIXELS - 1], gray_level(field.get(255, 255)));
}

#[test]
fn rendering_is_deterministic() {
    let field = ramp_field();
    let mode = RenderMode::Colored { sea_level: -Q / 3 };
    assert_eq!(render(&field, mode).into_bytes(), render(&field, mode).into_bytes());
    assert_eq!(terrain_png(&field, mode).unwrap(), terrain_png(&field, mode).unwrap());
}

#[test]
fn png_decodes_to_rendered_pixels() {
    let field = ramp_field();
    let buf = render(&field, RenderMode::Colored { sea_level: 0 });
    let png = encode_png(&buf).unwrap();
    assert_eq!(&png[..8], &[0x89, b'P', b'N', b'G', 0x0d, 0x0a, 0x1a, 0x0a]);
    assert_ne!(&png, buf.as_bytes());
    let img = image::load_from_memory(&png).unwrap();
    assert_eq!((img.width(), img.height()), (256, 256));
    assert_eq!(img.color(), image::ColorType::Rgb8);
    assert_eq!(img.as_bytes(), buf.as_bytes().as_slice());

    let gray = render(&field, RenderMode::Grayscale);
    let gpng = encode_png(&gray).unwrap();
    let gimg = image::load_from_memory(&gpng).unwrap();
    assert_eq!(gimg.color(), image::ColorType::L8);
    assert_eq!(gimg.as_bytes(), gray.as_bytes().as_slice());
}

#[test]
fn default_parameters() {
    let p = TerrainParams::with_defaults(0, 42);
    assert_eq!(p.octaves, 6);
    assert_eq!(p.persistence, Q / 2);
    assert_eq!(p.lacunarity, 2 * Q);
    assert_eq!(p.sea_level, 0);
    assert_eq!(p.render_mode(), RenderMode::Colored { sea_level: 0 });
}

#[test]
fn seed_42_defaults_reproduce_the_same_png() {
    let p = TerrainParams::with_defaults(0, 42);
    let a = p.png_for(&noise_field(&p)).unwrap();
    let b = p.png_for(&noise_field(&p)).unwrap();
    assert_eq!(a, b);
    let img = image::load_from_memory(&a).unwrap();
    assert_eq!((img.width(), img.height()), (256, 256));
    let expected = render(&noise_field(&p), p.render_mode());
    assert_eq!(img.as_bytes(), expected.as_bytes().as_slice());
}

#[test]
fn sea_levels_beyond_the_nominal_range() {
    // above a sea level over 1 the normalized land height clamps to 0: sand
    assert_eq!(classify(2 * Q + 1, 2 * Q), Band::Sand);
    assert_eq!(terrain_color(3 * Q, 2 * Q), rgb(238, 214, 175));
    // below a sea level under -1 the depth clamps to 0: shallow water
    assert_eq!(terrain_color(-2 * Q, -2 * Q + Q / 2), rgb(70, 130, 180));
    assert_eq!(terrain_color(-5 * Q, -2 * Q), rgb(70, 130, 180));
    assert_eq!(classify(i32::MIN, i32::MIN), Band::Water);
    assert_eq!(classify(i32::MAX, i32::MAX - 1), Band::Sand);
}

#[test]
fn encoding_succeeds_for_every_rendered_buffer() {
    for sea in [i32::MIN, -Q, 0, Q, i32::MAX] {
        assert!(terrain_png(&ramp_field(), RenderMode::Colored { sea_level: sea }).is_ok());
    }
    assert!(terrain_png(&constant_field(0), RenderMode::Grayscale).is_ok());
}
