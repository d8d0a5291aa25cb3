use gremlin::color::{Color, RGB, XYZ};
use gremlin::film::{Buffer, Pixel, RGBFilm};
use gremlin::scalar::Scalar;
use gremlin::spectrum::{integrate, sellmeier, Sampled, SAMPLE_COUNT};

fn spc_scalar(v: f64) -> Scalar {
    Scalar::from_bits((v * 4294967296.0) as i64)
}

fn spc_float(s: Scalar) -> f64 {
    s.bits as f64 / 4294967296.0
}

fn spc_rgb(r: f64, g: f64, b: f64) -> RGB {
    Color::from_channels(spc_scalar(r), spc_scalar(g), spc_scalar(b))
}

fn spc_xyz(x: f64, y: f64, z: f64) -> XYZ {
    Color::from_channels(spc_scalar(x), spc_scalar(y), spc_scalar(z))
}

#[test]
fn color_mult() {
    let rgb = spc_rgb(0.5, 0.5, 0.5);
    assert_eq!(spc_rgb(1.0, 1.0, 1.0), rgb.mul(spc_scalar(2.0)));

    let xyz = spc_xyz(0.25, 0.25, 0.25);
    assert_eq!(spc_xyz(1.0, 1.0, 1.0), xyz.mul(spc_scalar(4.0)));
}

#[test]
fn color_div() {
    let rgb = spc_rgb(1.0, 1.0, 1.0);
    assert_eq!(spc_rgb(0.5, 0.5, 0.5), rgb.div(spc_scalar(2.0)));

    let xyz = spc_xyz(1.0, 1.0, 1.0);
    assert_eq!(spc_xyz(0.25, 0.25, 0.25), xyz.div(spc_scalar(4.0)));
}

#[test]
fn type_system() {
    let xyz1 = spc_xyz(0.25, 0.5, 0.75);
    let xyz2 = spc_xyz(0.25, 0.5, 0.75);
    let rgb1 = spc_rgb(0.25, 0.5, 0.75);
    let rgb2 = spc_rgb(0.25, 0.5, 0.75);

    let _ = xyz1.add(xyz2);
    let _ = rgb1.add(rgb2);
    // An XYZ value cannot be added to an RGB value: the color spaces are
    // distinct types, and such an expression does not compile.
}

#[test]
fn pixel_aggregation() {
    let mut pix: Pixel<gremlin::color::LinearRGB> = Pixel::empty();
    pix.add_sample(spc_rgb(1.0, 1.0, 1.0));
    assert_eq!(pix.to_color(), spc_rgb(1.0, 1.0, 1.0));

    pix.add_sample(spc_rgb(0.0, 0.0, 0.0));
    assert_eq!(pix.to_color(), spc_rgb(0.5, 0.5, 0.5));
}

#[test]
fn add_sample_conv() {
    let mut pix: Pixel<gremlin::color::CIE1931> = Pixel::empty();

    // A uniform sample value converts into a tristimulus color by
    // splatting it across the channels.
    let uniform = |v: f64| spc_xyz(v, v, v);

    pix.add_sample(uniform(1.0));
    pix.add_sample(uniform(0.0));
    assert_eq!(spc_xyz(0.5, 0.5, 0.5), pix.to_color());
}

#[test]
fn unsampled_pixel_reports_identity() {
    let pix: Pixel<gremlin::color::LinearRGB> = Pixel::empty();
    assert_eq!(pix.to_color(), spc_rgb(0.0, 0.0, 0.0));
}

#[test]
fn get_pixel() {
    let mut buf: Buffer<i64> = Buffer::new_filled(10, 5, 0);
    assert_eq!(0, *buf.get_pixel(0, 1));

    *buf.get_pixel_mut(0, 1) = 10;
    assert_eq!(10, *buf.get_pixel(0, 1));
}

#[test]
fn film_snapshot_averages() {
    let mut film: RGBFilm = Buffer::new(2, 2);
    film.add_sample_at(1, 0, spc_rgb(1.0, 1.0, 1.0));
    film.add_sample_at(1, 0, spc_rgb(0.0, 0.0, 0.0));
    let snap = film.to_snapshot();
    assert_eq!(*snap.get_pixel(1, 0), spc_rgb(0.5, 0.5, 0.5));
    assert_eq!(*snap.get_pixel(0, 0), spc_rgb(0.0, 0.0, 0.0));
}

#[test]
fn splat_integrates_to_range_width() {
    let s = Sampled::splat(spc_scalar(1.0));
    let total = integrate(&s, &s);
    // Every bucket contributes 1 * 1 * 5nm over the 400nm visible range.
    assert_eq!(spc_scalar(400.0), total);
}

#[test]
fn spectrum_wavelengths_are_uniform() {
    assert_eq!(spc_scalar(380.0), Sampled::wavelength(0));
    assert_eq!(spc_scalar(385.0), Sampled::wavelength(1));
    assert_eq!(spc_scalar(775.0), Sampled::wavelength(SAMPLE_COUNT - 1));
}

#[test]
fn uniform_spectrum_projects_near_equal_energy() {
    let s = Sampled::splat(spc_scalar(1.0));
    let xyz = XYZ::from_sampled(&s);
    let v = xyz.to_vector();
    // The normalization makes a uniform unit spectrum project to roughly
    // equal tristimulus values around one fifth.
    assert!((spc_float(v.x) - 0.2).abs() < 1e-3);
    assert!((spc_float(v.y) - 0.2).abs() < 1e-3);
    assert!((spc_float(v.z) - 0.2).abs() < 1e-3);
}

#[test]
fn rgb_from_xyz_white_point() {
    let white = spc_xyz(1.0, 1.0, 1.0);
    let rgb = RGB::from_xyz(white).to_vector();
    // The fixed transform rows sum to about (1.205, 0.948, 0.909).
    assert!((spc_float(rgb.x) - 1.2048).abs() < 1e-3);
    assert!((spc_float(rgb.y) - 0.9478).abs() < 1e-3);
    assert!((spc_float(rgb.z) - 0.9088).abs() < 1e-3);
}

#[test]
fn gamut_leaves_in_range_color_unchanged() {
    let c = spc_rgb(0.2, 0.5, 0.8);
    assert_eq!(c, c.map_gamut());
}

#[test]
fn gamut_desaturates_negative_channel() {
    let c = spc_rgb(-0.25, 0.25, 0.75);
    let m = c.map_gamut().to_vector();
    assert_eq!(spc_scalar(0.0), m.x);
    assert_eq!(spc_scalar(0.5), m.y);
    assert_eq!(spc_scalar(1.0), m.z);
}

#[test]
fn gamut_rescales_overbright_color() {
    let c = spc_rgb(0.5, 1.0, 2.0);
    let m = c.map_gamut().to_vector();
    assert_eq!(spc_scalar(0.25), m.x);
    assert_eq!(spc_scalar(0.5), m.y);
    assert_eq!(spc_scalar(1.0), m.z);
}

#[test]
fn srgb_encodes_middle_gray() {
    let c = spc_rgb(0.5, 0.5, 0.5);
    let bytes = c.to_srgb();
    assert_eq!([187, 187, 187], bytes);
}

#[test]
fn srgb_linear_segment_and_clamping() {
    let black = spc_rgb(0.0, 0.0, 0.0);
    assert_eq!([0, 0, 0], black.to_srgb());

    let overbright = spc_rgb(4.0, 4.0, 4.0);
    assert_eq!([255, 255, 255], overbright.to_srgb());
}

#[test]
fn sellmeier_bk7_refractive_index() {
    let bs = [
        Scalar::from_ratio(103961212, 100000000),
        Scalar::from_ratio(231792344, 1000000000),
        Scalar::from_ratio(101046945, 100000000),
    ];
    let cs = [
        Scalar::from_ratio(600069867, 100000000000),
        Scalar::from_ratio(200179144, 10000000000),
        Scalar::from_ratio(103560653, 1000000),
    ];
    let n_squared = sellmeier(&bs, &cs, spc_scalar(580.0)).unwrap();
    let n = spc_float(n_squared).sqrt();
    assert!((n - 1.5171).abs() < 1e-3, "got {}", n);
}
