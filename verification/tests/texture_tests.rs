use emyrenderer::texture::Texture;
use emyrenderer::vecmath::Fx2;

fn byte_fx(b: u8) -> i64 {
    (b as i64) * 65536 / 255
}

#[test]
fn default_textures_hold_their_neutral_colors() {
    let w = Texture::white();
    assert_eq!(w.width, 1);
    assert_eq!(w.height, 1);
    assert_eq!(w.pixels, vec![255, 255, 255, 255]);
    let b = Texture::black();
    assert_eq!(b.pixels, vec![0, 0, 0, 255]);
    let n = Texture::normal_default();
    assert_eq!(n.pixels, vec![128, 128, 255, 255]);
}

#[test]
fn from_raw_accepts_only_matching_dimensions() {
    assert!(Texture::from_raw(2, 2, vec![0u8; 16]).is_some());
    assert!(Texture::from_raw(2, 2, vec![0u8; 15]).is_none());
    assert!(Texture::from_raw(0, 1, vec![]).is_none());
    assert!(Texture::from_raw(1, 0, vec![]).is_none());
}

#[test]
fn get_color_reads_row_major_texels() {
    let pixels = vec![
        10, 11, 12, 13, 20, 21, 22, 23, // first row
        30, 31, 32, 33, 40, 41, 42, 43, // second row
    ];
    let t = Texture::from_raw(2, 2, pixels).unwrap();
    let c = t.get_color(1, 0);
    assert_eq!(c.x, byte_fx(20));
    assert_eq!(c.y, byte_fx(21));
    assert_eq!(c.z, byte_fx(22));
    assert_eq!(c.w, byte_fx(23));
    let c2 = t.get_color(0, 1);
    assert_eq!(c2.x, byte_fx(30));
}

#[test]
fn white_sample_is_full_intensity() {
    let w = Texture::white();
    let c = w.get_color(0, 0);
    assert_eq!(c.x, 65536);
    assert_eq!(c.w, 65536);
}

#[test]
fn uv_wraps_by_the_fractional_part() {
    // A 4x1 texture with distinct red channels per texel.
    let pixels = vec![
        10, 0, 0, 255, 20, 0, 0, 255, 30, 0, 0, 255, 40, 0, 0, 255,
    ];
    let t = Texture::from_raw(4, 1, pixels).unwrap();
    // u = 1.25 wraps to the same sample as u = 0.25.
    let a = t.get_color_uv(Fx2::new(81920, 0));
    let b = t.get_color_uv(Fx2::new(16384, 0));
    assert_eq!(a, b);
    // 0.25 * (4 - 1) = 0.75, truncated to texel column 0.
    assert_eq!(a.x, byte_fx(10));
    // u = 0.5 lands on column 1 (0.5 * 3 = 1.5).
    let c = t.get_color_uv(Fx2::new(32768, 0));
    assert_eq!(c.x, byte_fx(20));
    // A negative fractional part clamps to column 0.
    let d = t.get_color_uv(Fx2::new(-16384, 0));
    assert_eq!(d.x, byte_fx(10));
}

#[test]
fn uv_v_axis_is_flipped() {
    let pixels = vec![
        10, 0, 0, 255, // top row
        20, 0, 0, 255, // bottom row
    ];
    let t = Texture::from_raw(1, 2, pixels).unwrap();
    // v = 0 samples 1 - 0 = 1, whose fract is 0: the top row.
    let top = t.get_color_uv(Fx2::new(0, 0));
    assert_eq!(top.x, byte_fx(10));
    // v = 0.25 samples fract(0.75) * 1 = 0.75, truncated to row 0 as well;
    // v = -0.5 samples fract(1.5) * 1 = 0.5, truncated to row 0 too.
    let also_top = t.get_color_uv(Fx2::new(0, 16384));
    assert_eq!(also_top.x, byte_fx(10));
}
