use render_session::texture::{
    decode_texture, sampling, texture_from_decoded, DecodedImage, Filter, PixelFormat,
    TextureError, Wrap,
};

fn two_pixel_ppm() -> Vec<u8> {
    let mut b = b"P6\n2 1\n255\n".to_vec();
    b.extend_from_slice(&[10, 20, 30, 40, 50, 60]);
    b
}

#[test]
fn decodes_rgb_pixels() {
    let t = decode_texture(&two_pixel_ppm(), PixelFormat::Rgb).unwrap();
    assert_eq!(t.width, 2);
    assert_eq!(t.height, 1);
    assert_eq!(t.format, PixelFormat::Rgb);
    assert_eq!(t.data, vec![10, 20, 30, 40, 50, 60]);
}

#[test]
fn forced_rgba_adds_opaque_alpha() {
    let t = decode_texture(&two_pixel_ppm(), PixelFormat::Rgba).unwrap();
    assert_eq!(t.data, vec![10, 20, 30, 255, 40, 50, 60, 255]);
}

#[test]
fn undecodable_bytes_fail() {
    assert!(matches!(
        decode_texture(b"not an image", PixelFormat::Rgb),
        Err(TextureError::DecodeFailed)
    ));
    assert!(matches!(decode_texture(&[], PixelFormat::Rgba), Err(TextureError::DecodeFailed)));
}

#[test]
fn decode_outcomes_are_checked() {
    assert!(matches!(texture_from_decoded(None, PixelFormat::Rgb), Err(TextureError::DecodeFailed)));
    let short = DecodedImage { width: 2, height: 2, data: vec![0; 11] };
    assert!(matches!(
        texture_from_decoded(Some(short), PixelFormat::Rgb),
        Err(TextureError::SizeMismatch)
    ));
    let wide = DecodedImage { width: 1 << 31, height: 1, data: vec![] };
    assert!(matches!(
        texture_from_decoded(Some(wide), PixelFormat::Rgb),
        Err(TextureError::TooLarge)
    ));
    let ok = DecodedImage { width: 2, height: 2, data: vec![7; 16] };
    let t = texture_from_decoded(Some(ok), PixelFormat::Rgba).unwrap();
    assert_eq!((t.width, t.height, t.data.len()), (2, 2, 16));
}

#[test]
fn textures_clamp_and_filter_linearly() {
    let s = sampling();
    assert_eq!(s.wrap_s, Wrap::ClampToEdge);
    assert_eq!(s.wrap_t, Wrap::ClampToEdge);
    assert_eq!(s.min_filter, Filter::Linear);
    assert_eq!(s.mag_filter, Filter::Linear);
    assert_eq!(PixelFormat::Rgb.depth(), 3);
    assert_eq!(PixelFormat::Rgba.depth(), 4);
}
