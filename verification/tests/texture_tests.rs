use mimiq::texture::{
    flip_rows, gl_filter, gl_texture_format, gl_wrap, texture_format_of_color, texture_upload,
    FilterMode, ImageColorType,
    Texture2DFormat, TextureWrap,
};

#[test]
fn data_size_per_format() {
    assert_eq!(Texture2DFormat::RGB8.data_size(4, 2), 24);
    assert_eq!(Texture2DFormat::RGBA8.data_size(4, 2), 32);
    assert_eq!(Texture2DFormat::DepthU16.data_size(4, 2), 16);
    assert_eq!(Texture2DFormat::DepthF32.data_size(4, 2), 32);
    assert_eq!(Texture2DFormat::RGBA8.data_size(0, 100), 0);
}

#[test]
fn wrap_and_filter_values_match_glow() {
    assert_eq!(gl_wrap(TextureWrap::Repeat), glow::REPEAT);
    assert_eq!(gl_wrap(TextureWrap::Mirror), glow::MIRRORED_REPEAT);
    assert_eq!(gl_wrap(TextureWrap::Clamp), glow::CLAMP_TO_EDGE);
    assert_eq!(gl_filter(FilterMode::Nearest), glow::NEAREST);
    assert_eq!(gl_filter(FilterMode::Linear), glow::LINEAR);
}

#[test]
fn texture_format_triples_match_glow() {
    assert_eq!(gl_texture_format(Texture2DFormat::RGB8), (glow::RGB, glow::RGB, glow::UNSIGNED_BYTE));
    assert_eq!(gl_texture_format(Texture2DFormat::RGBA8), (glow::RGBA, glow::RGBA, glow::UNSIGNED_BYTE));
    assert_eq!(
        gl_texture_format(Texture2DFormat::DepthU16),
        (glow::DEPTH_COMPONENT16, glow::DEPTH_COMPONENT, glow::UNSIGNED_SHORT)
    );
    assert_eq!(
        gl_texture_format(Texture2DFormat::DepthF32),
        (glow::DEPTH_COMPONENT32F, glow::DEPTH_COMPONENT, glow::FLOAT)
    );
}

#[test]
fn image_color_types_select_formats() {
    assert_eq!(texture_format_of_color(ImageColorType::Rgb8), Ok(Texture2DFormat::RGB8));
    assert_eq!(texture_format_of_color(ImageColorType::Rgba8), Ok(Texture2DFormat::RGBA8));
    assert_eq!(texture_format_of_color(ImageColorType::L16), Ok(Texture2DFormat::DepthU16));
    assert_eq!(texture_format_of_color(ImageColorType::La8), Err(ImageColorType::La8));
    assert_eq!(texture_format_of_color(ImageColorType::Rgba32F), Err(ImageColorType::Rgba32F));
}

#[test]
fn data_size_fits_exactly_up_to_u32_max() {
    assert!(Texture2DFormat::RGBA8.data_size_fits(0x8000, 0x7fff));
    assert!(!Texture2DFormat::RGBA8.data_size_fits(0x8000, 0x8000));
    assert!(Texture2DFormat::RGB8.data_size_fits(0x5555_5555, 1));
    assert!(!Texture2DFormat::RGB8.data_size_fits(0x5555_5556, 1));
    assert!(Texture2DFormat::DepthU16.data_size_fits(0x7fff_ffff, 1));
    assert!(!Texture2DFormat::DepthU16.data_size_fits(0x8000_0000, 1));
    assert!(!Texture2DFormat::DepthF32.data_size_fits(u32::MAX, u32::MAX));
    assert!(Texture2DFormat::DepthF32.data_size_fits(u32::MAX, 0));
    assert_eq!(Texture2DFormat::RGB8.data_size(0x5555_5555, 1), 0xffff_ffff);
}

#[test]
fn rows_are_flipped() {
    let bytes = [1u8, 2, 3, 4, 5, 6, 7];
    assert_eq!(flip_rows(&bytes, 2, 3), vec![5, 6, 3, 4, 1, 2]);
    assert_eq!(flip_rows(&bytes, 3, 1), vec![1, 2, 3]);
    assert_eq!(flip_rows(&bytes, 0, 3), Vec::<u8>::new());
    assert_eq!(flip_rows(&bytes, 4, 0), Vec::<u8>::new());
}

#[test]
fn uploads_are_upside_down_in_their_format() {
    // 2x2 RGB8: rows of 6 bytes.
    let rgb: Vec<u8> = (0..12).collect();
    assert_eq!(
        texture_upload(ImageColorType::Rgb8, 2, 2, &rgb),
        Ok((Texture2DFormat::RGB8, vec![6, 7, 8, 9, 10, 11, 0, 1, 2, 3, 4, 5]))
    );
    // 1x3 L16: rows of 2 bytes.
    let l16 = [1u8, 2, 3, 4, 5, 6];
    assert_eq!(
        texture_upload(ImageColorType::L16, 1, 3, &l16),
        Ok((Texture2DFormat::DepthU16, vec![5, 6, 3, 4, 1, 2]))
    );
    let rgba = [9u8; 8];
    assert_eq!(texture_upload(ImageColorType::Rgba8, 2, 1, &rgba), Ok((Texture2DFormat::RGBA8, vec![9; 8])));
    assert_eq!(texture_upload(ImageColorType::La8, 1, 1, &[0, 0]), Err(ImageColorType::La8));
}
