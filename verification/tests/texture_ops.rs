use rockwork::device::{Call, DeviceCall, TextureParameter, TextureStorage};
use rockwork::texture::{
    FilteringMode, RgbaImage, Texture, TextureFormat, WrapMode, TEXTURE_UNIT_BASE,
};

fn configure_calls(id: u32) -> Vec<DeviceCall> {
    vec![
        Call::BindTexture { texture: id },
        Call::TexParameter { parameter: TextureParameter::MinFilter, setting: gl::NEAREST },
        Call::TexParameter { parameter: TextureParameter::MagFilter, setting: gl::NEAREST },
        Call::BindTexture { texture: id },
        Call::TexParameter { parameter: TextureParameter::WrapS, setting: gl::REPEAT },
        Call::TexParameter { parameter: TextureParameter::WrapT, setting: gl::REPEAT },
    ]
}

fn create_calls(
    id: u32,
    storage: TextureStorage,
    width: usize,
    height: usize,
    pixels: Option<Vec<u8>>,
) -> Vec<DeviceCall> {
    let mut calls = configure_calls(id);
    calls.push(Call::BindTexture { texture: id });
    calls.push(Call::TexImage2D { storage, width, height, pixels });
    calls
}

#[test]
fn filtering_modes_have_the_device_values() {
    assert_eq!(FilteringMode::Linear.gl_enum(), gl::LINEAR);
    assert_eq!(FilteringMode::Nearest.gl_enum(), gl::NEAREST);
    assert_eq!(FilteringMode::Linear.gl_enum(), 0x2601);
    assert_eq!(FilteringMode::Nearest.gl_enum(), 0x2600);
}

#[test]
fn wrap_modes_have_the_device_values() {
    assert_eq!(WrapMode::Clamp.gl_enum(), gl::CLAMP_TO_EDGE);
    assert_eq!(WrapMode::Mirrored.gl_enum(), gl::MIRRORED_REPEAT);
    assert_eq!(WrapMode::Repeat.gl_enum(), gl::REPEAT);
    assert_eq!(WrapMode::Clamp.gl_enum(), 0x812F);
    assert_eq!(WrapMode::Mirrored.gl_enum(), 0x8370);
    assert_eq!(WrapMode::Repeat.gl_enum(), 0x2901);
}

#[test]
fn formats_choose_their_storage() {
    assert_eq!(TextureFormat::Rgba.storage(), TextureStorage::Rgba8);
    assert_eq!(TextureFormat::Depth.storage(), TextureStorage::Depth32);
    assert_eq!(TextureFormat::DepthStencil.storage(), TextureStorage::Depth24Stencil8);
}

#[test]
fn new_rgba_defaults_to_nearest_and_repeat() {
    let (texture, calls) = Texture::new_rgba(7, 320, 240);
    assert_eq!(
        texture,
        Texture {
            id: 7,
            width: 320,
            height: 240,
            filtering_mode: FilteringMode::Nearest,
            wrap_mode: WrapMode::Repeat,
            format: TextureFormat::Rgba,
        }
    );
    assert_eq!(calls, create_calls(7, TextureStorage::Rgba8, 320, 240, None));
}

#[test]
fn new_depth_allocates_depth_storage() {
    let (texture, calls) = Texture::new_depth(8, 64, 32);
    assert_eq!(texture.format, TextureFormat::Depth);
    assert_eq!(texture.filtering_mode, FilteringMode::Nearest);
    assert_eq!(texture.wrap_mode, WrapMode::Repeat);
    assert_eq!((texture.id, texture.width, texture.height), (8, 64, 32));
    assert_eq!(calls, create_calls(8, TextureStorage::Depth32, 64, 32, None));
}

#[test]
fn new_depth_stencil_allocates_combined_storage() {
    let (texture, calls) = Texture::new_depth_stencil(9, 1, 0);
    assert_eq!(texture.format, TextureFormat::DepthStencil);
    assert_eq!((texture.id, texture.width, texture.height), (9, 1, 0));
    assert_eq!(calls, create_calls(9, TextureStorage::Depth24Stencil8, 1, 0, None));
}

#[test]
fn image_needs_four_bytes_per_pixel() {
    assert!(RgbaImage::new(2, 3, vec![0; 24]).is_some());
    assert!(RgbaImage::new(2, 3, vec![0; 23]).is_none());
    assert!(RgbaImage::new(2, 3, vec![0; 25]).is_none());
    assert!(RgbaImage::new(2, 3, vec![0; 28]).is_none());
    assert!(RgbaImage::new(0, 3, vec![]).is_some());
    assert!(RgbaImage::new(0, 0, vec![1, 2, 3, 4]).is_none());
    assert!(RgbaImage::new(u32::MAX, u32::MAX, vec![0; 4]).is_none());
    let image = RgbaImage::new(1, 2, vec![1, 2, 3, 4, 5, 6, 7, 8]).unwrap();
    assert_eq!(image.width(), 1);
    assert_eq!(image.height(), 2);
    assert_eq!(image.data(), &[1, 2, 3, 4, 5, 6, 7, 8]);
}

#[test]
fn flipping_reverses_the_rows() {
    let data: Vec<u8> = (0..24).collect();
    let image = RgbaImage::new(2, 3, data.clone()).unwrap();
    let flipped = image.flipped();
    let expected: Vec<u8> = (16..24).chain(8..16).chain(0..8).collect();
    assert_eq!(flipped, expected);
    assert_ne!(flipped, data);
    let again = RgbaImage::new(2, 3, flipped).unwrap().flipped();
    assert_eq!(again, data);
}

#[test]
fn flipping_agrees_with_the_image_crate() {
    let data: Vec<u8> = (0..5 * 7 * 4).map(|i| (i * 37 % 251) as u8).collect();
    let ours = RgbaImage::new(5, 7, data.clone()).unwrap().flipped();
    let buffer = image::RgbaImage::from_raw(5, 7, data).unwrap();
    let mut theirs = image::RgbaImage::new(5, 7);
    for y in 0..7 {
        for x in 0..5 {
            theirs.put_pixel(x, 6 - y, *buffer.get_pixel(x, y));
        }
    }
    assert_eq!(ours, theirs.into_raw());
}

#[test]
fn flipping_one_row_or_nothing_changes_nothing() {
    let row = vec![9, 8, 7, 6, 5, 4, 3, 2];
    assert_eq!(RgbaImage::new(2, 1, row.clone()).unwrap().flipped(), row);
    assert_eq!(RgbaImage::new(0, 0, vec![]).unwrap().flipped(), Vec::<u8>::new());
    assert_eq!(RgbaImage::new(3, 0, vec![]).unwrap().flipped(), Vec::<u8>::new());
}

#[test]
fn texture_from_image_uploads_flipped_pixels() {
    let data: Vec<u8> = (100..116).collect();
    let image = RgbaImage::new(2, 2, data).unwrap();
    let (texture, calls) = Texture::new_rgba_from_image(5, &image);
    assert_eq!(
        texture,
        Texture {
            id: 5,
            width: 2,
            height: 2,
            filtering_mode: FilteringMode::Nearest,
            wrap_mode: WrapMode::Repeat,
            format: TextureFormat::Rgba,
        }
    );
    let flipped: Vec<u8> = (108..116).chain(100..108).collect();
    assert_eq!(calls, create_calls(5, TextureStorage::Rgba8, 2, 2, Some(flipped)));
}

#[test]
fn set_filtering_mode_updates_device_and_cache() {
    let (mut texture, _) = Texture::new_rgba(7, 4, 4);
    let calls = texture.set_filtering_mode(FilteringMode::Linear);
    let expected: Vec<DeviceCall> = vec![
        Call::BindTexture { texture: 7 },
        Call::TexParameter { parameter: TextureParameter::MinFilter, setting: gl::LINEAR },
        Call::TexParameter { parameter: TextureParameter::MagFilter, setting: gl::LINEAR },
    ];
    assert_eq!(calls, expected);
    assert_eq!(texture.filtering_mode, FilteringMode::Linear);
    assert_eq!(texture.wrap_mode, WrapMode::Repeat);
    assert_eq!((texture.id, texture.width, texture.height), (7, 4, 4));
}

#[test]
fn set_wrap_mode_updates_device_and_cache() {
    let (mut texture, _) = Texture::new_depth(7, 4, 4);
    let calls = texture.set_wrap_mode(WrapMode::Mirrored);
    let expected: Vec<DeviceCall> = vec![
        Call::BindTexture { texture: 7 },
        Call::TexParameter { parameter: TextureParameter::WrapS, setting: gl::MIRRORED_REPEAT },
        Call::TexParameter { parameter: TextureParameter::WrapT, setting: gl::MIRRORED_REPEAT },
    ];
    assert_eq!(calls, expected);
    assert_eq!(texture.wrap_mode, WrapMode::Mirrored);
    assert_eq!(texture.filtering_mode, FilteringMode::Nearest);
    assert_eq!(texture.format, TextureFormat::Depth);
}

#[test]
fn set_filtering_mode_twice_is_as_once() {
    let (mut once, _) = Texture::new_rgba(7, 4, 4);
    let (mut twice, _) = Texture::new_rgba(7, 4, 4);
    let first = once.set_filtering_mode(FilteringMode::Linear);
    twice.set_filtering_mode(FilteringMode::Linear);
    let second = twice.set_filtering_mode(FilteringMode::Linear);
    assert_eq!(once, twice);
    assert_eq!(first, second);
}

#[test]
fn filtering_and_wrap_do_not_depend_on_order() {
    let (mut a, _) = Texture::new_rgba(7, 4, 4);
    let (mut b, _) = Texture::new_rgba(7, 4, 4);
    let fa = a.set_filtering_mode(FilteringMode::Linear);
    let wa = a.set_wrap_mode(WrapMode::Clamp);
    let wb = b.set_wrap_mode(WrapMode::Clamp);
    let fb = b.set_filtering_mode(FilteringMode::Linear);
    assert_eq!(a, b);
    assert_eq!(fa, fb);
    assert_eq!(wa, wb);
}

#[test]
fn bind_selects_the_unit_then_binds() {
    let (texture, _) = Texture::new_rgba(7, 4, 4);
    assert_eq!(TEXTURE_UNIT_BASE, gl::TEXTURE0);
    let expected: Vec<DeviceCall> =
        vec![Call::ActiveTexture { unit: gl::TEXTURE0 + 3 }, Call::BindTexture { texture: 7 }];
    assert_eq!(texture.bind(3), expected);
    let first: Vec<DeviceCall> =
        vec![Call::ActiveTexture { unit: 0x84C0 }, Call::BindTexture { texture: 7 }];
    assert_eq!(texture.bind(0), first);
    let last = (u32::MAX - gl::TEXTURE0) as usize;
    assert_eq!(texture.bind(last)[0], Call::ActiveTexture { unit: u32::MAX });
}

#[test]
fn release_deletes_the_image() {
    let (texture, _) = Texture::new_rgba(7, 4, 4);
    let expected: Vec<DeviceCall> = vec![Call::DeleteTexture { texture: 7 }];
    assert_eq!(texture.release(), expected);
}

#[test]
fn flipping_an_image_without_pixels_gives_nothing() {
    for (width, height) in [(0x4000_0000u32, 0u32), (u32::MAX, 0), (0, u32::MAX), (0, 0), (1, 0)] {
        let image = RgbaImage::new(width, height, Vec::new()).unwrap();
        assert_eq!(image.flipped(), Vec::<u8>::new());
    }
}

#[test]
fn texture_from_an_image_without_rows_uploads_no_pixels() {
    let image = RgbaImage::new(0x4000_0000, 0, Vec::new()).unwrap();
    let (texture, calls) = Texture::new_rgba_from_image(5, &image);
    assert_eq!((texture.width, texture.height), (0x4000_0000, 0));
    assert_eq!(calls, create_calls(5, TextureStorage::Rgba8, 0x4000_0000, 0, Some(Vec::new())));
}
