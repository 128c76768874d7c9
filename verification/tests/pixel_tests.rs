use sdl_surface::error::SdlError;
use sdl_surface::flags::SurfaceFlags;
use sdl_surface::pixels::{Color, PixelFormat};

#[test]
fn from_masks_finds_channel_positions() {
    let f = PixelFormat::from_masks(32, 0xFF00_0000, 0x00FF_0000, 0x0000_FF00, 0x0000_00FF)
        .unwrap();
    assert_eq!((f.r.shift, f.r.bits), (24, 8));
    assert_eq!((f.g.shift, f.g.bits), (16, 8));
    assert_eq!((f.b.shift, f.b.bits), (8, 8));
    assert_eq!((f.a.shift, f.a.bits), (0, 8));
    let f565 = PixelFormat::from_masks(16, 0xF800, 0x07E0, 0x001F, 0).unwrap();
    assert_eq!((f565.r.shift, f565.r.bits), (11, 5));
    assert_eq!((f565.g.shift, f565.g.bits), (5, 6));
    assert_eq!((f565.b.shift, f565.b.bits), (0, 5));
    assert_eq!(f565.a.bits, 0);
}

#[test]
fn from_masks_rejects_unsupported_formats() {
    assert!(matches!(
        PixelFormat::from_masks(32, 0b101, 0, 0, 0),
        Err(SdlError::UnknownPixelFormat)
    ));
    assert!(matches!(
        PixelFormat::from_masks(12, 0xF00, 0x0F0, 0x00F, 0),
        Err(SdlError::UnknownPixelFormat)
    ));
    assert!(matches!(
        PixelFormat::from_masks(16, 0x00FF_0000, 0, 0, 0),
        Err(SdlError::UnknownPixelFormat)
    ));
    // a channel wider than 8 bits is outside the supported packed formats
    assert!(matches!(
        PixelFormat::from_masks(32, 0x3FF0_0000, 0, 0, 0),
        Err(SdlError::UnknownPixelFormat)
    ));
}

#[test]
fn color_encodes_to_exact_pixel_word() {
    let f = PixelFormat::from_masks(32, 0xFF00_0000, 0x00FF_0000, 0x0000_FF00, 0x0000_00FF)
        .unwrap();
    assert_eq!(Color::RGBA(0x12, 0x34, 0x56, 0x78).to_u32(&f), 0x1234_5678);
    assert_eq!(Color::RGB(0x12, 0x34, 0x56).to_u32(&f), 0x1234_56FF);
    let f565 = PixelFormat::from_masks(16, 0xF800, 0x07E0, 0x001F, 0).unwrap();
    assert_eq!(Color::RGB(0xFF, 0xFF, 0xFF).to_u32(&f565), 0xFFFF);
    assert_eq!(Color::RGB(0x08, 0x04, 0x08).to_u32(&f565), 0x0821);
}

#[test]
fn color_decodes_from_exact_pixel_word() {
    let f = PixelFormat::from_masks(32, 0xFF00_0000, 0x00FF_0000, 0x0000_FF00, 0x0000_00FF)
        .unwrap();
    assert_eq!(Color::from_u32(&f, 0xAABB_CCDD), Color::RGBA(0xAA, 0xBB, 0xCC, 0xDD));
    let f565 = PixelFormat::from_masks(16, 0xF800, 0x07E0, 0x001F, 0).unwrap();
    assert_eq!(Color::from_u32(&f565, 0xFFFF), Color::RGB(0xF8, 0xFC, 0xF8));
}

#[test]
fn flag_sets_combine() {
    assert_eq!(SurfaceFlags::empty().bits(), 0);
    assert_eq!(SurfaceFlags::prealloc().bits(), 0x1);
    assert_eq!(SurfaceFlags::rle_accel().bits(), 0x2);
    assert_eq!(SurfaceFlags::dont_free().bits(), 0x4);
    let both = SurfaceFlags::prealloc().union(SurfaceFlags::rle_accel());
    assert_eq!(both.bits(), 0x3);
    assert!(both.contains(SurfaceFlags::prealloc()));
    assert!(both.contains(SurfaceFlags::empty()));
    assert!(!both.contains(SurfaceFlags::dont_free()));
}

#[test]
fn error_messages_are_descriptive() {
    assert_eq!(
        SdlError::NoColorKey.message(),
        "surface doesn't have a color key"
    );
    assert_eq!(SdlError::UnknownPixelFormat.message(), "unknown pixel format");
    assert_eq!(
        SdlError::InvalidDimensions.message(),
        "width and height must be in the supported range"
    );
    assert_eq!(
        SdlError::InvalidBmp.message(),
        "image data does not describe a valid surface"
    );
    assert_eq!(
        SdlError::BufferSizeMismatch.message(),
        "pixel buffer does not match the surface geometry"
    );
}
