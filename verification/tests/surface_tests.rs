use sdl_surface::error::SdlError;
use sdl_surface::flags::SurfaceFlags;
use sdl_surface::pixels::{Color, Palette, PixelFormat};
use sdl_surface::rect::Rect;
use sdl_surface::surface::{ReleaseAction, Surface};

fn rgba32() -> Surface {
    Surface::new(
        SurfaceFlags::empty(),
        64,
        32,
        32,
        0xFF00_0000,
        0x00FF_0000,
        0x0000_FF00,
        0x0000_00FF,
    )
    .unwrap()
}

#[test]
fn create_reports_requested_size() {
    let s = rgba32();
    assert_eq!(s.get_width(), 64);
    assert_eq!(s.get_height(), 32);
    assert_eq!(s.get_size(), (64, 32));
}

#[test]
fn bounding_rect_matches_size() {
    let s = rgba32();
    assert_eq!(s.get_rect(), Rect { x: 0, y: 0, w: 64, h: 32 });
    let s2 = Surface::new(
        SurfaceFlags::empty(),
        0,
        0,
        32,
        0xFF00_0000,
        0x00FF_0000,
        0x0000_FF00,
        0x0000_00FF,
    )
    .unwrap();
    assert_eq!(s2.get_size(), (0, 0));
    assert_eq!(s2.get_rect(), Rect { x: 0, y: 0, w: 0, h: 0 });
}

#[test]
fn create_rejects_bad_dimensions() {
    let e = Surface::new(
        SurfaceFlags::empty(),
        -1,
        32,
        32,
        0xFF00_0000,
        0x00FF_0000,
        0x0000_FF00,
        0x0000_00FF,
    );
    assert!(matches!(e, Err(SdlError::InvalidDimensions)));
    let e = Surface::new(
        SurfaceFlags::empty(),
        4,
        0x1_0000,
        32,
        0xFF00_0000,
        0x00FF_0000,
        0x0000_FF00,
        0x0000_00FF,
    );
    assert!(matches!(e, Err(SdlError::InvalidDimensions)));
}

#[test]
fn create_rejects_bad_formats() {
    let e = Surface::new(SurfaceFlags::empty(), 4, 4, 12, 0xF00, 0x0F0, 0x00F, 0);
    assert!(matches!(e, Err(SdlError::UnknownPixelFormat)));
    let e = Surface::new(SurfaceFlags::empty(), 4, 4, 32, 0b101, 0, 0, 0);
    assert!(matches!(e, Err(SdlError::UnknownPixelFormat)));
    let e = Surface::new(SurfaceFlags::empty(), 4, 4, 16, 0x00FF_0000, 0, 0, 0);
    assert!(matches!(e, Err(SdlError::UnknownPixelFormat)));
}

#[test]
fn get_pixel_format_reports_channels() {
    let s = rgba32();
    let f = s.get_pixel_format();
    assert_eq!(f.bpp, 32);
    assert_eq!((f.r.shift, f.r.bits), (24, 8));
    assert_eq!((f.g.shift, f.g.bits), (16, 8));
    assert_eq!((f.b.shift, f.b.bits), (8, 8));
    assert_eq!((f.a.shift, f.a.bits), (0, 8));
}

#[test]
fn bmp_round_trip() {
    let mut s = rgba32();
    s.with_lock(|mut v: Vec<u8>| {
        v[0] = 0xAB;
        v[5] = 0xCD;
        let last = v.len() - 1;
        v[last] = 0xEF;
        (v, ())
    });
    let img = s.save_bmp();
    assert_eq!(img.width, 64);
    assert_eq!(img.height, 32);
    assert_eq!(img.pitch, 64 * 4);
    let mut t = Surface::from_bmp(&img).unwrap();
    assert_eq!(t.get_size(), s.get_size());
    let (a, b, c) = t.with_lock(|v: Vec<u8>| {
        let picked = (v[0], v[5], v[v.len() - 1]);
        (v, picked)
    });
    assert_eq!((a, b, c), (0xAB, 0xCD, 0xEF));
}

#[test]
fn from_bmp_rejects_inconsistent_images() {
    let s = rgba32();
    let mut img = s.save_bmp();
    img.pitch += 4;
    assert!(matches!(Surface::from_bmp(&img), Err(SdlError::InvalidBmp)));
    let mut img2 = s.save_bmp();
    img2.pixels.pop();
    assert!(matches!(Surface::from_bmp(&img2), Err(SdlError::InvalidBmp)));
}

#[test]
fn with_lock_releases_exactly_once() {
    let mut s = rgba32();
    let r = s.with_lock(|v: Vec<u8>| (v, 1u32));
    assert_eq!(r, 1);
    assert!(!s.is_locked());
    assert!(s.lock());
    assert!(s.is_locked());
    s.unlock();
    assert!(!s.is_locked());
}

#[test]
fn with_lock_releases_on_propagated_failure() {
    let mut s = rgba32();
    let r: Result<u32, String> = s.with_lock(|v: Vec<u8>| (v, Err("boom".to_string())));
    assert!(r.is_err());
    assert!(!s.is_locked());
    assert!(s.lock());
    s.unlock();
}

#[test]
fn with_lock_sees_full_buffer() {
    let mut s = rgba32();
    let len = s.with_lock(|v: Vec<u8>| {
        let n = v.len();
        (v, n)
    });
    assert_eq!(len, 64 * 4 * 32);
}

#[test]
fn non_owning_wrapper_keeps_handle() {
    let fmt =
        PixelFormat::from_masks(32, 0xFF00_0000, 0x00FF_0000, 0x0000_FF00, 0x0000_00FF).unwrap();
    let pixels = vec![0u8; 64 * 4 * 32];
    let s = Surface::from_existing(64, 32, fmt, pixels, false).unwrap();
    assert!(!s.is_owned());
    assert_eq!(s.destroy(), ReleaseAction::Keep);
}

#[test]
fn owned_wrapper_frees_handle() {
    let s = rgba32();
    assert!(s.is_owned());
    assert_eq!(s.destroy(), ReleaseAction::Free);
}

#[test]
fn from_existing_checks_buffer_size() {
    let fmt = PixelFormat::from_masks(16, 0xF800, 0x07E0, 0x001F, 0).unwrap();
    // width 3 at 2 bytes per pixel: 6 bytes per row, padded to 8.
    let ok = Surface::from_existing(3, 1, fmt, vec![0u8; 8], true);
    assert!(ok.is_ok());
    let bad = Surface::from_existing(3, 1, fmt, vec![0u8; 6], true);
    assert!(matches!(bad, Err(SdlError::BufferSizeMismatch)));
}

#[test]
fn color_key_round_trip() {
    let mut s = rgba32();
    assert!(matches!(s.get_color_key(), Err(SdlError::NoColorKey)));
    s.set_color_key(true, Color::RGBA(10, 20, 30, 40)).unwrap();
    assert_eq!(s.get_color_key().unwrap(), Color::RGBA(10, 20, 30, 40));
    s.set_color_key(true, Color::RGB(1, 2, 3)).unwrap();
    assert_eq!(s.get_color_key().unwrap(), Color::RGBA(1, 2, 3, 255));
    s.set_color_key(false, Color::RGB(0, 0, 0)).unwrap();
    assert!(matches!(s.get_color_key(), Err(SdlError::NoColorKey)));
}

#[test]
fn color_key_reinterprets_in_narrow_format() {
    let mut s = Surface::new(SurfaceFlags::empty(), 4, 4, 16, 0xF800, 0x07E0, 0x001F, 0).unwrap();
    s.set_color_key(true, Color::RGB(0xFF, 0xFF, 0xFF)).unwrap();
    assert_eq!(s.get_color_key().unwrap(), Color::RGB(0xF8, 0xFC, 0xF8));
    s.set_color_key(true, Color::RGB(0x13, 0x27, 0x09)).unwrap();
    assert_eq!(s.get_color_key().unwrap(), Color::RGB(0x10, 0x24, 0x08));
}

#[test]
fn color_mod_set_get() {
    let mut s = rgba32();
    assert_eq!(s.get_color_mod().unwrap(), Color::RGB(255, 255, 255));
    assert!(s.set_color_mod(Color::RGBA(9, 8, 7, 6)));
    assert_eq!(s.get_color_mod().unwrap(), Color::RGB(9, 8, 7));
    assert!(s.set_color_mod(Color::RGB(1, 2, 3)));
    assert_eq!(s.get_color_mod().unwrap(), Color::RGB(1, 2, 3));
}

#[test]
fn rle_toggles_report_success() {
    let mut s = rgba32();
    assert!(s.enable_RLE());
    assert!(s.disable_RLE());
}

#[test]
fn palette_requires_indexed_format() {
    let mut indexed = Surface::new(SurfaceFlags::empty(), 4, 4, 8, 0, 0, 0, 0).unwrap();
    let full = Palette { colors: vec![Color::RGB(0, 0, 0); 256] };
    let short = Palette { colors: vec![Color::RGB(0, 0, 0); 255] };
    assert!(indexed.set_palette(&full));
    assert!(!indexed.set_palette(&short));
    let mut direct = rgba32();
    assert!(!direct.set_palette(&full));
}

#[test]
fn blit_refuses_locked_surfaces() {
    let mut dst = rgba32();
    let src = rgba32();
    assert!(dst.blit(&src, None, Some(Rect::new(0, 0, 8, 8))));
    assert!(dst.blit(&src, Some(Rect::new(1, 2, 3, 4)), None));
    dst.lock();
    assert!(!dst.blit(&src, None, None));
    dst.unlock();
    let mut locked_src = rgba32();
    locked_src.lock();
    assert!(!dst.blit(&locked_src, None, None));
}
