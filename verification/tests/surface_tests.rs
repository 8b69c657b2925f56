use render_harness::error::RenderError;
use render_harness::surface::{
    AlphaMode, OutputSurface, PresentMode, SurfaceDims, TextureFormat, pick_srgb_format,
};

fn dims(width: u32, height: u32) -> SurfaceDims {
    SurfaceDims { width, height }
}

#[test]
fn picks_first_srgb_format() {
    let formats = vec![
        TextureFormat::Bgra8Unorm,
        TextureFormat::Rgba8UnormSrgb,
        TextureFormat::Bgra8UnormSrgb,
    ];
    assert_eq!(pick_srgb_format(&formats), Some(TextureFormat::Rgba8UnormSrgb));
}

#[test]
fn no_srgb_format_is_fatal() {
    let formats = vec![TextureFormat::Bgra8Unorm, TextureFormat::Rgba8Unorm];
    assert_eq!(pick_srgb_format(&formats), None);
    let r = OutputSurface::from_window_surface(&formats, dims(800, 600));
    assert_eq!(r, Err(RenderError::NoSrgbFormat));
}

#[test]
fn fresh_surface_configuration() {
    let formats = vec![TextureFormat::Bgra8Unorm, TextureFormat::Bgra8UnormSrgb];
    let s = OutputSurface::from_window_surface(&formats, dims(800, 600)).unwrap();
    assert_eq!(s.format, TextureFormat::Bgra8UnormSrgb);
    assert_eq!(s.config.format, TextureFormat::Bgra8UnormSrgb);
    assert_eq!((s.config.width, s.config.height), (800, 600));
    assert_eq!(s.config.present_mode, PresentMode::Fifo);
    assert_eq!(s.config.alpha_mode, AlphaMode::Opaque);
    assert!(s.config.render_attachment);
    assert_eq!(s.depth_dims, s.dims);
}

#[test]
fn resize_updates_configuration_exactly() {
    let formats = vec![TextureFormat::Bgra8UnormSrgb];
    let mut s = OutputSurface::from_window_surface(&formats, dims(800, 600)).unwrap();
    let action = s.resize(dims(1024, 768));
    assert_eq!((s.config.width, s.config.height), (1024, 768));
    assert_eq!((s.dims.width, s.dims.height), (1024, 768));
    assert_eq!(s.depth_dims, s.dims);
    let applied = action.unwrap();
    assert_eq!((applied.width, applied.height), (1024, 768));
}

#[test]
fn resize_twice_same_dims_is_idempotent() {
    let formats = vec![TextureFormat::Bgra8UnormSrgb];
    let mut s = OutputSurface::from_window_surface(&formats, dims(800, 600)).unwrap();
    let first = s.resize(dims(640, 480));
    let after_first = s;
    let second = s.resize(dims(640, 480));
    assert_eq!(s, after_first);
    assert_eq!(first, second);
}

#[test]
fn reconfigure_returns_current_configuration() {
    let formats = vec![TextureFormat::Bgra8UnormSrgb];
    let s = OutputSurface::from_window_surface(&formats, dims(320, 200)).unwrap();
    let action = s.reconfigure();
    assert_eq!(action, Some(s.config));
}

#[test]
fn zero_sized_resize_sequence_is_harmless() {
    // 800x600 -> 0x0 -> 800x600: the zero-sized intermediate state yields
    // no configuration to apply and no renderable frame, and the way back
    // restores a normal configuration.
    let formats = vec![TextureFormat::Bgra8UnormSrgb];
    let mut s = OutputSurface::from_window_surface(&formats, dims(800, 600)).unwrap();
    assert!(s.can_render());

    let during = s.resize(dims(0, 0));
    assert_eq!(during, None);
    assert!(!s.can_render());
    assert_eq!(s.reconfigure(), None);
    assert_eq!((s.config.width, s.config.height), (0, 0));

    let after = s.resize(dims(800, 600));
    assert!(s.can_render());
    let applied = after.unwrap();
    assert_eq!((applied.width, applied.height), (800, 600));
}

#[test]
fn zero_width_alone_blocks_rendering() {
    let formats = vec![TextureFormat::Bgra8UnormSrgb];
    let mut s = OutputSurface::from_window_surface(&formats, dims(800, 600)).unwrap();
    let action = s.resize(dims(0, 600));
    assert_eq!(action, None);
    assert!(!s.can_render());
}
