use sinewaves::surface::{
    choose_format, choose_surface, preferred_format_index, SurfaceError, SurfaceSize,
};
use wgpu::{CompositeAlphaMode, PresentMode, TextureFormat};

#[test]
fn preferred_index_first_srgb() {
    assert_eq!(preferred_format_index(&vec![false, true, true]), Some(1));
    assert_eq!(preferred_format_index(&vec![true, false]), Some(0));
}

#[test]
fn preferred_index_without_srgb_takes_first() {
    assert_eq!(preferred_format_index(&vec![false, false, false]), Some(0));
}

#[test]
fn preferred_index_empty() {
    assert_eq!(preferred_format_index(&Vec::new()), None);
}

#[test]
fn choose_format_prefers_srgb() {
    let formats = vec![
        TextureFormat::Bgra8Unorm,
        TextureFormat::Rgba8Unorm,
        TextureFormat::Bgra8UnormSrgb,
        TextureFormat::Rgba8UnormSrgb,
    ];
    assert_eq!(choose_format(&formats), Some(TextureFormat::Bgra8UnormSrgb));
}

#[test]
fn choose_format_falls_back_to_first() {
    let formats = vec![TextureFormat::Rgba16Float, TextureFormat::Bgra8Unorm];
    assert_eq!(choose_format(&formats), Some(TextureFormat::Rgba16Float));
    assert_eq!(choose_format(&Vec::new()), None);
}

#[test]
fn choose_surface_ok() {
    let c = choose_surface(
        &vec![TextureFormat::Bgra8Unorm, TextureFormat::Bgra8UnormSrgb],
        &vec![PresentMode::Fifo, PresentMode::Mailbox],
        &vec![CompositeAlphaMode::Opaque, CompositeAlphaMode::PreMultiplied],
    )
    .unwrap();
    assert_eq!(c.format, TextureFormat::Bgra8UnormSrgb);
    assert_eq!(c.present_mode, PresentMode::Fifo);
    assert_eq!(c.alpha_mode, CompositeAlphaMode::Opaque);
}

#[test]
fn choose_surface_no_format() {
    let r = choose_surface(&Vec::new(), &Vec::new(), &Vec::new());
    assert_eq!(r.err(), Some(SurfaceError::NoFormat));
}

#[test]
fn choose_surface_no_present_mode() {
    let r = choose_surface(
        &vec![TextureFormat::Bgra8Unorm],
        &Vec::new(),
        &vec![CompositeAlphaMode::Opaque],
    );
    assert_eq!(r.err(), Some(SurfaceError::NoPresentMode));
}

#[test]
fn choose_surface_no_alpha_mode() {
    let r = choose_surface(
        &vec![TextureFormat::Bgra8Unorm],
        &vec![PresentMode::Fifo],
        &Vec::new(),
    );
    assert_eq!(r.err(), Some(SurfaceError::NoAlphaMode));
}

#[test]
fn surface_error_messages() {
    assert_eq!(
        SurfaceError::NoFormat.message(),
        "Surface is incompatible with the adapter"
    );
    assert_eq!(
        SurfaceError::NoPresentMode.message(),
        "Surface is incompatible with the adapter"
    );
    assert_eq!(
        SurfaceError::NoAlphaMode.message(),
        "No supported alpha modes found"
    );
}

#[test]
fn resize_takes_nonzero_size() {
    let mut size = SurfaceSize::new(800, 600);
    assert!(size.resize(1024, 768));
    assert_eq!(size, SurfaceSize::new(1024, 768));
}

#[test]
fn resize_ignores_zero_side() {
    let mut size = SurfaceSize::new(800, 600);
    assert!(!size.resize(0, 768));
    assert!(!size.resize(1024, 0));
    assert!(!size.resize(0, 0));
    assert_eq!(size, SurfaceSize::new(800, 600));
}

#[test]
fn resize_largest_size() {
    let mut size = SurfaceSize::new(1, 1);
    assert!(size.resize(u32::MAX, u32::MAX));
    assert_eq!(size.width, u32::MAX);
    assert_eq!(size.height, u32::MAX);
}
