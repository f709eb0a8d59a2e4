use sil::modes::{DisplayState, LogoMsg};
use sil::render::{load_logo, pack_rgb, LogoImage, RenderState, RenderUpdate};

#[test]
fn initial_render_state() {
    let r = RenderState::init();
    assert_eq!(r.state, DisplayState::Logo { msg: LogoMsg::LoadingLoader });
    assert_eq!(r.logo, None);
}

#[test]
fn message_update_preserves_image() {
    let mut r = RenderState::init();
    r.apply(RenderUpdate::State(DisplayState::Logo { msg: LogoMsg::LoadingLogo }));
    let img = LogoImage { width: 1, height: 1, pixels: vec![1, 2, 3, 255] };
    r.apply(RenderUpdate::Logo(img));
    // A message-only update must not discard the delivered image.
    r.apply(RenderUpdate::State(DisplayState::Logo { msg: LogoMsg::GettingEvent }));
    assert_eq!(r.state, DisplayState::Logo { msg: LogoMsg::GettingEvent });
    assert_eq!(r.logo, Some(LogoImage { width: 1, height: 1, pixels: vec![1, 2, 3, 255] }));
}

#[test]
fn image_update_preserves_state() {
    let mut r = RenderState::init();
    r.apply(RenderUpdate::State(DisplayState::HexagesimalTime(String::from("Europe/Berlin"))));
    r.apply(RenderUpdate::Logo(LogoImage { width: 1, height: 1, pixels: vec![0, 0, 0, 0] }));
    assert_eq!(r.state, DisplayState::HexagesimalTime(String::from("Europe/Berlin")));
    assert!(r.logo.is_some());
    // A replacement image overwrites the previous one.
    r.apply(RenderUpdate::Logo(LogoImage { width: 1, height: 1, pixels: vec![9, 9, 9, 255] }));
    assert_eq!(r.logo, Some(LogoImage { width: 1, height: 1, pixels: vec![9, 9, 9, 255] }));
}

#[test]
fn decode_roundtrip() {
    let mut pixmap = tiny_skia::Pixmap::new(2, 3).unwrap();
    pixmap.fill(tiny_skia::Color::from_rgba8(10, 20, 30, 255));
    let bytes = pixmap.encode_png().unwrap();
    let img = load_logo(&bytes).unwrap();
    assert_eq!(img.width, 2);
    assert_eq!(img.height, 3);
    assert_eq!(img.pixels.len(), 2 * 3 * 4);
    assert_eq!(&img.pixels[0..4], &[10, 20, 30, 255]);
}

#[test]
fn decode_garbage_fails() {
    let bytes = vec![0u8, 1, 2, 3, 4, 5, 6, 7];
    let e = load_logo(&bytes).unwrap_err();
    assert_eq!(e.display_message(), "failed to decode logo image");
}

#[test]
fn pack_rgb_places_channels() {
    assert_eq!(pack_rgb(0, 0, 0), 0);
    assert_eq!(pack_rgb(255, 255, 255), 0x00FF_FFFF);
    assert_eq!(pack_rgb(0x12, 0x34, 0x56), 0x0012_3456);
}
