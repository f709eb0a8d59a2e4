//! What the renderer observes: the current display state plus the logo image
//! asset, merged so that a state-only update never discards a previously
//! delivered image and an image-only update never discards the state.

use vstd::prelude::*;

use crate::error::SessionError;
use crate::modes::{DisplayState, LogoMsg};

verus! {

/// A decoded logo image: premultiplied RGBA bytes, four per pixel.
#[derive(Debug, PartialEq, Eq)]
pub struct LogoImage {
    pub width: u32,
    pub height: u32,
    pub pixels: Vec<u8>,
}

impl LogoImage {
    /// Four bytes per pixel, and a size small enough that the byte count
    /// cannot overflow.
    pub open spec fn wf(self) -> bool {
        self.pixels@.len() == self.width * self.height * 4
    }
}

/// The decoded form of a PNG byte stream, or `None` for bytes that are not a
/// decodable PNG image.
pub uninterp spec fn decoded_png(bytes: Seq<u8>) -> Option<LogoImage>;

/// Relies on tiny_skia's `Pixmap::decode_png` (and its `width`, `height` and
/// `data` accessors): the decoded pixmap depends on the input bytes alone and
/// always carries four bytes per pixel.
#[verifier::external_body]
fn decode_png_bytes(bytes: &Vec<u8>) -> (r: Option<LogoImage>)
    ensures
        r == decoded_png(bytes@),
        r matches Some(img) ==> img.wf(),
{
    let pixmap = tiny_skia::Pixmap::decode_png(bytes).ok()?;
    Some(LogoImage {
        width: pixmap.width(),
        height: pixmap.height(),
        pixels: pixmap.data().to_vec(),
    })
}

/// Decode fetched or cached logo bytes, or report the decode failure through
/// the shared error taxonomy.
pub fn load_logo(bytes: &Vec<u8>) -> (r: Result<LogoImage, SessionError>)
    ensures
        r matches Ok(img) ==> Some(img) == decoded_png(bytes@) && img.wf(),
        r is Err ==> decoded_png(bytes@) is None,
        r is Ok <==> decoded_png(bytes@) is Some,
    {
    match decode_png_bytes(bytes) {
        Some(img) => Ok(img),
        None => Err(
            SessionError::AssetIo { detail: String::from_str("failed to decode logo image") },
        ),
    }
}

/// An update arriving on the shared outgoing channel: either a new display
/// state from the session loop, or the logo image from the asset loader.
#[derive(Debug, PartialEq, Eq)]
pub enum RenderUpdate {
    State(DisplayState),
    Logo(LogoImage),
}

/// The renderer's view of the world: the current display state and the logo
/// image, if one has been delivered yet.
#[derive(Debug, PartialEq, Eq)]
pub struct RenderState {
    pub state: DisplayState,
    pub logo: Option<LogoImage>,
}

/// The merge rule: each update replaces exactly its own half of the observed
/// state and preserves the other.
pub open spec fn apply_spec(r: RenderState, u: RenderUpdate) -> RenderState {
    match u {
        RenderUpdate::State(s) => RenderState { state: s, logo: r.logo },
        RenderUpdate::Logo(img) => RenderState { state: r.state, logo: Some(img) },
    }
}

impl RenderState {
    /// The state shown before anything has been delivered.
    pub fn init() -> (r: Self)
        ensures
            r.state == (DisplayState::Logo { msg: LogoMsg::LoadingLoader }),
            r.logo is None,
    {
        RenderState { state: DisplayState::Logo { msg: LogoMsg::LoadingLoader }, logo: None }
    }

    /// Apply one channel update, merging rather than clobbering.
    pub fn apply(&mut self, u: RenderUpdate)
        ensures
            *final(self) == apply_spec(*old(self), u),
    {
        match u {
            RenderUpdate::State(s) => self.state = s,
            RenderUpdate::Logo(img) => self.logo = Some(img),
        }
    }
}

/// The merge law: a message-only logo update after an image delivery keeps
/// the image and changes only the message, and vice versa.
pub proof fn lemma_logo_merge(r: RenderState, img: LogoImage, m2: LogoMsg)
    ensures
        ({
            let with_image = apply_spec(r, RenderUpdate::Logo(img));
            let updated = apply_spec(with_image, RenderUpdate::State(DisplayState::Logo { msg: m2 }));
            updated.logo == Some(img) && updated.state == (DisplayState::Logo { msg: m2 })
        }),
{
}

/// Pack one pixel's colour channels into the `0x00RRGGBB` word a software
/// surface expects.
pub fn pack_rgb(red: u8, green: u8, blue: u8) -> (r: u32)
    ensures
        r == red * 0x10000 + green * 0x100 + blue,
{
    let r: u32 = ((red as u32) << 16u32) | ((green as u32) << 8u32) | (blue as u32);
    proof {
        assert(((red as u32) << 16u32) | ((green as u32) << 8u32) | (blue as u32) == (red as u32)
            * 0x10000 + (green as u32) * 0x100 + (blue as u32)) by (bit_vector);
    }
    r
}

} // verus!
