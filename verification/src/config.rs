//! What a host can set about the picture.

use vstd::prelude::*;

verus! {

/// The window and the two colours of the picture.
#[derive(Clone, Copy, Debug)]
pub struct Screen {
    /// The width of the window, in pixels.
    pub width: u32,
    /// The height of the window, in pixels.
    pub height: u32,
    /// The colour of a pixel that is lit.
    pub white_color: u8,
    /// The colour of a pixel that is dark.
    pub black_color: u8,
    /// Whether the window fills the display.
    pub fullscreen: bool,
}

} // verus!
