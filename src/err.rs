//! Errors of token derivation and rendering.

use vstd::prelude::*;

verus! {

/// Why a token could not be derived, or an image not rendered.
#[derive(Clone, Copy, Debug, PartialEq, Eq, Structural)]
pub enum HandlerError {
    /// The check-in page or the data endpoint answered with another status than 200.
    BadStatusCode(u16),
    /// The check-in page holds no intermediate token.
    CannotFindToken,
    /// The data document holds no `qr_data` string.
    MissingQrData,
    /// The QR code could not be drawn at the size asked for.
    RenderFailed,
}

} // verus!
