//! The capture engine's compute half: choosing the capture rectangle and
//! turning the server's raw packed pixels into a portable RGBA buffer.
//!
//! The geometry query, the optional pre-capture delay and the pixel-fetch
//! request are round trips an unverified driver performs; it hands the raw
//! reply bytes to [`finish_capture`].

use crate::errors::Error;
use vstd::prelude::*;

verus! {

/// The rectangle to capture: a signed top-left offset and a positive size.
///
/// Width and height are positive by construction; a zero-area rectangle is
/// a caller error and is rejected before any request is issued.
#[derive(Clone, Copy, Debug, PartialEq, Eq, Structural)]
pub struct CaptureRect {
    pub x: i16,
    pub y: i16,
    pub width: u16,
    pub height: u16,
}

impl CaptureRect {
    /// A rectangle never has a zero side.
    pub open spec fn wf(self) -> bool {
        self.width > 0 && self.height > 0
    }

    /// Build a capture rectangle, rejecting zero-area sizes.
    pub fn new(x: i16, y: i16, width: u16, height: u16) -> (r: Option<CaptureRect>)
        ensures
            r is Some <==> width > 0 && height > 0,
            r matches Some(rect) ==> rect == (CaptureRect { x, y, width, height }) && rect.wf(),
    {
        if width > 0 && height > 0 {
            Some(CaptureRect { x, y, width, height })
        } else {
            None
        }
    }

    /// How many bytes of packed pixel data this rectangle must yield:
    /// four bytes for each of its pixels.
    pub open spec fn byte_len(self) -> int {
        self.width * self.height * 4
    }
}

/// The effective capture size: the explicit override when one was given,
/// else the target's own geometry as the server reported it.
pub fn effective_size(size_override: Option<(u16, u16)>, geometry: (u16, u16)) -> (r: (u16, u16))
    ensures
        r == match size_override {
            Some(s) => s,
            None => geometry,
        },
{
    match size_override {
        Some(s) => s,
        None => geometry,
    }
}

/// The captured image: a flat byte sequence in 4-bytes-per-pixel RGBA
/// order, exactly `width * height * 4` bytes long. This is the sole
/// artifact handed to the external codec.
#[derive(Debug, PartialEq, Eq)]
pub struct PixelBuffer {
    pub width: u16,
    pub height: u16,
    pub data: Vec<u8>,
}

impl PixelBuffer {
    /// The data holds exactly four bytes per pixel.
    pub open spec fn wf(self) -> bool {
        self.data@.len() == self.width * self.height * 4
    }
}

/// What the raw server bytes, read as 4-byte groups in blue-green-red-unused
/// order, become in RGBA order: bytes 0 and 2 of each group swap and the
/// fourth byte is forced fully opaque, whatever the server sent there.
pub open spec fn rgba_of(raw: Seq<u8>) -> Seq<u8>
    recommends
        raw.len() % 4 == 0,
{
    Seq::new(
        raw.len(),
        |i: int|
            if i % 4 == 0 {
                raw[i + 2]
            } else if i % 4 == 1 {
                raw[i]
            } else if i % 4 == 2 {
                raw[i - 2]
            } else {
                0xff
            },
    )
}

/// Reorder raw packed pixels from blue-green-red-unused groups into RGBA
/// groups, substituting full opacity for the unused fourth byte: the
/// server's reported alpha plane is not trusted.
pub fn convert_bgrx_to_rgba(raw: &Vec<u8>) -> (r: Vec<u8>)
    requires
        raw@.len() % 4 == 0,
    ensures
        r@ == rgba_of(raw@),
{
    let mut pixels: Vec<u8> = Vec::new();
    let mut i: usize = 0;
    while i < raw.len()
        invariant
            raw@.len() % 4 == 0,
            i % 4 == 0,
            i <= raw@.len(),
            pixels@.len() == i,
            forall|j: int| 0 <= j < i ==> pixels@[j] == rgba_of(raw@)[j],
        decreases raw@.len() - i,
    {
        pixels.push(raw[i + 2]);
        pixels.push(raw[i + 1]);
        pixels.push(raw[i]);
        pixels.push(0xff);
        i = i + 4;
    }
    assert(pixels@ =~= rgba_of(raw@));
    pixels
}

/// Turn the server's raw pixel reply into the portable RGBA buffer.
///
/// The reply must hold exactly four bytes per pixel of the requested
/// rectangle; any other length is a hard invariant violation of the server
/// contract and is the one and only source of `CaptureSizeMismatch`.
pub fn finish_capture(rect: &CaptureRect, raw: &Vec<u8>) -> (r: Result<PixelBuffer, Error>)
    requires
        rect.wf(),
    ensures
        r is Ok <==> raw@.len() == rect.byte_len(),
        r is Err ==> r == Err::<PixelBuffer, Error>(Error::CaptureSizeMismatch),
        r matches Ok(buf) ==> {
            &&& buf.wf()
            &&& buf.width == rect.width
            &&& buf.height == rect.height
            &&& buf.data@ == rgba_of(raw@)
        },
{
    let w = rect.width as u64;
    let h = rect.height as u64;
    proof {
        assert(w * h <= 0xffff * 0xffff) by (nonlinear_arith)
            requires
                w <= 0xffff,
                h <= 0xffff,
        ;
    }
    let expected: u64 = w * h * 4;
    if (raw.len() as u64) != expected {
        return Err(Error::CaptureSizeMismatch);
    }
    proof {
        assert((w * h * 4) % 4 == 0) by (nonlinear_arith);
        assert(raw@.len() % 4 == 0);
    }
    let data = convert_bgrx_to_rgba(raw);
    Ok(PixelBuffer { width: rect.width, height: rect.height, data })
}

} // verus!
