use vstd::prelude::*;

use crate::error::SglError;

verus! {

/// An RGBA color with 8 bits per channel, laid out as four consecutive bytes.
#[derive(Debug, Clone, Copy, PartialEq, Eq, Structural)]
pub struct Pixel {
    pub r: u8,
    pub g: u8,
    pub b: u8,
    pub a: u8,
}

/// The pixel whose channels are the four given bytes, in order.
pub open spec fn pixel_of(r: u8, g: u8, b: u8, a: u8) -> Pixel {
    Pixel { r, g, b, a }
}

impl Pixel {
    pub fn black() -> (p: Pixel)
        ensures
            p == pixel_of(0x00, 0x00, 0x00, 0xff),
    {
        Pixel { r: 0x00, g: 0x00, b: 0x00, a: 0xff }
    }

    pub fn green() -> (p: Pixel)
        ensures
            p == pixel_of(0x00, 0xff, 0x00, 0xff),
    {
        Pixel { r: 0x00, g: 0xff, b: 0x00, a: 0xff }
    }

    pub fn red() -> (p: Pixel)
        ensures
            p == pixel_of(0xff, 0x00, 0x00, 0xff),
    {
        Pixel { r: 0xff, g: 0x00, b: 0x00, a: 0xff }
    }

    pub fn white() -> (p: Pixel)
        ensures
            p == pixel_of(0xff, 0xff, 0xff, 0xff),
    {
        Pixel { r: 0xff, g: 0xff, b: 0xff, a: 0xff }
    }

    pub fn yellow() -> (p: Pixel)
        ensures
            p == pixel_of(0xff, 0xff, 0x00, 0xff),
    {
        Pixel { r: 0xff, g: 0xff, b: 0x00, a: 0xff }
    }

    /// An opaque color.
    pub fn rgb(r: u8, g: u8, b: u8) -> (p: Pixel)
        ensures
            p == pixel_of(r, g, b, 0xff),
    {
        Pixel::rgba(r, g, b, 0xff)
    }

    pub fn rgba(r: u8, g: u8, b: u8, a: u8) -> (p: Pixel)
        ensures
            p == pixel_of(r, g, b, a),
    {
        Pixel { r, g, b, a }
    }
}

impl Default for Pixel {
    /// Opaque white.
    fn default() -> (p: Pixel)
        ensures
            p == pixel_of(0xff, 0xff, 0xff, 0xff),
    {
        Pixel { r: 0xff, g: 0xff, b: 0xff, a: 0xff }
    }
}

impl<'a> TryFrom<&'a [u8]> for Pixel {
    type Error = SglError;

    /// Reads a pixel from exactly four bytes, red first.
    fn try_from(bytes: &'a [u8]) -> (r: Result<Pixel, SglError>)
        ensures
            bytes@.len() == 4 <==> r is Ok,
            r is Ok ==> r->Ok_0 == pixel_of(bytes@[0], bytes@[1], bytes@[2], bytes@[3]),
    {
        if bytes.len() != 4 {
            return Err(SglError::General("unable to convert byte to pixel".to_string()));
        }
        Ok(Pixel::rgba(bytes[0], bytes[1], bytes[2], bytes[3]))
    }
}

/// The error carries a message, which no spec value describes: the contract of
/// `try_from` itself states the result.
impl<'a> vstd::std_specs::convert::TryFromSpecImpl<&'a [u8]> for Pixel {
    open spec fn obeys_try_from_spec() -> bool {
        false
    }

    open spec fn try_from_spec(bytes: &'a [u8]) -> Result<Pixel, SglError> {
        Ok(pixel_of(bytes@[0], bytes@[1], bytes@[2], bytes@[3]))
    }
}

} // verus!
