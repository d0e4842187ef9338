use vstd::prelude::*;
use crate::gfx::Size;

verus! {

/// An encoded sixel image, ready to be written to the terminal as it is.
#[derive(Clone, Debug)]
pub struct Frame {
    pub bytes: Vec<u8>,
}

/// Why the sixel encoder gave up.
#[derive(Clone, Copy, Debug, PartialEq, Eq, Structural)]
pub enum EncodeFailure {
    /// The encoder returned this non-zero status code.
    Status(i32),
    /// The encoder's output was not valid UTF-8.
    Utf8,
}

#[derive(Clone, Copy, Debug, PartialEq, Eq, Structural)]
pub enum Error {
    Encode(EncodeFailure),
    InvalidSize(Size),
}

pub open spec fn is_valid_size(size: Size) -> bool {
    size.width != 0 && size.height != 0
}

/// What building a frame of `size` from the encoder's outcome gives.
pub open spec fn frame_result_ok(size: Size, encoded: Result<Vec<u8>, EncodeFailure>, r: Result<Frame, Error>) -> bool {
    if !is_valid_size(size) {
        r == Err::<Frame, Error>(Error::InvalidSize(size))
    } else {
        match encoded {
            Ok(bytes) => r matches Ok(f) && f.bytes@ == bytes@,
            Err(e) => r == Err::<Frame, Error>(Error::Encode(e)),
        }
    }
}

impl Frame {
    /// Checks that a viewport of `size` can be encoded at all.
    pub fn check_size(size: Size) -> (r: Result<(), Error>)
        ensures
            r is Ok <==> is_valid_size(size),
            !is_valid_size(size) ==> r == Err::<(), Error>(Error::InvalidSize(size)),
    {
        if size.width == 0 || size.height == 0 {
            return Err(Error::InvalidSize(size));
        }
        Ok(())
    }

    /// Builds the frame of a viewport of `size` from what the sixel encoder
    /// returned for it. A zero-sized viewport is refused whatever the encoder said.
    pub fn from_encoded(size: Size, encoded: Result<Vec<u8>, EncodeFailure>) -> (r: Result<Frame, Error>)
        ensures
            frame_result_ok(size, encoded, r),
    {
        match Frame::check_size(size) {
            Err(e) => Err(e),
            Ok(()) => match encoded {
                Ok(bytes) => Ok(Frame { bytes }),
                Err(e) => Err(Error::Encode(e)),
            },
        }
    }
}

} // verus!
