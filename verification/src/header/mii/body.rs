//! The build of a Mii: its height and its weight.

use vstd::prelude::*;
use crate::byte_handler::field_at;
use crate::byte_handler::ByteHandler;
use crate::byte_handler::ByteHandlerError;

verus! {

#[derive(Clone, Copy, Debug, PartialEq, Eq, Structural)]
pub enum BuildError {
    WeightInvalid,
    HeightInvalid,
    ByteHandlerError(ByteHandlerError),
}

/// A height and a weight, each from 0 to 127.
#[derive(Clone, Copy, Debug, PartialEq, Eq, Structural)]
pub struct Build {
    pub height: u8,
    pub weight: u8,
}

/// The build of a height and a weight, or the reason why they make none.
/// The height is looked at first.
pub open spec fn build_of(height: u8, weight: u8) -> Result<Build, BuildError> {
    if height > 127 {
        Err(BuildError::HeightInvalid)
    } else if weight > 127 {
        Err(BuildError::WeightInvalid)
    } else {
        Ok(Build { height, weight })
    }
}

impl Build {
    #[inline(always)]
    pub fn new(height: u8, weight: u8) -> (r: Result<Self, BuildError>)
        ensures
            r == build_of(height, weight),
    {
        if height > 127 {
            return Err(BuildError::HeightInvalid);
        }
        if weight > 127 {
            return Err(BuildError::WeightInvalid);
        }
        Ok(Self { height, weight })
    }

    pub fn height(&self) -> (r: u8)
        ensures
            r == self.height,
    {
        self.height
    }

    pub fn weight(&self) -> (r: u8)
        ensures
            r == self.weight,
    {
        self.weight
    }

    /// Reads the build out of bytes 0x16 and 0x17 of a Mii: the height,
    /// then the weight.
    pub fn from_byte_handler(handler: ByteHandler) -> (r: Result<Self, BuildError>)
        ensures
            r == build_of(field_at(handler@, 8, 8) as u8, field_at(handler@, 0, 8) as u8),
    {
        proof {
            vstd::arithmetic::power2::lemma2_to64();
        }
        Self::new(handler.copy_bits(8, 8) as u8, handler.copy_bits(0, 8) as u8)
    }
}

} // verus!
