//! The mole of a Mii.

use vstd::prelude::*;
use crate::byte_handler::bit_at;
use crate::byte_handler::field_at;
use crate::byte_handler::ByteHandler;
use crate::byte_handler::ByteHandlerError;

verus! {

#[derive(Clone, Copy, Debug, PartialEq, Eq, Structural)]
pub struct Mole {
    pub has_mole: bool,
    pub x: u8,
    pub y: u8,
    pub size: u8,
}

/// The mole that bytes 0x34 and 0x35 of a Mii hold, read as one word: one
/// bit that tells whether there is one, four bits of the size, five bits of
/// the height and five bits of the place from left to right.
pub open spec fn mole_of(word: u32) -> Mole {
    Mole {
        has_mole: bit_at(word, 15),
        x: field_at(word, 1, 5) as u8,
        y: field_at(word, 6, 5) as u8,
        size: field_at(word, 11, 4) as u8,
    }
}

impl Mole {
    pub fn has_mole(&self) -> (r: bool)
        ensures
            r == self.has_mole,
    {
        self.has_mole
    }

    pub fn x(&self) -> (r: u8)
        ensures
            r == self.x,
    {
        self.x
    }

    pub fn y(&self) -> (r: u8)
        ensures
            r == self.y,
    {
        self.y
    }

    pub fn size(&self) -> (r: u8)
        ensures
            r == self.size,
    {
        self.size
    }

    pub fn from_byte_handler(handler: ByteHandler) -> (r: Result<Self, MoleError>)
        ensures
            r == Ok::<_, MoleError>(mole_of(handler@)),
    {
        proof {
            vstd::arithmetic::power2::lemma2_to64();
        }
        let has_mole = handler.read_bool(15);
        let x = handler.copy_bits(1, 5) as u8;
        let y = handler.copy_bits(6, 5) as u8;
        let size = handler.copy_bits(11, 4) as u8;
        Ok(Self { has_mole, x, y, size })
    }
}

#[derive(Clone, Copy, Debug, PartialEq, Eq, Structural)]
pub enum MoleError {
    ByteHandlerError(ByteHandlerError),
}

} // verus!
