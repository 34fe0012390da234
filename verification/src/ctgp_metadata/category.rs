//! The category that CTGP files a ghost under.

use vstd::prelude::*;
use vstd::std_specs::convert::FromSpecImpl;
use vstd::std_specs::convert::TryFromSpecImpl;
use bitreader::BitReader;
use bitreader::BitReaderError;
use crate::bit_reader::bits_value;
use crate::bit_reader::reader_bytes;
use crate::bit_reader::reader_limit;
use crate::bit_reader::reader_position;

verus! {

#[derive(Clone, Copy, Debug, PartialEq)]
pub enum CategoryError {
    NonexistentCategory,
    BitReaderError(BitReaderError),
}

#[derive(Clone, Copy, Debug, PartialEq, Eq, Structural)]
pub enum Category {
    NoGlitch,
    Glitch,
    NoGlitchTAS,
    GlitchTAS,
}

/// The category that the code `value` stands for. A run with tool
/// assistance and without glitches has two codes.
pub open spec fn category_of(value: u8) -> Result<Category, CategoryError> {
    if value == 0x00 {
        Ok(Category::NoGlitch)
    } else if value == 0x01 {
        Ok(Category::Glitch)
    } else if value == 0x13 {
        Ok(Category::GlitchTAS)
    } else if value == 0x03 || value == 0x23 {
        Ok(Category::NoGlitchTAS)
    } else {
        Err(CategoryError::NonexistentCategory)
    }
}

/// The code that stands for a category; where it has two, the higher one.
pub open spec fn category_code(value: Category) -> u8 {
    match value {
        Category::NoGlitch => 0x00,
        Category::Glitch => 0x01,
        Category::GlitchTAS => 0x13,
        Category::NoGlitchTAS => 0x23,
    }
}

impl TryFrom<u8> for Category {
    type Error = CategoryError;

    fn try_from(value: u8) -> (r: Result<Self, Self::Error>) {
        match value {
            0x00 => Ok(Self::NoGlitch),
            0x01 => Ok(Self::Glitch),
            0x13 => Ok(Self::GlitchTAS),
            0x03 | 0x23 => Ok(Self::NoGlitchTAS),
            _ => Err(CategoryError::NonexistentCategory),
        }
    }
}

impl TryFromSpecImpl<u8> for Category {
    open spec fn obeys_try_from_spec() -> bool {
        true
    }

    open spec fn try_from_spec(value: u8) -> Result<Self, Self::Error> {
        category_of(value)
    }
}

impl From<Category> for u8 {
    fn from(value: Category) -> (r: u8) {
        match value {
            Category::NoGlitch => 0x00,
            Category::Glitch => 0x01,
            Category::GlitchTAS => 0x13,
            Category::NoGlitchTAS => 0x23,
        }
    }
}

impl FromSpecImpl<Category> for u8 {
    open spec fn obeys_from_spec() -> bool {
        true
    }

    open spec fn from_spec(value: Category) -> u8 {
        category_code(value)
    }
}

impl Category {
    /// Reads the category out of the next eight bits of a reader. Where the
    /// reader has not that many bits left, its own error comes back.
    pub fn from_reader(reader: &mut BitReader<'_>) -> (r: Result<Self, CategoryError>)
        ensures
            reader_bytes(*final(reader)) == reader_bytes(*old(reader)),
            reader_limit(*final(reader)) == reader_limit(*old(reader)),
            r matches Err(CategoryError::BitReaderError(_)) <==> reader_position(*old(reader)) + 8
                > reader_limit(*old(reader)),
            reader_position(*old(reader)) + 8 <= reader_limit(*old(reader)) ==> r == category_of(
                bits_value(reader_bytes(*old(reader)), reader_position(*old(reader)), 8) as u8,
            ) && reader_position(*final(reader)) == reader_position(*old(reader)) + 8,
    {
        match reader.read_u8(8) {
            Ok(value) => Category::try_from(value),
            Err(e) => Err(CategoryError::BitReaderError(e)),
        }
    }
}

/// Each category is read back from its own code.
pub proof fn lemma_category_code_read_back(value: Category)
    ensures
        category_of(category_code(value)) == Ok::<_, CategoryError>(value),
{
}

} // verus!
