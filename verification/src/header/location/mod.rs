//! The lists of countries and regions that a ghost may name its player's
//! home from: the one of the game, and the longer ones that came later.

use vstd::prelude::*;

verus! {

/// The list that a code of a country or a region is taken from.
#[derive(Clone, Copy, Debug, PartialEq, Eq, Structural, PartialOrd, Ord)]
pub enum LocationVersioning {
    Vanilla,
    ExtendedRegionsV1_0,
    ExtendedRegionsV1_1,
    ExtendedRegionsV1_2,
    ExtendedRegionsV1_3,
}

/// Whether the game itself knows the country of number `value`.
pub open spec fn is_vanilla_country(value: u8) -> bool {
    value == 1 || 8 <= value <= 52 || 64 <= value <= 121 || value == 128 || value == 136 || 144
        <= value <= 145 || 152 <= value <= 156 || value == 160 || 168 <= value <= 177 || value
        == 255
}

/// The list that follows a list, if one does.
pub open spec fn next_versioning(version: LocationVersioning) -> Option<LocationVersioning> {
    match version {
        LocationVersioning::Vanilla => Some(LocationVersioning::ExtendedRegionsV1_0),
        LocationVersioning::ExtendedRegionsV1_0 => Some(LocationVersioning::ExtendedRegionsV1_1),
        LocationVersioning::ExtendedRegionsV1_1 => Some(LocationVersioning::ExtendedRegionsV1_2),
        LocationVersioning::ExtendedRegionsV1_2 => Some(LocationVersioning::ExtendedRegionsV1_3),
        LocationVersioning::ExtendedRegionsV1_3 => None,
    }
}

impl LocationVersioning {
    /// The first list that holds the country of number `value`. The number
    /// 0 names no country.
    pub fn get_min_from_country_id_number(value: u8) -> (r: Self)
        requires
            value != 0,
        ensures
            r == if is_vanilla_country(value) {
                LocationVersioning::Vanilla
            } else {
                LocationVersioning::ExtendedRegionsV1_0
            },
    {
        match value {
            1 | 8..=52 | 64..=121 | 128 | 136 | 144..=145 | 152..=156 | 160 | 168..=177 | 255 => {
                Self::Vanilla
            },
            _ => Self::ExtendedRegionsV1_0,
        }
    }

    pub fn next(self) -> (r: Option<Self>)
        ensures
            r == next_versioning(self),
    {
        match self {
            Self::Vanilla => Some(Self::ExtendedRegionsV1_0),
            Self::ExtendedRegionsV1_0 => Some(Self::ExtendedRegionsV1_1),
            Self::ExtendedRegionsV1_1 => Some(Self::ExtendedRegionsV1_2),
            Self::ExtendedRegionsV1_2 => Some(Self::ExtendedRegionsV1_3),
            Self::ExtendedRegionsV1_3 => None,
        }
    }
}

} // verus!
