//! The Mii of the player, as the header of a ghost holds it: 74 bytes in
//! the layout of the Wii's Mii data.

use vstd::prelude::*;
use vstd::slice::slice_subrange;
use std::string::FromUtf16Error;
use crate::byte_handler::bit_at;
use crate::byte_handler::field_at;
use crate::byte_handler::lemma_be_value_unfold;
use crate::byte_handler::view_over;
use crate::byte_handler::ByteHandler;
use crate::byte_handler::ByteHandlerError;
use crate::header::mii::bday::birthday_of;
use crate::header::mii::bday::Birthday;
use crate::header::mii::bday::BirthdayError;
use crate::header::mii::body::build_of;
use crate::header::mii::body::Build;
use crate::header::mii::body::BuildError;
use crate::header::mii::eyebrows::eyebrows_of;
use crate::header::mii::eyebrows::Eyebrows;
use crate::header::mii::eyebrows::EyebrowsError;
use crate::header::mii::eyes::eyes_of;
use crate::header::mii::eyes::Eyes;
use crate::header::mii::eyes::EyesError;
use crate::header::mii::facial_hair::facial_hair_of;
use crate::header::mii::facial_hair::FacialHair;
use crate::header::mii::facial_hair::FacialHairError;
use crate::header::mii::fav_color::fav_color_of;
use crate::header::mii::fav_color::FavColor;
use crate::header::mii::fav_color::FavColorError;
use crate::header::mii::glasses::glasses_of;
use crate::header::mii::glasses::Glasses;
use crate::header::mii::glasses::GlassesError;
use crate::header::mii::hair::hair_of;
use crate::header::mii::hair::Hair;
use crate::header::mii::hair::HairError;
use crate::header::mii::head::head_of;
use crate::header::mii::head::Head;
use crate::header::mii::head::HeadError;
use crate::header::mii::lips::lips_of;
use crate::header::mii::lips::Lips;
use crate::header::mii::lips::LipsError;
use crate::header::mii::mole::mole_of;
use crate::header::mii::mole::Mole;
use crate::header::mii::mole::MoleError;
use crate::header::mii::nose::nose_of;
use crate::header::mii::nose::Nose;
use crate::header::mii::nose::NoseError;

pub mod bday;
pub mod body;
pub mod eyebrows;
pub mod eyes;
pub mod facial_hair;
pub mod fav_color;
pub mod glasses;
pub mod hair;
pub mod head;
pub mod lips;
pub mod mole;
pub mod nose;

verus! {

#[derive(Clone, Copy, Debug, PartialEq, Eq, Structural)]
pub enum MiiError {
    /// A name is no text in UTF-16.
    FromUtf16Error,
    InvalidLength,
    BirthdayError(BirthdayError),
    FavColorError(FavColorError),
    BuildError(BuildError),
    HeadError(HeadError),
    HairError(HairError),
    EyebrowsError(EyebrowsError),
    EyesError(EyesError),
    NoseError(NoseError),
    LipsError(LipsError),
    GlassesError(GlassesError),
    FacialHairError(FacialHairError),
    MoleError(MoleError),
    ByteHandlerError(ByteHandlerError),
}

/// `std::string::FromUtf16Error`, which is handed on unread.
#[verifier::external_type_specification]
#[verifier::external_body]
pub struct ExFromUtf16Error(FromUtf16Error);

/// The text that code units of UTF-16 stand for, or `None` where they stand
/// for none.
pub uninterp spec fn utf16_text(units: Seq<u16>) -> Option<Seq<char>>;

/// `String::from_utf16`: decodes code units of UTF-16, and fails where a
/// surrogate among them has no partner.
pub assume_specification[ String::from_utf16 ](v: &[u16]) -> (r: Result<String, FromUtf16Error>)
    ensures
        match r {
            Ok(text) => utf16_text(v@) == Some(text@),
            Err(_) => utf16_text(v@) is None,
        },
;

/// The number of bytes of a Mii.
pub const MII_LENGTH: usize = 0x4A;

/// The code units that a name field holds: big-endian numbers of two bytes
/// each, up to the first that is zero or to the end of the field.
pub open spec fn name_units(field: Seq<u8>) -> Seq<u16>
    decreases field.len(),
{
    if field.len() < 2 || (field[0] == 0 && field[1] == 0) {
        Seq::empty()
    } else {
        seq![(field[0] * 0x100 + field[1]) as u16] + name_units(
            field.subrange(2, field.len() as int),
        )
    }
}

/// What a Mii holds.
pub struct MiiView {
    pub is_girl: bool,
    pub birthday: (Option<u8>, Option<u8>),
    pub favorite_color: FavColor,
    pub is_favorite: bool,
    pub name: Seq<char>,
    pub build: Build,
    pub mii_id: u32,
    pub system_id: u32,
    pub head: Head,
    pub mingle_off: bool,
    pub downloaded: bool,
    pub hair: Hair,
    pub eyebrows: Eyebrows,
    pub eyes: Eyes,
    pub nose: Nose,
    pub lips: Lips,
    pub glasses: Glasses,
    pub facial_hair: FacialHair,
    pub mole: Mole,
    pub creator_name: Seq<char>,
}

/// The first thing that is wrong with the bytes of a Mii, if anything is.
/// The fields are looked at in their order in the data.
#[verifier::opaque]
pub open spec fn mii_fault(data: Seq<u8>) -> Option<MiiError> {
    if data.len() != MII_LENGTH {
        Some(MiiError::InvalidLength)
    } else if birthday_of(
        field_at(view_over(data, 0, 2), 10, 4) as u8,
        field_at(view_over(data, 0, 2), 5, 5) as u8,
    ) is Err {
        Some(
            MiiError::BirthdayError(
                birthday_of(
                    field_at(view_over(data, 0, 2), 10, 4) as u8,
                    field_at(view_over(data, 0, 2), 5, 5) as u8,
                )->Err_0,
            ),
        )
    } else if fav_color_of(field_at(data[1] as u32, 1, 4) as u8) is Err {
        Some(MiiError::FavColorError(fav_color_of(field_at(data[1] as u32, 1, 4) as u8)->Err_0))
    } else if utf16_text(name_units(data.subrange(0x02, 0x16))) is None {
        Some(MiiError::FromUtf16Error)
    } else if build_of(data[0x16], data[0x17]) is Err {
        Some(MiiError::BuildError(build_of(data[0x16], data[0x17])->Err_0))
    } else if head_of(view_over(data, 0x20, 0x22)) is Err {
        Some(MiiError::HeadError(head_of(view_over(data, 0x20, 0x22))->Err_0))
    } else if hair_of(view_over(data, 0x22, 0x24)) is Err {
        Some(MiiError::HairError(hair_of(view_over(data, 0x22, 0x24))->Err_0))
    } else if eyebrows_of(view_over(data, 0x24, 0x28)) is Err {
        Some(MiiError::EyebrowsError(eyebrows_of(view_over(data, 0x24, 0x28))->Err_0))
    } else if eyes_of(view_over(data, 0x28, 0x2C)) is Err {
        Some(MiiError::EyesError(eyes_of(view_over(data, 0x28, 0x2C))->Err_0))
    } else if nose_of(view_over(data, 0x2C, 0x2E)) is Err {
        Some(MiiError::NoseError(nose_of(view_over(data, 0x2C, 0x2E))->Err_0))
    } else if lips_of(view_over(data, 0x2E, 0x30)) is Err {
        Some(MiiError::LipsError(lips_of(view_over(data, 0x2E, 0x30))->Err_0))
    } else if glasses_of(view_over(data, 0x30, 0x32)) is Err {
        Some(MiiError::GlassesError(glasses_of(view_over(data, 0x30, 0x32))->Err_0))
    } else if facial_hair_of(view_over(data, 0x32, 0x34)) is Err {
        Some(MiiError::FacialHairError(facial_hair_of(view_over(data, 0x32, 0x34))->Err_0))
    } else if utf16_text(name_units(data.subrange(0x36, 0x4A))) is None {
        Some(MiiError::FromUtf16Error)
    } else {
        None
    }
}

/// What the bytes of a Mii hold, where nothing is wrong with them.
#[verifier::opaque]
pub open spec fn mii_of(data: Seq<u8>) -> MiiView {
    MiiView {
        is_girl: bit_at(view_over(data, 0, 2), 14),
        birthday: birthday_of(
            field_at(view_over(data, 0, 2), 10, 4) as u8,
            field_at(view_over(data, 0, 2), 5, 5) as u8,
        )->Ok_0,
        favorite_color: fav_color_of(field_at(data[1] as u32, 1, 4) as u8)->Ok_0,
        is_favorite: data[1] % 2 == 0,
        name: utf16_text(name_units(data.subrange(0x02, 0x16)))->Some_0,
        build: build_of(data[0x16], data[0x17])->Ok_0,
        mii_id: view_over(data, 0x18, 0x1C),
        system_id: view_over(data, 0x1C, 0x20),
        head: head_of(view_over(data, 0x20, 0x22))->Ok_0,
        mingle_off: bit_at(view_over(data, 0x20, 0x22), 2),
        downloaded: bit_at(view_over(data, 0x20, 0x22), 0),
        hair: hair_of(view_over(data, 0x22, 0x24))->Ok_0,
        eyebrows: eyebrows_of(view_over(data, 0x24, 0x28))->Ok_0,
        eyes: eyes_of(view_over(data, 0x28, 0x2C))->Ok_0,
        nose: nose_of(view_over(data, 0x2C, 0x2E))->Ok_0,
        lips: lips_of(view_over(data, 0x2E, 0x30))->Ok_0,
        glasses: glasses_of(view_over(data, 0x30, 0x32))->Ok_0,
        facial_hair: facial_hair_of(view_over(data, 0x32, 0x34))->Ok_0,
        mole: mole_of(view_over(data, 0x34, 0x36)),
        creator_name: utf16_text(name_units(data.subrange(0x36, 0x4A)))->Some_0,
    }
}

pub struct Mii {
    is_girl: bool,
    birthday: Birthday,
    favorite_color: FavColor,
    is_favorite: bool,
    name: String,
    build: Build,
    mii_id: u32,
    system_id: u32,
    head: Head,
    mingle_off: bool,
    downloaded: bool,
    hair: Hair,
    eyebrows: Eyebrows,
    eyes: Eyes,
    nose: Nose,
    lips: Lips,
    glasses: Glasses,
    facial_hair: FacialHair,
    mole: Mole,
    creator_name: String,
}

impl View for Mii {
    type V = MiiView;

    closed spec fn view(&self) -> MiiView {
        MiiView {
            is_girl: self.is_girl,
            birthday: (self.birthday.spec_month(), self.birthday.spec_day()),
            favorite_color: self.favorite_color,
            is_favorite: self.is_favorite,
            name: self.name@,
            build: self.build,
            mii_id: self.mii_id,
            system_id: self.system_id,
            head: self.head,
            mingle_off: self.mingle_off,
            downloaded: self.downloaded,
            hair: self.hair,
            eyebrows: self.eyebrows,
            eyes: self.eyes,
            nose: self.nose,
            lips: self.lips,
            glasses: self.glasses,
            facial_hair: self.facial_hair,
            mole: self.mole,
            creator_name: self.creator_name@,
        }
    }
}

/// Reads the text of a name field.
pub fn utf16be_to_string(bytes: &[u8]) -> (r: Result<String, FromUtf16Error>)
    ensures
        match r {
            Ok(text) => utf16_text(name_units(bytes@)) == Some(text@),
            Err(_) => utf16_text(name_units(bytes@)) is None,
        },
{
    let mut utf16: Vec<u16> = Vec::new();
    let mut i: usize = 0;
    proof {
        assert(bytes@.subrange(0, bytes@.len() as int) =~= bytes@);
        assert(utf16@ + name_units(bytes@) =~= name_units(bytes@));
    }
    while bytes.len() - i >= 2 && !(bytes[i] == 0 && bytes[i + 1] == 0)
        invariant
            i <= bytes@.len(),
            name_units(bytes@) == utf16@ + name_units(
                bytes@.subrange(i as int, bytes@.len() as int),
            ),
        decreases bytes@.len() - i,
    {
        let ghost rest = bytes@.subrange(i as int, bytes@.len() as int);
        proof {
            assert(rest.subrange(2, rest.len() as int) =~= bytes@.subrange(
                i + 2,
                bytes@.len() as int,
            ));
        }
        let ghost before = utf16@;
        utf16.push(bytes[i] as u16 * 0x100 + bytes[i + 1] as u16);
        i += 2;
        proof {
            assert(before + name_units(rest) =~= utf16@ + name_units(
                bytes@.subrange(i as int, bytes@.len() as int),
            ));
        }
    }
    proof {
        let rest = bytes@.subrange(i as int, bytes@.len() as int);
        assert(name_units(rest) =~= Seq::empty());
        assert(utf16@ + name_units(rest) =~= utf16@);
    }
    String::from_utf16(utf16.as_slice())
}

impl Mii {
    /// Reads a Mii out of its 74 bytes.
    pub fn new(mii_data: &[u8]) -> (r: Result<Self, MiiError>)
        ensures
            match r {
                Ok(mii) => mii_fault(mii_data@) is None && mii@ == mii_of(mii_data@),
                Err(e) => mii_fault(mii_data@) == Some(e),
            },
    {
        proof {
            reveal(mii_fault);
            reveal(mii_of);
        }
        if mii_data.len() != MII_LENGTH {
            return Err(MiiError::InvalidLength);
        }
        let bytes = ByteHandler::over(mii_data, 0, 2);
        let is_girl = bytes.read_bool(14);
        let birthday = match Birthday::from_byte_handler(bytes) {
            Ok(birthday) => birthday,
            Err(e) => {
                return Err(MiiError::BirthdayError(e));
            },
        };

        let favorite_color = match FavColor::from_byte_handler(ByteHandler::from(mii_data[1])) {
            Ok(favorite_color) => favorite_color,
            Err(e) => {
                return Err(MiiError::FavColorError(e));
            },
        };
        let is_favorite = mii_data[1] % 2 == 0;

        let name = match utf16be_to_string(slice_subrange(mii_data, 0x02, 0x16)) {
            Ok(name) => name,
            Err(_) => {
                return Err(MiiError::FromUtf16Error);
            },
        };

        let build_bytes = ByteHandler::over(mii_data, 0x16, 0x18);
        proof {
            let field = mii_data@.subrange(0x16, 0x18);
            lemma_be_value_unfold(field);
            vstd::arithmetic::power2::lemma2_to64();
            let word = view_over(mii_data@, 0x16, 0x18);
            assert(word == field[0] * 0x100 + field[1]);
            assert(field_at(word, 8, 8) == field[0]);
            assert(field_at(word, 0, 8) == field[1]);
        }
        let build = match Build::from_byte_handler(build_bytes) {
            Ok(build) => build,
            Err(e) => {
                return Err(MiiError::BuildError(e));
            },
        };

        let mii_id = ByteHandler::over(mii_data, 0x18, 0x1C).copy_dword();
        let system_id = ByteHandler::over(mii_data, 0x1C, 0x20).copy_dword();

        let bytes = ByteHandler::over(mii_data, 0x20, 0x22);
        let mingle_off = bytes.read_bool(2);
        let downloaded = bytes.read_bool(0);
        let head = match Head::from_byte_handler(bytes) {
            Ok(head) => head,
            Err(e) => {
                return Err(MiiError::HeadError(e));
            },
        };
        let hair = match Hair::from_byte_handler(ByteHandler::over(mii_data, 0x22, 0x24)) {
            Ok(hair) => hair,
            Err(e) => {
                return Err(MiiError::HairError(e));
            },
        };
        let eyebrows = match Eyebrows::from_byte_handler(ByteHandler::over(mii_data, 0x24, 0x28)) {
            Ok(eyebrows) => eyebrows,
            Err(e) => {
                return Err(MiiError::EyebrowsError(e));
            },
        };
        let eyes = match Eyes::from_byte_handler(ByteHandler::over(mii_data, 0x28, 0x2C)) {
            Ok(eyes) => eyes,
            Err(e) => {
                return Err(MiiError::EyesError(e));
            },
        };
        let nose = match Nose::from_byte_handler(ByteHandler::over(mii_data, 0x2C, 0x2E)) {
            Ok(nose) => nose,
            Err(e) => {
                return Err(MiiError::NoseError(e));
            },
        };
        let lips = match Lips::from_byte_handler(ByteHandler::over(mii_data, 0x2E, 0x30)) {
            Ok(lips) => lips,
            Err(e) => {
                return Err(MiiError::LipsError(e));
            },
        };
        let glasses = match Glasses::from_byte_handler(ByteHandler::over(mii_data, 0x30, 0x32)) {
            Ok(glasses) => glasses,
            Err(e) => {
                return Err(MiiError::GlassesError(e));
            },
        };
        let facial_hair = match FacialHair::from_byte_handler(
            ByteHandler::over(mii_data, 0x32, 0x34),
        ) {
            Ok(facial_hair) => facial_hair,
            Err(e) => {
                return Err(MiiError::FacialHairError(e));
            },
        };
        let mole = match Mole::from_byte_handler(ByteHandler::over(mii_data, 0x34, 0x36)) {
            Ok(mole) => mole,
            Err(e) => {
                return Err(MiiError::MoleError(e));
            },
        };

        let creator_name = match utf16be_to_string(slice_subrange(mii_data, 0x36, 0x4A)) {
            Ok(creator_name) => creator_name,
            Err(_) => {
                return Err(MiiError::FromUtf16Error);
            },
        };

        Ok(
            Self {
                is_girl,
                birthday,
                favorite_color,
                is_favorite,
                name,
                build,
                mii_id,
                system_id,
                head,
                mingle_off,
                downloaded,
                hair,
                eyebrows,
                eyes,
                nose,
                lips,
                glasses,
                facial_hair,
                mole,
                creator_name,
            },
        )
    }

    pub fn is_girl(&self) -> (r: bool)
        ensures
            r == self@.is_girl,
    {
        self.is_girl
    }

    pub fn birthday(&self) -> (r: Birthday)
        ensures
            (r.spec_month(), r.spec_day()) == self@.birthday,
    {
        self.birthday
    }

    pub fn favorite_color(&self) -> (r: FavColor)
        ensures
            r == self@.favorite_color,
    {
        self.favorite_color
    }

    pub fn is_favorite(&self) -> (r: bool)
        ensures
            r == self@.is_favorite,
    {
        self.is_favorite
    }

    pub fn name(&self) -> (r: &str)
        ensures
            r@ == self@.name,
    {
        self.name.as_str()
    }

    pub fn build(&self) -> (r: Build)
        ensures
            r == self@.build,
    {
        self.build
    }

    pub fn mii_id(&self) -> (r: u32)
        ensures
            r == self@.mii_id,
    {
        self.mii_id
    }

    pub fn system_id(&self) -> (r: u32)
        ensures
            r == self@.system_id,
    {
        self.system_id
    }

    pub fn head(&self) -> (r: Head)
        ensures
            r == self@.head,
    {
        self.head
    }

    pub fn mingle_off(&self) -> (r: bool)
        ensures
            r == self@.mingle_off,
    {
        self.mingle_off
    }

    pub fn downloaded(&self) -> (r: bool)
        ensures
            r == self@.downloaded,
    {
        self.downloaded
    }

    pub fn hair(&self) -> (r: Hair)
        ensures
            r == self@.hair,
    {
        self.hair
    }

    pub fn eyebrows(&self) -> (r: &Eyebrows)
        ensures
            *r == self@.eyebrows,
    {
        &self.eyebrows
    }

    pub fn eyes(&self) -> (r: &Eyes)
        ensures
            *r == self@.eyes,
    {
        &self.eyes
    }

    pub fn nose(&self) -> (r: Nose)
        ensures
            r == self@.nose,
    {
        self.nose
    }

    pub fn lips(&self) -> (r: Lips)
        ensures
            r == self@.lips,
    {
        self.lips
    }

    pub fn glasses(&self) -> (r: Glasses)
        ensures
            r == self@.glasses,
    {
        self.glasses
    }

    pub fn facial_hair(&self) -> (r: &FacialHair)
        ensures
            *r == self@.facial_hair,
    {
        &self.facial_hair
    }

    pub fn mole(&self) -> (r: Mole)
        ensures
            r == self@.mole,
    {
        self.mole
    }

    pub fn creator_name(&self) -> (r: &str)
        ensures
            r@ == self@.creator_name,
    {
        self.creator_name.as_str()
    }
}

} // verus!
