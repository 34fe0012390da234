//! A whole ghost file: the header, the input region behind it, and what
//! ends the file, which is the footer of CTGP or the checksum of the game.

use vstd::prelude::*;
use vstd::slice::slice_subrange;
use crate::ctgp_metadata::decode_footer_length_and_tag;
use crate::ctgp_metadata::footer_fault;
use crate::ctgp_metadata::footer_length;
use crate::ctgp_metadata::footer_of;
use crate::ctgp_metadata::is_ctgp;
use crate::ctgp_metadata::CTGPMetadata;
use crate::ctgp_metadata::CTGPMetadataError;
use crate::ctgp_metadata::CTGPMetadataView;
use crate::header::header_fault;
use crate::header::header_of;
use crate::header::Header;
use crate::header::HeaderError;
use crate::header::HeaderView;
use crate::header::HEADER_LENGTH;
use crate::input_data::decoded_streams;
use crate::input_data::input_payload;
use crate::input_data::is_packed;
use crate::input_data::unpack_input;
use crate::input_data::InputData;
use crate::input_data::InputDataError;
use crate::input_data::InputDataView;

verus! {

#[derive(Debug)]
pub enum GhostFileError {
    /// The file is shorter than a header and what ends the file.
    TooShort,
    HeaderError(HeaderError),
    InputDataError(InputDataError),
    /// The input region is packed and unpacks to another length than the
    /// header tells.
    InputLengthMismatch,
    CTGPMetadataError(CTGPMetadataError),
}

/// The number of bytes of the checksum that ends a file of the game.
pub const CHECKSUM_LENGTH: usize = 4;

/// The number of bytes behind the input region: those of the footer of
/// CTGP, where the file has one, else those of the checksum.
pub open spec fn tail_length(data: Seq<u8>) -> int {
    if is_ctgp(data) {
        footer_length(data) as int
    } else {
        CHECKSUM_LENGTH as int
    }
}

/// The input region of a file: what stands between the header and the
/// tail.
pub open spec fn region_of(data: Seq<u8>) -> Seq<u8> {
    data.subrange(HEADER_LENGTH as int, data.len() - tail_length(data))
}

/// The first thing that is wrong with a file, if anything is. The length of
/// the file is looked at first, then the header, the input region, and the
/// footer.
pub open spec fn ghost_file_fault(data: Seq<u8>) -> Option<GhostFileError> {
    if data.len() < HEADER_LENGTH + tail_length(data) {
        Some(GhostFileError::TooShort)
    } else if header_fault(data.subrange(0, HEADER_LENGTH as int)) is Some {
        Some(
            GhostFileError::HeaderError(
                header_fault(data.subrange(0, HEADER_LENGTH as int))->Some_0,
            ),
        )
    } else if input_payload(region_of(data)) is Err {
        Some(GhostFileError::InputDataError(input_payload(region_of(data))->Err_0))
    } else if is_packed(region_of(data)) && input_payload(region_of(data))->Ok_0.len()
        != header_of(data.subrange(0, HEADER_LENGTH as int)).decompressed_input_data_length {
        Some(GhostFileError::InputLengthMismatch)
    } else if decoded_streams(input_payload(region_of(data))->Ok_0) is Err {
        Some(
            GhostFileError::InputDataError(
                decoded_streams(input_payload(region_of(data))->Ok_0)->Err_0,
            ),
        )
    } else if is_ctgp(data) && footer_fault(data) is Some {
        Some(GhostFileError::CTGPMetadataError(footer_fault(data)->Some_0))
    } else {
        None
    }
}

/// What a ghost file holds.
pub struct GhostFileView {
    pub header: HeaderView,
    pub input_data: InputDataView,
    pub ctgp_metadata: Option<CTGPMetadataView>,
}

/// What a file holds, where nothing is wrong with it.
pub open spec fn ghost_file_of(data: Seq<u8>) -> GhostFileView {
    GhostFileView {
        header: header_of(data.subrange(0, HEADER_LENGTH as int)),
        input_data: decoded_streams(input_payload(region_of(data))->Ok_0)->Ok_0,
        ctgp_metadata: if is_ctgp(data) {
            Some(footer_of(data))
        } else {
            None
        },
    }
}

/// A ghost: its header, its input data and, where it has one, its footer of
/// CTGP.
pub struct GhostFile {
    header: Header,
    input_data: InputData,
    ctgp_metadata: Option<CTGPMetadata>,
}

impl View for GhostFile {
    type V = GhostFileView;

    closed spec fn view(&self) -> GhostFileView {
        GhostFileView {
            header: self.header@,
            input_data: self.input_data@,
            ctgp_metadata: match self.ctgp_metadata {
                Some(footer) => Some(footer@),
                None => None,
            },
        }
    }
}

impl GhostFile {
    /// Reads a ghost out of the bytes of its file.
    pub fn new(bytes: &[u8]) -> (r: Result<Self, GhostFileError>)
        ensures
            match r {
                Ok(ghost) => ghost_file_fault(bytes@) is None && ghost@ == ghost_file_of(bytes@),
                Err(e) => ghost_file_fault(bytes@) == Some(e),
            },
    {
        let (tagged, footer_length) = decode_footer_length_and_tag(bytes);
        let tail: usize = if tagged {
            footer_length as usize
        } else {
            CHECKSUM_LENGTH
        };
        if bytes.len() < HEADER_LENGTH || bytes.len() - HEADER_LENGTH < tail {
            return Err(GhostFileError::TooShort);
        }
        let header = match Header::new(slice_subrange(bytes, 0, HEADER_LENGTH)) {
            Ok(header) => header,
            Err(e) => {
                return Err(GhostFileError::HeaderError(e));
            },
        };
        let region = slice_subrange(bytes, HEADER_LENGTH, bytes.len() - tail);
        let packed = region.len() >= 8 && region[4] == 0x59 && region[5] == 0x61 && region[6]
            == 0x7A && region[7] == 0x31;
        proof {
            if region@.len() >= 8 {
                let tag = region@.subrange(4, 8);
                assert(tag[0] == region@[4] && tag[1] == region@[5] && tag[2] == region@[6]
                    && tag[3] == region@[7]);
                if packed {
                    assert(tag =~= crate::input_data::yaz1::yaz1_magic());
                }
            }
        }
        let payload = match unpack_input(region) {
            Ok(payload) => payload,
            Err(e) => {
                return Err(GhostFileError::InputDataError(e));
            },
        };
        if packed && payload.len() != header.decompressed_input_data_length() as usize {
            return Err(GhostFileError::InputLengthMismatch);
        }
        let input_data = match InputData::from_unpacked(payload.as_slice()) {
            Ok(input_data) => input_data,
            Err(e) => {
                return Err(GhostFileError::InputDataError(e));
            },
        };
        let ctgp_metadata = if tagged {
            match CTGPMetadata::new(bytes) {
                Ok(footer) => Some(footer),
                Err(e) => {
                    return Err(GhostFileError::CTGPMetadataError(e));
                },
            }
        } else {
            None
        };
        Ok(Self { header, input_data, ctgp_metadata })
    }

    pub fn header(&self) -> (r: &Header)
        ensures
            r@ == self@.header,
    {
        &self.header
    }

    pub fn input_data(&self) -> (r: &InputData)
        ensures
            r@ == self@.input_data,
    {
        &self.input_data
    }

    pub fn ctgp_metadata(&self) -> (r: Option<&CTGPMetadata>)
        ensures
            match r {
                Some(footer) => self@.ctgp_metadata == Some(footer@),
                None => self@.ctgp_metadata is None,
            },
    {
        self.ctgp_metadata.as_ref()
    }
}

} // verus!
