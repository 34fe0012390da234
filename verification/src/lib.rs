//! Decoder for Mario Kart Wii ghost replays (RKG files): the fixed header, the
//! controller input streams with their compression, and the metadata footer
//! that CTGP appends.

pub mod bit_reader;
pub mod byte_handler;
pub mod ctgp_metadata;
pub mod ghost_file;
pub mod header;
pub mod input_data;
pub mod rkg;
pub mod text;
