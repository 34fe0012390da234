//! A ghost file as it stands, field by field: the numbers of the header
//! before anything is made of them.

pub mod header;
