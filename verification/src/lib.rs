//! A codec for the save images of the first-generation Pokemon games: the
//! address map, the text codec of name slots, the checksum, the values
//! packed into parts of bytes, the addresses of the storage boxes, and the
//! decoder that builds the trainer, the party and the boxes from the bytes.

#![allow(non_snake_case)]

pub mod addresses;
pub mod bitfield;
pub mod catalog;
pub mod creature_data;
pub mod decoder;
pub mod errors;
pub mod resolve;
pub mod save_loader;
pub mod text;
pub mod utils;
