//! Byte rotation of a 4-byte word, as used in key schedules, with the
//! permissive hex decoding and the padded hex output around it.

pub mod rotate;
pub mod hexcode;
pub mod command;
