//! Protocol engine of a heat pump controller: the serial frame codec, the
//! decoding of status replies, the encoding of setting changes and the
//! decisions of the link cycle.

pub mod codes;
pub mod led;
pub mod link;
pub mod misc;
pub mod packet;
pub mod setting;
pub mod status;
