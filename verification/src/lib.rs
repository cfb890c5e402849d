//! Decoder for the KISS TNC framing protocol: a byte-oriented, escape-delimited
//! envelope that multiplexes command and data frames over one serial byte stream.
//!
//! The crate is layered bottom-up:
//! - [`types`]: the data model shared by every layer;
//! - [`codec`]: the byte-stuffing scheme (`FESC`-escape pairs) and its inverse;
//! - [`decode`]: the header split (port nibble, frame-type nibble) and the
//!   eight fixed-shape payload decoders;
//! - [`deframe`]: locating one frame between `FEND` sentinels and running the
//!   whole pipeline, with an explicit "needs more input" outcome for streams
//!   that end mid-frame;
//! - [`laws`]: proved protocol-level properties (escape inversion, round-trip,
//!   the Return/port binding, streaming equivalence).

pub mod codec;
pub mod decode;
pub mod deframe;
pub mod laws;
pub mod types;

pub use codec::{
    fend, fesc, fesc_other, fesc_tfend, fesc_tfesc, take_frame_data, tfend, tfesc,
    unescape_frame_data,
};
pub use decode::{
    data_frame, frame_content, frame_type_port, fullduplex_frame, p_frame, return_frame,
    sethardware_frame, slot_time_frame, txdelay_frame, txtail_frame,
};
pub use deframe::parse_frame;
pub use types::{DecodeError, Frame, FrameType, Parsed, Payload, FEND, FESC, TFEND, TFESC};
