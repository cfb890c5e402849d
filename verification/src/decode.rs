//! The frame decoder: splits the header byte of an unescaped interior into a
//! port and a frame type, then dispatches to one of eight fixed-shape payload
//! decoders.
//!
//! The decoder works on a complete interior; it never asks for more input.
//! Fixed-size payloads are held to their exact length: too few bytes is
//! `PayloadUnderflow`, and — as a deliberate strengthening over a lenient
//! reading of the wire rule — trailing bytes after a fixed-size payload are
//! rejected as `PayloadOverflow` rather than silently dropped.

use vstd::prelude::*;

use crate::types::{DecodeError, Frame, FrameType, FrameView, Payload, PayloadView};

verus! {

/// The frame type a low-nibble code names, if any.
pub open spec fn spec_frame_type_of(code: u8) -> Option<FrameType> {
    if code == 0x00 {
        Some(FrameType::Data)
    } else if code == 0x01 {
        Some(FrameType::TXDelay)
    } else if code == 0x02 {
        Some(FrameType::P)
    } else if code == 0x03 {
        Some(FrameType::SlotTime)
    } else if code == 0x04 {
        Some(FrameType::TXTail)
    } else if code == 0x05 {
        Some(FrameType::FullDuplex)
    } else if code == 0x06 {
        Some(FrameType::SetHardware)
    } else if code == 0x0F {
        Some(FrameType::Return)
    } else {
        None
    }
}

/// The low-nibble code of a frame type; the inverse of `spec_frame_type_of`.
pub open spec fn spec_type_code(t: FrameType) -> u8 {
    match t {
        FrameType::Data => 0x00,
        FrameType::TXDelay => 0x01,
        FrameType::P => 0x02,
        FrameType::SlotTime => 0x03,
        FrameType::TXTail => 0x04,
        FrameType::FullDuplex => 0x05,
        FrameType::SetHardware => 0x06,
        FrameType::Return => 0x0F,
    }
}

/// What reading the header byte of an interior yields: the high nibble as the
/// port and the low nibble as a frame type. `Return` is accepted only on port
/// `0x0F`; any other port with that code is a cross-field decode error.
pub open spec fn spec_frame_type_port(s: Seq<u8>) -> Result<(u8, FrameType), DecodeError> {
    if s.len() == 0 {
        Err(DecodeError::HeaderUnderflow)
    } else {
        let port = s[0] >> 4;
        let code = s[0] & 0x0F;
        match spec_frame_type_of(code) {
            None => Err(DecodeError::UnknownFrameType),
            Some(t) => if t is Return && port != 0x0F {
                Err(DecodeError::InvalidReturnPort)
            } else {
                Ok((port, t))
            },
        }
    }
}

/// What decoding the bytes after the header yields for a given frame type.
pub open spec fn spec_decode_payload(t: FrameType, rest: Seq<u8>) -> Result<
    PayloadView,
    DecodeError,
> {
    match t {
        FrameType::Data => Ok(PayloadView::Data(rest)),
        FrameType::TXDelay => if rest.len() < 1 {
            Err(DecodeError::PayloadUnderflow)
        } else if rest.len() > 1 {
            Err(DecodeError::PayloadOverflow)
        } else {
            Ok(PayloadView::TXDelay(rest[0]))
        },
        FrameType::P => if rest.len() < 1 {
            Err(DecodeError::PayloadUnderflow)
        } else if rest.len() > 1 {
            Err(DecodeError::PayloadOverflow)
        } else {
            Ok(PayloadView::P(rest[0]))
        },
        FrameType::SlotTime => if rest.len() < 1 {
            Err(DecodeError::PayloadUnderflow)
        } else if rest.len() > 1 {
            Err(DecodeError::PayloadOverflow)
        } else {
            Ok(PayloadView::SlotTime(rest[0]))
        },
        FrameType::TXTail => if rest.len() < 1 {
            Err(DecodeError::PayloadUnderflow)
        } else if rest.len() > 1 {
            Err(DecodeError::PayloadOverflow)
        } else {
            Ok(PayloadView::TXTail(rest[0]))
        },
        FrameType::FullDuplex => if rest.len() < 1 {
            Err(DecodeError::PayloadUnderflow)
        } else if rest.len() > 1 {
            Err(DecodeError::PayloadOverflow)
        } else {
            Ok(PayloadView::FullDuplex(rest[0] != 0))
        },
        FrameType::SetHardware => Ok(PayloadView::SetHardware(rest)),
        FrameType::Return => if rest.len() == 0 {
            Ok(PayloadView::Return)
        } else {
            Err(DecodeError::PayloadOverflow)
        },
    }
}

/// What decoding a whole unescaped interior yields: header split, the
/// Return/port rule, then payload dispatch on the remainder.
pub open spec fn spec_frame_content(s: Seq<u8>) -> Result<FrameView, DecodeError> {
    match spec_frame_type_port(s) {
        Err(e) => Err(e),
        Ok((port, t)) => match spec_decode_payload(t, s.skip(1)) {
            Ok(p) => Ok(FrameView { port, payload: p }),
            Err(e) => Err(e),
        },
    }
}

/// The image of a payload decode under the payload's view.
pub open spec fn payload_result_view(r: Result<Payload, DecodeError>) -> Result<
    PayloadView,
    DecodeError,
> {
    match r {
        Ok(p) => Ok(p@),
        Err(e) => Err(e),
    }
}

/// The image of a frame decode under the frame's view.
pub open spec fn frame_result_view(r: Result<Frame, DecodeError>) -> Result<
    FrameView,
    DecodeError,
> {
    match r {
        Ok(f) => Ok(f@),
        Err(e) => Err(e),
    }
}

/// Reads the header byte of an unescaped interior: high nibble is the port,
/// low nibble names the frame type. Fails with `HeaderUnderflow` on an empty
/// interior, `UnknownFrameType` on an unassigned code, and
/// `InvalidReturnPort` when the Return code arrives on a port other than
/// `0x0F`.
pub fn frame_type_port(i: &[u8]) -> (r: Result<(u8, FrameType), DecodeError>)
    ensures
        r == spec_frame_type_port(i@),
{
    if i.len() == 0 {
        return Err(DecodeError::HeaderUnderflow);
    }
    let byte: u8 = i[0];
    let port: u8 = byte >> 4;
    let code: u8 = byte & 0x0F;
    let t: FrameType = if code == 0x00 {
        FrameType::Data
    } else if code == 0x01 {
        FrameType::TXDelay
    } else if code == 0x02 {
        FrameType::P
    } else if code == 0x03 {
        FrameType::SlotTime
    } else if code == 0x04 {
        FrameType::TXTail
    } else if code == 0x05 {
        FrameType::FullDuplex
    } else if code == 0x06 {
        FrameType::SetHardware
    } else if code == 0x0F {
        FrameType::Return
    } else {
        return Err(DecodeError::UnknownFrameType);
    };
    if code == 0x0F && port != 0x0F {
        return Err(DecodeError::InvalidReturnPort);
    }
    Ok((port, t))
}

/// Decodes a `Data` payload: the entire remainder, byte for byte, of any
/// length including empty.
pub fn data_frame(i: &[u8]) -> (r: Result<Payload, DecodeError>)
    ensures
        payload_result_view(r) == spec_decode_payload(FrameType::Data, i@),
{
    Ok(Payload::Data(vstd::slice::slice_to_vec(i)))
}

/// Decodes a `TXDelay` payload: exactly one byte, used verbatim.
pub fn txdelay_frame(i: &[u8]) -> (r: Result<Payload, DecodeError>)
    ensures
        payload_result_view(r) == spec_decode_payload(FrameType::TXDelay, i@),
{
    if i.len() < 1 {
        Err(DecodeError::PayloadUnderflow)
    } else if i.len() > 1 {
        Err(DecodeError::PayloadOverflow)
    } else {
        Ok(Payload::TXDelay(i[0]))
    }
}

/// Decodes a `P` (persistence) payload: exactly one byte, used verbatim.
pub fn p_frame(i: &[u8]) -> (r: Result<Payload, DecodeError>)
    ensures
        payload_result_view(r) == spec_decode_payload(FrameType::P, i@),
{
    if i.len() < 1 {
        Err(DecodeError::PayloadUnderflow)
    } else if i.len() > 1 {
        Err(DecodeError::PayloadOverflow)
    } else {
        Ok(Payload::P(i[0]))
    }
}

/// Decodes a `SlotTime` payload: exactly one byte, used verbatim.
pub fn slot_time_frame(i: &[u8]) -> (r: Result<Payload, DecodeError>)
    ensures
        payload_result_view(r) == spec_decode_payload(FrameType::SlotTime, i@),
{
    if i.len() < 1 {
        Err(DecodeError::PayloadUnderflow)
    } else if i.len() > 1 {
        Err(DecodeError::PayloadOverflow)
    } else {
        Ok(Payload::SlotTime(i[0]))
    }
}

/// Decodes a `TXTail` payload: exactly one byte, used verbatim.
pub fn txtail_frame(i: &[u8]) -> (r: Result<Payload, DecodeError>)
    ensures
        payload_result_view(r) == spec_decode_payload(FrameType::TXTail, i@),
{
    if i.len() < 1 {
        Err(DecodeError::PayloadUnderflow)
    } else if i.len() > 1 {
        Err(DecodeError::PayloadOverflow)
    } else {
        Ok(Payload::TXTail(i[0]))
    }
}

/// Decodes a `FullDuplex` payload: exactly one byte; zero means half duplex,
/// any nonzero byte means full duplex.
pub fn fullduplex_frame(i: &[u8]) -> (r: Result<Payload, DecodeError>)
    ensures
        payload_result_view(r) == spec_decode_payload(FrameType::FullDuplex, i@),
{
    if i.len() < 1 {
        Err(DecodeError::PayloadUnderflow)
    } else if i.len() > 1 {
        Err(DecodeError::PayloadOverflow)
    } else {
        Ok(Payload::FullDuplex(i[0] != 0))
    }
}

/// Decodes a `SetHardware` payload: the entire remainder, byte for byte, of
/// any length including empty.
pub fn sethardware_frame(i: &[u8]) -> (r: Result<Payload, DecodeError>)
    ensures
        payload_result_view(r) == spec_decode_payload(FrameType::SetHardware, i@),
{
    Ok(Payload::SetHardware(vstd::slice::slice_to_vec(i)))
}

/// Decodes a `Return` payload: requires and consumes zero remaining bytes.
pub fn return_frame(i: &[u8]) -> (r: Result<Payload, DecodeError>)
    ensures
        payload_result_view(r) == spec_decode_payload(FrameType::Return, i@),
{
    if i.len() == 0 {
        Ok(Payload::Return)
    } else {
        Err(DecodeError::PayloadOverflow)
    }
}

/// Turns one complete unescaped interior into a typed frame: header split,
/// the Return/port rule, then exhaustive dispatch over the eight payload
/// shapes on the remaining bytes.
pub fn frame_content(i: &[u8]) -> (r: Result<Frame, DecodeError>)
    ensures
        frame_result_view(r) == spec_frame_content(i@),
{
    let (port, t) = match frame_type_port(i) {
        Ok(pt) => pt,
        Err(e) => {
            return Err(e);
        },
    };
    let rest = vstd::slice::slice_subrange(i, 1, i.len());
    proof {
        assert(rest@ =~= i@.skip(1));
    }
    let payload = match t {
        FrameType::Data => data_frame(rest),
        FrameType::TXDelay => txdelay_frame(rest),
        FrameType::P => p_frame(rest),
        FrameType::SlotTime => slot_time_frame(rest),
        FrameType::TXTail => txtail_frame(rest),
        FrameType::FullDuplex => fullduplex_frame(rest),
        FrameType::SetHardware => sethardware_frame(rest),
        FrameType::Return => return_frame(rest),
    };
    match payload {
        Ok(p) => Ok(Frame { port, payload: p }),
        Err(e) => Err(e),
    }
}

} // verus!
