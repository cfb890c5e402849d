//! The frame deframer and the end-to-end pipeline: locate one complete frame
//! between a leading and a trailing `FEND`, unescape its interior, and decode
//! the result into a typed frame.
//!
//! The scan for the terminating `FEND` is a literal byte search over the raw,
//! still-escaped interior: on the wire `FEND` is never itself escaped inside
//! a frame, so the first `FEND` after the opener closes the frame. While no
//! terminator has arrived the deframer reports `Incomplete` rather than
//! failing, so a caller on a streaming transport can retry the same call with
//! an extended buffer.

use vstd::prelude::*;

use crate::codec::{spec_unescape_all, unescape, unescape_frame_data, unescape_ok};
use crate::decode::{frame_content, frame_result_view, spec_frame_content};
use crate::types::{parsed_view, DecodeError, Frame, FrameView, Parsed, SpecParsed, FEND};

verus! {

/// Whether the sequence holds a `FEND` byte anywhere.
pub open spec fn contains_fend(s: Seq<u8>) -> bool {
    exists|j: int| 0 <= j < s.len() && s[j] == FEND
}

/// The index of the first `FEND` in the sequence (meaningful when
/// `contains_fend` holds).
pub open spec fn first_fend(s: Seq<u8>) -> int
    decreases s.len(),
{
    if s.len() == 0 {
        0
    } else if s[0] == FEND {
        0
    } else {
        1 + first_fend(s.skip(1))
    }
}

/// `first_fend` really is the first occurrence: it lands on a `FEND` and
/// nothing before it is one.
pub proof fn lemma_first_fend(s: Seq<u8>)
    requires
        contains_fend(s),
    ensures
        0 <= first_fend(s) < s.len(),
        s[first_fend(s)] == FEND,
        forall|j: int| 0 <= j < first_fend(s) ==> s[j] != FEND,
    decreases s.len(),
{
    if s[0] != FEND {
        assert(contains_fend(s.skip(1))) by {
            let w = choose|j: int| 0 <= j < s.len() && s[j] == FEND;
            assert(s.skip(1)[w - 1] == FEND);
        }
        lemma_first_fend(s.skip(1));
        assert forall|j: int| 0 <= j < first_fend(s) implies s[j] != FEND by {
            if j > 0 {
                assert(s.skip(1)[j - 1] != FEND);
            }
        }
    }
}

/// Any index that lands on a `FEND` with none before it is `first_fend`.
pub proof fn lemma_first_fend_unique(s: Seq<u8>, t: int)
    requires
        0 <= t < s.len(),
        s[t] == FEND,
        forall|j: int| 0 <= j < t ==> s[j] != FEND,
    ensures
        contains_fend(s),
        first_fend(s) == t,
    decreases s.len(),
{
    if t > 0 {
        assert(s.skip(1)[t - 1] == FEND);
        assert forall|j: int| 0 <= j < t - 1 implies s.skip(1)[j] != FEND by {
            assert(s[j + 1] != FEND);
        }
        lemma_first_fend_unique(s.skip(1), t - 1);
        let w = choose|j: int| 0 <= j < s.skip(1).len() && s.skip(1)[j] == FEND;
        assert(s[w + 1] == FEND);
    }
}

/// What the end-to-end pipeline yields on a raw byte stream: the stream must
/// open with `FEND`; the interior runs to the next raw `FEND`; the interior
/// is unescaped and decoded; on success the consumed count covers both
/// sentinels. Needs more input while the stream is empty, the terminator has
/// not arrived, or the interior is cut off mid-escape.
pub open spec fn spec_parse_frame(s: Seq<u8>) -> SpecParsed<FrameView> {
    if s.len() == 0 {
        SpecParsed::Incomplete
    } else if s[0] != FEND {
        SpecParsed::Failed(DecodeError::Framing)
    } else if !contains_fend(s.skip(1)) {
        SpecParsed::Incomplete
    } else {
        let t = 1 + first_fend(s.skip(1));
        let interior = s.subrange(1, t);
        if !unescape_ok(interior) {
            SpecParsed::Incomplete
        } else {
            match spec_frame_content(unescape(interior)) {
                Ok(f) => SpecParsed::Complete(t + 1, f),
                Err(e) => SpecParsed::Failed(e),
            }
        }
    }
}

/// Decodes the next frame from the head of a raw byte stream.
///
/// On success the result carries the number of bytes consumed, opener and
/// terminator included, so the caller can advance a cursor and decode the
/// next frame from the remainder. `Incomplete` asks the caller to retry the
/// same call with more bytes; every failure leaves the input untouched, so a
/// caller may resynchronize by scanning forward for the next `FEND`.
pub fn parse_frame(i: &[u8]) -> (r: Parsed<Frame>)
    ensures
        parsed_view(r) == spec_parse_frame(i@),
{
    if i.len() == 0 {
        return Parsed::Incomplete;
    }
    if i[0] != FEND {
        return Parsed::Failed(DecodeError::Framing);
    }
    let mut e: usize = 1;
    while e < i.len() && i[e] != FEND
        invariant
            1 <= e <= i@.len(),
            forall|j: int| 1 <= j < e ==> i@[j] != FEND,
        decreases i@.len() - e,
    {
        e = e + 1;
    }
    if e == i.len() {
        proof {
            assert forall|j: int| 0 <= j < i@.skip(1).len() implies i@.skip(1)[j] != FEND by {
                assert(i@[j + 1] != FEND);
            }
            assert(!contains_fend(i@.skip(1)));
        }
        return Parsed::Incomplete;
    }
    proof {
        assert(i@.skip(1)[e - 1] == FEND);
        assert forall|j: int| 0 <= j < e - 1 implies i@.skip(1)[j] != FEND by {
            assert(i@[j + 1] != FEND);
        }
        lemma_first_fend_unique(i@.skip(1), e - 1);
    }
    let interior = vstd::slice::slice_subrange(i, 1, e);
    match unescape_frame_data(interior) {
        Parsed::Complete(_consumed, bytes) => {
            match frame_content(bytes.as_slice()) {
                Ok(f) => Parsed::Complete(e + 1, f),
                Err(er) => Parsed::Failed(er),
            }
        },
        Parsed::Incomplete => Parsed::Incomplete,
        Parsed::Failed(_) => {
            // Unescaping never fails, which its contract shows.
            proof {
                assert(false);
            }
            Parsed::Incomplete
        },
    }
}

} // verus!
