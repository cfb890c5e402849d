//! Protocol-level properties, stated over the spec model and proved once for
//! all inputs: the escape codec inverts stuffing, a well-formed frame's wire
//! encoding decodes back to that frame, the Return code is bound to port
//! `0x0F`, and a buffered retry decodes the same frame as one whole read.

use vstd::prelude::*;

use crate::codec::{
    escape, escape_byte, lemma_escape_no_fend, lemma_unescape_append, spec_unescape_all, unescape,
    unescape_ok,
};
use crate::decode::{spec_frame_content, spec_type_code};
use crate::deframe::{
    contains_fend, first_fend, lemma_first_fend, lemma_first_fend_unique, spec_parse_frame,
};
use crate::types::{valid_frame, DecodeError, FrameType, FrameView, PayloadView, SpecParsed, FEND};

verus! {

/// The frame type a payload shape belongs to.
pub open spec fn payload_type(p: PayloadView) -> FrameType {
    match p {
        PayloadView::Data(_) => FrameType::Data,
        PayloadView::TXDelay(_) => FrameType::TXDelay,
        PayloadView::P(_) => FrameType::P,
        PayloadView::SlotTime(_) => FrameType::SlotTime,
        PayloadView::TXTail(_) => FrameType::TXTail,
        PayloadView::FullDuplex(_) => FrameType::FullDuplex,
        PayloadView::SetHardware(_) => FrameType::SetHardware,
        PayloadView::Return => FrameType::Return,
    }
}

/// The argument bytes a payload contributes to a frame's unescaped interior.
pub open spec fn payload_bytes(p: PayloadView) -> Seq<u8> {
    match p {
        PayloadView::Data(d) => d,
        PayloadView::TXDelay(b) => seq![b],
        PayloadView::P(b) => seq![b],
        PayloadView::SlotTime(b) => seq![b],
        PayloadView::TXTail(b) => seq![b],
        PayloadView::FullDuplex(on) => seq![if on { 1u8 } else { 0u8 }],
        PayloadView::SetHardware(d) => d,
        PayloadView::Return => Seq::empty(),
    }
}

/// The header byte a frame encodes to: port in the high nibble, frame-type
/// code in the low nibble.
pub open spec fn header_byte(f: FrameView) -> u8 {
    (f.port << 4) | spec_type_code(payload_type(f.payload))
}

/// The wire encoding of a frame: opening sentinel, stuffed header and
/// payload, closing sentinel.
pub open spec fn frame_bytes(f: FrameView) -> Seq<u8> {
    seq![FEND] + escape(seq![header_byte(f)] + payload_bytes(f.payload)) + seq![FEND]
}

proof fn lemma_nibbles(p: u8, c: u8)
    by (bit_vector)
    requires
        p <= 0x0F,
        c <= 0x0F,
    ensures
        ((p << 4) | c) >> 4 == p,
        ((p << 4) | c) & 0x0F == c,
{
}

/// Law: escape inversion. Unescaping the stuffing of any byte sequence gives
/// the sequence back — including sequences holding the sentinel and escape
/// values as literal data — and stuffed output always ends on a token
/// boundary, so unescaping it consumes it whole.
pub proof fn lemma_unescape_escape(s: Seq<u8>)
    ensures
        unescape_ok(escape(s)),
        unescape(escape(s)) == s,
        spec_unescape_all(escape(s)) == SpecParsed::Complete(escape(s).len() as int, s),
    decreases s.len(),
{
    if s.len() == 0 {
        assert(unescape(escape(s)) =~= s);
    } else {
        lemma_unescape_escape(s.skip(1));
        let h = escape_byte(s[0]);
        assert(unescape_ok(h) && unescape(h) =~= seq![s[0]]) by {
            assert(unescape(Seq::<u8>::empty()) == Seq::<u8>::empty());
            assert(unescape_ok(Seq::<u8>::empty()));
            if s[0] == FEND || s[0] == crate::types::FESC {
                assert(h.skip(2) =~= Seq::<u8>::empty());
            } else {
                assert(h.skip(1) =~= Seq::<u8>::empty());
            }
        }
        lemma_unescape_append(h, escape(s.skip(1)));
        assert(unescape(escape(s)) =~= s);
    }
}

/// Law: round-trip. Decoding the wire encoding of any well-formed frame
/// reproduces exactly that frame and consumes the whole encoding.
pub proof fn lemma_frame_round_trip(f: FrameView)
    requires
        valid_frame(f),
    ensures
        spec_parse_frame(frame_bytes(f)) == SpecParsed::Complete(frame_bytes(f).len() as int, f),
{
    let h = header_byte(f);
    let c = spec_type_code(payload_type(f.payload));
    let u = seq![h] + payload_bytes(f.payload);
    let esc = escape(u);
    let s = frame_bytes(f);
    assert(s[0] == FEND);
    lemma_escape_no_fend(u);
    assert(s.skip(1) =~= esc + seq![FEND]);
    assert(s.skip(1)[esc.len() as int] == FEND);
    assert forall|j: int| 0 <= j < esc.len() implies s.skip(1)[j] != FEND by {
        assert(s.skip(1)[j] == esc[j]);
    }
    lemma_first_fend_unique(s.skip(1), esc.len() as int);
    let t = 1 + first_fend(s.skip(1));
    assert(s.subrange(1, t) =~= esc);
    lemma_unescape_escape(u);
    assert(c <= 0x0F);
    lemma_nibbles(f.port, c);
    assert(u[0] == h);
    assert(u.skip(1) =~= payload_bytes(f.payload));
    let dec = spec_frame_content(u);
    match f.payload {
        PayloadView::Data(d) => {
            assert(dec == Ok::<FrameView, DecodeError>(FrameView { port: f.port, payload: PayloadView::Data(u.skip(1)) }));
            assert(FrameView { port: f.port, payload: PayloadView::Data(u.skip(1)) } =~= f);
        },
        PayloadView::TXDelay(b) => {
            assert(dec == Ok::<FrameView, DecodeError>(FrameView { port: f.port, payload: PayloadView::TXDelay(b) }));
            assert(FrameView { port: f.port, payload: PayloadView::TXDelay(b) } =~= f);
        },
        PayloadView::P(b) => {
            assert(dec == Ok::<FrameView, DecodeError>(FrameView { port: f.port, payload: PayloadView::P(b) }));
            assert(FrameView { port: f.port, payload: PayloadView::P(b) } =~= f);
        },
        PayloadView::SlotTime(b) => {
            assert(dec == Ok::<FrameView, DecodeError>(FrameView { port: f.port, payload: PayloadView::SlotTime(b) }));
            assert(FrameView { port: f.port, payload: PayloadView::SlotTime(b) } =~= f);
        },
        PayloadView::TXTail(b) => {
            assert(dec == Ok::<FrameView, DecodeError>(FrameView { port: f.port, payload: PayloadView::TXTail(b) }));
            assert(FrameView { port: f.port, payload: PayloadView::TXTail(b) } =~= f);
        },
        PayloadView::FullDuplex(on) => {
            assert(u.skip(1)[0] == if on { 1u8 } else { 0u8 });
            assert(dec == Ok::<FrameView, DecodeError>(FrameView { port: f.port, payload: PayloadView::FullDuplex(on) }));
            assert(FrameView { port: f.port, payload: PayloadView::FullDuplex(on) } =~= f);
        },
        PayloadView::SetHardware(d) => {
            assert(dec == Ok::<FrameView, DecodeError>(FrameView { port: f.port, payload: PayloadView::SetHardware(u.skip(1)) }));
            assert(FrameView { port: f.port, payload: PayloadView::SetHardware(u.skip(1)) } =~= f);
        },
        PayloadView::Return => {
            assert(u.skip(1) =~= Seq::<u8>::empty());
            assert(dec == Ok::<FrameView, DecodeError>(FrameView { port: f.port, payload: PayloadView::Return }));
            assert(FrameView { port: f.port, payload: PayloadView::Return } =~= f);
        },
    }
    assert(s.len() == t + 1);
}

/// Law: Return/port binding. For any header byte whose low nibble is the
/// Return code, decode fails with `InvalidReturnPort` on every port other
/// than `0x0F`, and on port `0x0F` decodes to exactly the Return frame.
pub proof fn lemma_return_port_binding(h: u8)
    requires
        h & 0x0F == 0x0F,
    ensures
        h >> 4 != 0x0F ==> spec_frame_content(seq![h]) == Err::<FrameView, DecodeError>(
            DecodeError::InvalidReturnPort,
        ),
        h >> 4 == 0x0F ==> spec_frame_content(seq![h]) == Ok::<FrameView, DecodeError>(
            FrameView { port: 0x0F, payload: PayloadView::Return },
        ),
{
    let s = seq![h];
    assert(s[0] == h);
    assert(s.skip(1) =~= Seq::<u8>::empty());
}

/// Law: decoder invariant. Every frame the interior decoder produces is
/// well-formed — the port is in `0..=15` by construction from the header's
/// high nibble, and `Return` appears only with port `0x0F`.
pub proof fn lemma_decoded_frame_valid(s: Seq<u8>)
    ensures
        spec_frame_content(s) matches Ok(f) ==> valid_frame(f),
{
    if s.len() > 0 {
        let h = s[0];
        assert(h >> 4 <= 0x0F) by (bit_vector);
    }
}

/// Law: pipeline invariant. Every frame the end-to-end pipeline produces is
/// well-formed, and the consumed count covers at least both sentinels and
/// never exceeds the input.
pub proof fn lemma_parse_frame_valid(s: Seq<u8>)
    ensures
        spec_parse_frame(s) matches SpecParsed::Complete(n, f) ==> valid_frame(f) && 2 <= n
            <= s.len(),
{
    if spec_parse_frame(s) is Complete {
        lemma_first_fend(s.skip(1));
        let t = 1 + first_fend(s.skip(1));
        lemma_decoded_frame_valid(unescape(s.subrange(1, t)));
    }
}

/// Law: streaming equivalence. If a whole buffer decodes to a frame, then any
/// shorter prefix only asks for more input — it neither fails nor decodes to
/// something else — and any prefix long enough to hold the frame decodes to
/// the same frame with the same consumed count. A caller that feeds a split
/// buffer through "needs more input" retries therefore ends with the same
/// frame as one that feeds the whole buffer at once.
pub proof fn lemma_streaming_split(s: Seq<u8>, n: int, f: FrameView, k: int)
    requires
        spec_parse_frame(s) == SpecParsed::Complete(n, f),
        0 <= k <= s.len(),
    ensures
        k < n ==> spec_parse_frame(s.take(k)) == SpecParsed::<FrameView>::Incomplete,
        k >= n ==> spec_parse_frame(s.take(k)) == SpecParsed::Complete(n, f),
{
    lemma_first_fend(s.skip(1));
    let t = 1 + first_fend(s.skip(1));
    let p = s.take(k);
    if k == 0 {
    } else if k < n {
        assert(p[0] == FEND);
        assert forall|j: int| 0 <= j < p.skip(1).len() implies p.skip(1)[j] != FEND by {
            assert(p.skip(1)[j] == s.skip(1)[j]);
        }
        assert(!contains_fend(p.skip(1)));
    } else {
        assert(p[0] == FEND);
        assert(p.skip(1)[t - 1] == FEND);
        assert forall|j: int| 0 <= j < t - 1 implies p.skip(1)[j] != FEND by {
            assert(p.skip(1)[j] == s.skip(1)[j]);
        }
        lemma_first_fend_unique(p.skip(1), t - 1);
        assert(p.subrange(1, t) =~= s.subrange(1, t));
    }
}

} // verus!
