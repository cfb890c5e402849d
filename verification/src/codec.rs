//! The byte-stuffing codec: the two escape pairs, their translation back to
//! literal bytes, and the unescaping of a whole frame interior.
//!
//! The codec has no notion of frame boundaries; it translates tokens at the
//! head of whatever slice it is handed. A bare `FESC` at the end of the
//! available bytes cannot be decided yet, so it yields `Incomplete`.

use vstd::prelude::*;

use crate::types::{DecodeError, Parsed, SpecParsed, parsed_view, FEND, FESC, TFEND, TFESC};

verus! {

/// The literal byte an escape pair `FESC x` stands for. A pair whose second
/// byte is neither transposed token passes that byte through unchanged: a
/// stray escape is discarded rather than treated as fatal.
pub open spec fn unescaped_pair(b: u8) -> u8 {
    if b == TFEND {
        FEND
    } else if b == TFESC {
        FESC
    } else {
        b
    }
}

/// Whether the sequence ends on a token boundary: no bare `FESC` is cut off
/// at the end. Only such sequences unescape completely.
pub open spec fn unescape_ok(s: Seq<u8>) -> bool
    decreases s.len(),
{
    if s.len() == 0 {
        true
    } else if s[0] == FESC {
        s.len() >= 2 && unescape_ok(s.skip(2))
    } else {
        unescape_ok(s.skip(1))
    }
}

/// The unescaped content of a sequence, token by token from the front.
/// Meaningful when `unescape_ok` holds; a trailing bare `FESC` is dropped.
pub open spec fn unescape(s: Seq<u8>) -> Seq<u8>
    decreases s.len(),
{
    if s.len() == 0 {
        Seq::empty()
    } else if s[0] == FESC {
        if s.len() < 2 {
            Seq::empty()
        } else {
            seq![unescaped_pair(s[1])] + unescape(s.skip(2))
        }
    } else {
        seq![s[0]] + unescape(s.skip(1))
    }
}

/// The stuffing of one literal byte: `FEND` and `FESC` become their
/// transposed pairs, every other byte stands for itself.
pub open spec fn escape_byte(b: u8) -> Seq<u8> {
    if b == FEND {
        seq![FESC, TFEND]
    } else if b == FESC {
        seq![FESC, TFESC]
    } else {
        seq![b]
    }
}

/// The stuffing of a whole sequence, byte by byte.
pub open spec fn escape(s: Seq<u8>) -> Seq<u8>
    decreases s.len(),
{
    if s.len() == 0 {
        Seq::empty()
    } else {
        escape_byte(s[0]) + escape(s.skip(1))
    }
}

/// Unescaping distributes over concatenation at a token boundary.
pub proof fn lemma_unescape_append(a: Seq<u8>, b: Seq<u8>)
    requires
        unescape_ok(a),
    ensures
        unescape_ok(a + b) == unescape_ok(b),
        unescape(a + b) == unescape(a) + unescape(b),
    decreases a.len(),
{
    if a.len() == 0 {
        assert(a + b =~= b);
        assert(unescape(a) + unescape(b) =~= unescape(b));
    } else if a[0] == FESC {
        lemma_unescape_append(a.skip(2), b);
        assert((a + b).skip(2) =~= a.skip(2) + b);
        assert(unescape(a + b) =~= unescape(a) + unescape(b));
    } else {
        lemma_unescape_append(a.skip(1), b);
        assert((a + b).skip(1) =~= a.skip(1) + b);
        assert(unescape(a + b) =~= unescape(a) + unescape(b));
    }
}

/// Stuffed output never contains the sentinel `FEND`, so the raw scan for a
/// frame's terminator can never stop inside escaped data.
pub proof fn lemma_escape_no_fend(s: Seq<u8>)
    ensures
        forall|j: int| 0 <= j < escape(s).len() ==> escape(s)[j] != FEND,
    decreases s.len(),
{
    if s.len() > 0 {
        lemma_escape_no_fend(s.skip(1));
        assert forall|j: int| 0 <= j < escape(s).len() implies escape(s)[j] != FEND by {
            let h = escape_byte(s[0]);
            if j >= h.len() {
                assert(escape(s)[j] == escape(s.skip(1))[j - h.len()]);
            }
        }
    }
}

/// What one call of [`take_frame_data`] yields at the head of a sequence.
pub open spec fn spec_take_frame_data(s: Seq<u8>) -> SpecParsed<u8> {
    if s.len() == 0 {
        SpecParsed::Incomplete
    } else if s[0] == FESC {
        if s.len() < 2 {
            SpecParsed::Incomplete
        } else {
            SpecParsed::Complete(2, unescaped_pair(s[1]))
        }
    } else {
        SpecParsed::Complete(1, s[0])
    }
}

/// What matching one expected byte at the head of the input yields.
pub open spec fn spec_match_byte(s: Seq<u8>, t: u8, mismatch: DecodeError) -> SpecParsed<u8> {
    if s.len() == 0 {
        SpecParsed::Incomplete
    } else if s[0] == t {
        SpecParsed::Complete(1, t)
    } else {
        SpecParsed::Failed(mismatch)
    }
}

/// What matching the escape pair `FESC second` at the head of the input
/// yields: `emits` on a full match, `Incomplete` while the pair may still
/// arrive, a failure as soon as a byte rules it out.
pub open spec fn spec_match_escape_pair(s: Seq<u8>, second: u8, emits: u8) -> SpecParsed<u8> {
    if s.len() == 0 {
        SpecParsed::Incomplete
    } else if s[0] != FESC {
        SpecParsed::Failed(DecodeError::UnexpectedToken)
    } else if s.len() == 1 {
        SpecParsed::Incomplete
    } else if s[1] != second {
        SpecParsed::Failed(DecodeError::UnexpectedToken)
    } else {
        SpecParsed::Complete(2, emits)
    }
}

/// What an escape followed by an arbitrary byte yields: the escape is
/// discarded and the byte passes through.
pub open spec fn spec_fesc_other(s: Seq<u8>) -> SpecParsed<u8> {
    if s.len() == 0 {
        SpecParsed::Incomplete
    } else if s[0] != FESC {
        SpecParsed::Failed(DecodeError::UnexpectedToken)
    } else if s.len() == 1 {
        SpecParsed::Incomplete
    } else {
        SpecParsed::Complete(2, s[1])
    }
}

/// Matches one expected byte at the head of the input.
fn match_byte(i: &[u8], t: u8, mismatch: DecodeError) -> (r: Parsed<u8>)
    ensures
        parsed_view(r) == spec_match_byte(i@, t, mismatch),
{
    if i.len() == 0 {
        Parsed::Incomplete
    } else if i[0] == t {
        Parsed::Complete(1, t)
    } else {
        Parsed::Failed(mismatch)
    }
}

/// Matches the frame delimiter `FEND`; its absence is a framing error.
pub fn fend(i: &[u8]) -> (r: Parsed<u8>)
    ensures
        parsed_view(r) == spec_match_byte(i@, FEND, DecodeError::Framing),
{
    match_byte(i, FEND, DecodeError::Framing)
}

/// Matches the escape marker `FESC`.
pub fn fesc(i: &[u8]) -> (r: Parsed<u8>)
    ensures
        parsed_view(r) == spec_match_byte(i@, FESC, DecodeError::UnexpectedToken),
{
    match_byte(i, FESC, DecodeError::UnexpectedToken)
}

/// Matches the transposed frame-end token `TFEND`.
pub fn tfend(i: &[u8]) -> (r: Parsed<u8>)
    ensures
        parsed_view(r) == spec_match_byte(i@, TFEND, DecodeError::UnexpectedToken),
{
    match_byte(i, TFEND, DecodeError::UnexpectedToken)
}

/// Matches the transposed escape token `TFESC`.
pub fn tfesc(i: &[u8]) -> (r: Parsed<u8>)
    ensures
        parsed_view(r) == spec_match_byte(i@, TFESC, DecodeError::UnexpectedToken),
{
    match_byte(i, TFESC, DecodeError::UnexpectedToken)
}

/// Matches the pair `FESC TFEND` and emits the literal `FEND` it stands for.
pub fn fesc_tfend(i: &[u8]) -> (r: Parsed<u8>)
    ensures
        parsed_view(r) == spec_match_escape_pair(i@, TFEND, FEND),
{
    if i.len() == 0 {
        Parsed::Incomplete
    } else if i[0] != FESC {
        Parsed::Failed(DecodeError::UnexpectedToken)
    } else if i.len() == 1 {
        Parsed::Incomplete
    } else if i[1] != TFEND {
        Parsed::Failed(DecodeError::UnexpectedToken)
    } else {
        Parsed::Complete(2, FEND)
    }
}

/// Matches the pair `FESC TFESC` and emits the literal `FESC` it stands for.
pub fn fesc_tfesc(i: &[u8]) -> (r: Parsed<u8>)
    ensures
        parsed_view(r) == spec_match_escape_pair(i@, TFESC, FESC),
{
    if i.len() == 0 {
        Parsed::Incomplete
    } else if i[0] != FESC {
        Parsed::Failed(DecodeError::UnexpectedToken)
    } else if i.len() == 1 {
        Parsed::Incomplete
    } else if i[1] != TFESC {
        Parsed::Failed(DecodeError::UnexpectedToken)
    } else {
        Parsed::Complete(2, FESC)
    }
}

/// Matches `FESC` followed by any byte: the escape is discarded and the byte
/// passes through unchanged. Receipt of a non-transposed byte while escaped
/// is deliberately non-fatal.
pub fn fesc_other(i: &[u8]) -> (r: Parsed<u8>)
    ensures
        parsed_view(r) == spec_fesc_other(i@),
{
    if i.len() == 0 {
        Parsed::Incomplete
    } else if i[0] != FESC {
        Parsed::Failed(DecodeError::UnexpectedToken)
    } else if i.len() == 1 {
        Parsed::Incomplete
    } else {
        Parsed::Complete(2, i[1])
    }
}

/// Takes one unescaped byte from the head of the input, trying the two
/// transposed pairs, then a stray escape, then a plain byte. It never fails:
/// on any nonempty input it either consumes a token or, on a bare trailing
/// `FESC`, asks for more input.
pub fn take_frame_data(i: &[u8]) -> (r: Parsed<u8>)
    ensures
        parsed_view(r) == spec_take_frame_data(i@),
{
    let r1 = fesc_tfend(i);
    match r1 {
        Parsed::Failed(_) => {},
        _ => {
            return r1;
        },
    }
    let r2 = fesc_tfesc(i);
    match r2 {
        Parsed::Failed(_) => {},
        _ => {
            return r2;
        },
    }
    let r3 = fesc_other(i);
    match r3 {
        Parsed::Failed(_) => {},
        _ => {
            return r3;
        },
    }
    // All three escape forms failed, so the input is nonempty and does not
    // start with FESC: take one plain byte.
    Parsed::Complete(1, i[0])
}

/// What unescaping a whole interior yields: everything, when the interior
/// ends on a token boundary; otherwise a request for more input.
pub open spec fn spec_unescape_all(s: Seq<u8>) -> SpecParsed<Seq<u8>> {
    if unescape_ok(s) {
        SpecParsed::Complete(s.len() as int, unescape(s))
    } else {
        SpecParsed::Incomplete
    }
}

/// Unescapes a whole frame interior, producing the ordered literal bytes.
/// The result can be empty (an empty frame). A bare `FESC` at the end of the
/// input cannot be decided and yields `Incomplete`; no input fails.
pub fn unescape_frame_data(i: &[u8]) -> (r: Parsed<Vec<u8>>)
    ensures
        parsed_view(r) == spec_unescape_all(i@),
{
    let mut out: Vec<u8> = Vec::new();
    let mut pos: usize = 0;
    while pos < i.len()
        invariant
            0 <= pos <= i@.len(),
            unescape_ok(i@.take(pos as int)),
            out@ == unescape(i@.take(pos as int)),
        decreases i@.len() - pos,
    {
        let tail = vstd::slice::slice_subrange(i, pos, i.len());
        proof {
            assert(tail@ =~= i@.skip(pos as int));
        }
        let step = take_frame_data(tail);
        match step {
            Parsed::Complete(n, b) => {
                proof {
                    let done = i@.take(pos as int);
                    let sub = i@.skip(pos as int);
                    let tok = sub.take(n as int);
                    assert(i@.take(pos as int + n as int) =~= done + tok);
                    assert(unescape(Seq::<u8>::empty()) == Seq::<u8>::empty());
                    assert(unescape_ok(Seq::<u8>::empty()));
                    if sub[0] == FESC {
                        assert(tok =~= seq![FESC, sub[1]]);
                        assert(tok.skip(2) =~= Seq::<u8>::empty());
                        assert(unescape(tok) =~= seq![b]);
                        assert(unescape_ok(tok));
                    } else {
                        assert(tok =~= seq![sub[0]]);
                        assert(tok.skip(1) =~= Seq::<u8>::empty());
                        assert(unescape(tok) =~= seq![b]);
                        assert(unescape_ok(tok));
                    }
                    lemma_unescape_append(done, tok);
                    assert(out@ + seq![b] =~= unescape(i@.take(pos as int + n as int)));
                }
                out.push(b);
                pos = pos + n;
            },
            Parsed::Incomplete => {
                proof {
                    let done = i@.take(pos as int);
                    let sub = i@.skip(pos as int);
                    assert(sub =~= seq![FESC]);
                    lemma_unescape_append(done, sub);
                    assert(done + sub =~= i@);
                    assert(!unescape_ok(i@));
                }
                return Parsed::Incomplete;
            },
            Parsed::Failed(_) => {
                // take_frame_data never fails, which its contract shows.
                proof {
                    assert(false);
                }
                return Parsed::Incomplete;
            },
        }
    }
    proof {
        assert(i@.take(pos as int) =~= i@);
    }
    Parsed::Complete(pos, out)
}

} // verus!
