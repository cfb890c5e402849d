//! The wire constants and the data model: typed frames, the closed set of
//! frame types, decode errors, and the three-way parse outcome.

use vstd::prelude::*;

verus! {

/// Frame delimiter sentinel: one `FEND` opens a frame and the next closes it.
pub const FEND: u8 = 0xC0;

/// Escape marker inside a frame's interior.
pub const FESC: u8 = 0xDB;

/// Transposed frame-end token: the pair `FESC TFEND` stands for a literal `FEND`.
pub const TFEND: u8 = 0xDC;

/// Transposed escape token: the pair `FESC TFESC` stands for a literal `FESC`.
pub const TFESC: u8 = 0xDD;

/// The closed set of frame-type codes carried in the low nibble of a header byte.
#[derive(Clone, Copy, Debug, PartialEq, Eq, Structural)]
pub enum FrameType {
    Data,
    TXDelay,
    P,
    SlotTime,
    TXTail,
    FullDuplex,
    SetHardware,
    Return,
}

/// A decoded frame's argument, one variant per frame type.
#[derive(Clone, Debug, PartialEq, Eq)]
pub enum Payload {
    /// Variable-length packet data.
    Data(Vec<u8>),
    /// Transmitter key-up delay, in 10 ms units.
    TXDelay(u8),
    /// Persistence parameter for slotted CSMA.
    P(u8),
    /// Slot duration, in 10 ms units.
    SlotTime(u8),
    /// Time after the last data before unkeying.
    TXTail(u8),
    /// Half/full duplex mode (a nonzero argument byte means full duplex).
    FullDuplex(bool),
    /// Hardware-specific configuration blob.
    SetHardware(Vec<u8>),
    /// Signal to exit frame mode; carries no argument.
    Return,
}

/// One successfully decoded frame: a port in `0..=15` and a typed payload.
#[derive(Clone, Debug, PartialEq, Eq)]
pub struct Frame {
    pub port: u8,
    pub payload: Payload,
}

/// The ways a decode can fail. Each is local and non-fatal: a caller recovers
/// by resynchronizing on the next `FEND`.
#[derive(Clone, Copy, Debug, PartialEq, Eq, Structural)]
pub enum DecodeError {
    /// The stream does not start with `FEND`.
    Framing,
    /// The frame's interior holds no header byte.
    HeaderUnderflow,
    /// The header's low nibble matches no defined frame-type code.
    UnknownFrameType,
    /// The Return code was seen with a port other than `0x0F`.
    InvalidReturnPort,
    /// A fixed-size payload got fewer bytes than it requires.
    PayloadUnderflow,
    /// A fixed-size payload got more bytes than it consumes.
    PayloadOverflow,
    /// An expected sentinel or escape token is not at the head of the input.
    UnexpectedToken,
}

/// The three-way outcome of a streaming parse step: success with the number of
/// input bytes consumed, a request for more input, or a decode error.
#[derive(Clone, Debug, PartialEq, Eq)]
pub enum Parsed<T> {
    Complete(usize, T),
    Incomplete,
    Failed(DecodeError),
}

/// Mathematical image of [`Payload`]: byte vectors become sequences.
#[verifier::ext_equal]
pub enum PayloadView {
    Data(Seq<u8>),
    TXDelay(u8),
    P(u8),
    SlotTime(u8),
    TXTail(u8),
    FullDuplex(bool),
    SetHardware(Seq<u8>),
    Return,
}

/// Mathematical image of [`Frame`].
#[verifier::ext_equal]
pub struct FrameView {
    pub port: u8,
    pub payload: PayloadView,
}

impl View for Payload {
    type V = PayloadView;

    open spec fn view(&self) -> PayloadView {
        match self {
            Payload::Data(d) => PayloadView::Data(d@),
            Payload::TXDelay(b) => PayloadView::TXDelay(*b),
            Payload::P(b) => PayloadView::P(*b),
            Payload::SlotTime(b) => PayloadView::SlotTime(*b),
            Payload::TXTail(b) => PayloadView::TXTail(*b),
            Payload::FullDuplex(on) => PayloadView::FullDuplex(*on),
            Payload::SetHardware(d) => PayloadView::SetHardware(d@),
            Payload::Return => PayloadView::Return,
        }
    }
}

impl View for Frame {
    type V = FrameView;

    open spec fn view(&self) -> FrameView {
        FrameView { port: self.port, payload: self.payload@ }
    }
}

/// A frame the decoder can produce: the port fits in a nibble — it is the
/// header's high nibble, so this holds by construction — and `Return` travels
/// only on port `0x0F`.
pub open spec fn valid_frame(f: FrameView) -> bool {
    f.port <= 0x0F && (f.payload is Return ==> f.port == 0x0F)
}

/// Mathematical image of [`Parsed`]: the consumed count becomes an `int`.
#[verifier::ext_equal]
pub enum SpecParsed<T> {
    Complete(int, T),
    Incomplete,
    Failed(DecodeError),
}

/// The image of a parse outcome under the value type's view.
pub open spec fn parsed_view<T: View>(r: Parsed<T>) -> SpecParsed<<T as View>::V> {
    match r {
        Parsed::Complete(n, v) => SpecParsed::Complete(n as int, v@),
        Parsed::Incomplete => SpecParsed::Incomplete,
        Parsed::Failed(e) => SpecParsed::Failed(e),
    }
}

} // verus!
