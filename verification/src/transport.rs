//! The vocabulary shared with the transport: the requests that the context
//! hands out and the answers that it takes back, as plain values.

use vstd::prelude::*;

verus! {

/// One of the two selection buffers of a session.
#[derive(Clone, Copy, Debug, PartialEq, Eq, Structural)]
pub enum SelectionKind {
    /// The conventional copy and paste buffer. Always assumed available.
    Regular,
    /// The buffer that follows text highlighting. Optional.
    Primary,
}

/// The buffers that a copy or a clear works on, in one request.
#[derive(Clone, Copy, Debug, PartialEq, Eq, Structural)]
pub enum SelectionTargets {
    /// The regular clipboard alone.
    Regular,
    /// The primary selection alone.
    Primary,
    /// Both buffers at once.
    Both,
}

impl SelectionTargets {
    /// Whether a request on these targets touches the buffer `kind`.
    pub open spec fn covers(self, kind: SelectionKind) -> bool {
        match self {
            SelectionTargets::Regular => kind == SelectionKind::Regular,
            SelectionTargets::Primary => kind == SelectionKind::Primary,
            SelectionTargets::Both => true,
        }
    }
}

/// The seats that a request is aimed at. The context never names a seat.
#[derive(Clone, Copy, Debug, PartialEq, Eq, Structural)]
pub enum SeatScope {
    /// Whichever seat the compositor reports first: used for reads.
    Unspecified,
    /// Every seat of the session: used for writes and clears.
    All,
}

/// The format that is asked for or offered.
#[derive(Clone, Copy, Debug, PartialEq, Eq, Structural)]
pub enum MimeKind {
    /// Plain text. The only format that the context deals in.
    Text,
    /// Whatever the holder offers or the transport detects.
    Any,
}

/// How many paste requests the transport's responder serves for one copy.
#[derive(Clone, Copy, Debug, PartialEq, Eq, Structural)]
pub enum ServePolicy {
    /// Until the contents are superseded or cleared.
    Unlimited,
    /// The given number of requests and no more.
    Only(usize),
}

/// A request to read one buffer.
#[derive(Clone, Copy, Debug, PartialEq, Eq, Structural)]
pub struct PasteRequest {
    pub selection: SelectionKind,
    pub seat: SeatScope,
    pub mime: MimeKind,
}

/// The read request that the context issues for `kind`: text, from an
/// unspecified seat.
pub open spec fn paste_request(kind: SelectionKind) -> PasteRequest {
    PasteRequest { selection: kind, seat: SeatScope::Unspecified, mime: MimeKind::Text }
}

/// A request to clear buffers.
#[derive(Clone, Copy, Debug, PartialEq, Eq, Structural)]
pub struct ClearRequest {
    pub targets: SelectionTargets,
    pub seat: SeatScope,
}

/// A request to publish bytes.
#[derive(Debug, PartialEq, Eq)]
pub struct CopyRequest {
    pub targets: SelectionTargets,
    pub seat: SeatScope,
    pub mime: MimeKind,
    /// The payload, exactly as it is to be served.
    pub bytes: Vec<u8>,
    /// Whether the transport may drop a trailing newline.
    pub trim_newline: bool,
    /// Whether the transport serves from the calling thread.
    pub foreground: bool,
    pub serve: ServePolicy,
}

/// What the transport answered to the primary-selection support check.
#[derive(Debug, PartialEq, Eq)]
pub enum SupportCheck {
    /// A definite answer.
    Supported(bool),
    /// The session has no seat, so nothing definite can be said.
    NoSeats,
    /// The check itself failed. Carries the transport's description.
    Failed(String),
}

/// What a [`SupportCheck`] stands for in contracts.
pub enum SupportCheckModel {
    Supported(bool),
    NoSeats,
    Failed(Seq<char>),
}

impl View for SupportCheck {
    type V = SupportCheckModel;

    open spec fn view(&self) -> SupportCheckModel {
        match self {
            SupportCheck::Supported(b) => SupportCheckModel::Supported(*b),
            SupportCheck::NoSeats => SupportCheckModel::NoSeats,
            SupportCheck::Failed(m) => SupportCheckModel::Failed(m@),
        }
    }
}

/// Why the transport handed over no byte stream for a [`PasteRequest`].
#[derive(Debug, PartialEq, Eq)]
pub enum PasteFault {
    /// The session has no seat.
    NoSeats,
    /// The buffer of the seat is empty.
    ClipboardEmpty,
    /// The buffer holds something, but not in the format asked for.
    NoMimeType,
    /// Anything else. Carries the transport's description.
    Other(String),
}

/// What a [`PasteFault`] stands for in contracts.
pub enum FaultModel {
    NoSeats,
    ClipboardEmpty,
    NoMimeType,
    Other(Seq<char>),
}

impl FaultModel {
    /// Whether the fault means that there is nothing to read, rather than
    /// that reading went wrong: no seats, an empty buffer, or no text on
    /// offer.
    pub open spec fn is_empty_like(self) -> bool {
        self is NoSeats || self is ClipboardEmpty || self is NoMimeType
    }
}

impl View for PasteFault {
    type V = FaultModel;

    open spec fn view(&self) -> FaultModel {
        match self {
            PasteFault::NoSeats => FaultModel::NoSeats,
            PasteFault::ClipboardEmpty => FaultModel::ClipboardEmpty,
            PasteFault::NoMimeType => FaultModel::NoMimeType,
            PasteFault::Other(m) => FaultModel::Other(m@),
        }
    }
}

/// What the transport answered to a [`PasteRequest`], with the byte stream
/// already drained.
#[derive(Debug, PartialEq, Eq)]
pub enum PasteReply {
    /// The buffer's contents, in full.
    Data(Vec<u8>),
    /// The stream was handed over but draining it failed. Carries the
    /// description of the I/O failure.
    StreamFailed(String),
    /// No stream was handed over.
    Failed(PasteFault),
}

/// What a [`PasteReply`] stands for in contracts.
pub enum ReplyModel {
    Data(Seq<u8>),
    StreamFailed(Seq<char>),
    Failed(FaultModel),
}

impl ReplyModel {
    /// Whether the answer is an empty-like fault.
    pub open spec fn is_empty_like(self) -> bool {
        self matches ReplyModel::Failed(fault) && fault.is_empty_like()
    }
}

impl View for PasteReply {
    type V = ReplyModel;

    open spec fn view(&self) -> ReplyModel {
        match self {
            PasteReply::Data(b) => ReplyModel::Data(b@),
            PasteReply::StreamFailed(m) => ReplyModel::StreamFailed(m@),
            PasteReply::Failed(fault) => ReplyModel::Failed(fault@),
        }
    }
}

/// What the transport answered to a [`CopyRequest`] or a [`ClearRequest`].
#[derive(Debug, PartialEq, Eq)]
pub enum Acknowledgement {
    /// The request was accepted for every targeted buffer.
    Accepted,
    /// The request was rejected as a whole. Carries the transport's
    /// description.
    Failed(String),
}

/// What an [`Acknowledgement`] stands for in contracts.
pub enum AcknowledgementModel {
    Accepted,
    Failed(Seq<char>),
}

impl View for Acknowledgement {
    type V = AcknowledgementModel;

    open spec fn view(&self) -> AcknowledgementModel {
        match self {
            Acknowledgement::Accepted => AcknowledgementModel::Accepted,
            Acknowledgement::Failed(m) => AcknowledgementModel::Failed(m@),
        }
    }
}

} // verus!
