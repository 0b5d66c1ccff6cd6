//! The clipboard context: one cached capability flag, and the rules that
//! turn it into requests to the transport and answers into results.

use vstd::prelude::*;
use vstd::string::StrSliceExecFns;
use vstd::utf8::encode_utf8;
use crate::error::{text_model, unit_model, ClipboardError, ErrorModel, TextModel};
use crate::text::{decoded, read_into_string};
use crate::transport::{
    paste_request, Acknowledgement, AcknowledgementModel, ClearRequest, CopyRequest, FaultModel,
    MimeKind, PasteFault, PasteReply, PasteRequest, ReplyModel, SeatScope, SelectionKind,
    SelectionTargets, ServePolicy, SupportCheck, SupportCheckModel,
};

verus! {

/// What drives a read forward.
#[derive(Debug, PartialEq, Eq)]
pub enum ReadEvent {
    /// The caller asks for the contents; nothing has been requested yet.
    Begin,
    /// The transport answered the request for the buffer `asked`.
    Reply { asked: SelectionKind, reply: PasteReply },
}

/// What a [`ReadEvent`] stands for in contracts.
pub enum EventModel {
    Begin,
    Reply { asked: SelectionKind, reply: ReplyModel },
}

impl View for ReadEvent {
    type V = EventModel;

    open spec fn view(&self) -> EventModel {
        match self {
            ReadEvent::Begin => EventModel::Begin,
            ReadEvent::Reply { asked, reply } => EventModel::Reply { asked: *asked, reply: reply@ },
        }
    }
}

/// What a read does next.
#[derive(Debug, PartialEq, Eq)]
pub enum ReadStep {
    /// Carry out this request and come back with the transport's answer.
    Ask(PasteRequest),
    /// The read is over, with this outcome.
    Done(Result<String, ClipboardError>),
}

/// What a [`ReadStep`] stands for in contracts.
pub enum StepModel {
    Ask(PasteRequest),
    Done(TextModel),
}

impl View for ReadStep {
    type V = StepModel;

    open spec fn view(&self) -> StepModel {
        match self {
            ReadStep::Ask(request) => StepModel::Ask(*request),
            ReadStep::Done(outcome) => StepModel::Done(text_model(*outcome)),
        }
    }
}

/// The buffer that a read turns to first.
pub open spec fn first_asked(supports_primary: bool) -> SelectionKind {
    if supports_primary {
        SelectionKind::Primary
    } else {
        SelectionKind::Regular
    }
}

/// The buffers that a write or a clear works on.
pub open spec fn write_targets(supports_primary: bool) -> SelectionTargets {
    if supports_primary {
        SelectionTargets::Both
    } else {
        SelectionTargets::Regular
    }
}

/// The rule of the read path, one event at a time.
///
/// A read begins at the primary selection where it is supported and at the
/// regular clipboard where it is not. Contents end the read with their
/// decoding. An empty-like fault of the primary selection sends the read on
/// to the regular clipboard; of the regular clipboard, it ends the read with
/// the empty string. Every other answer ends the read with its failure.
pub open spec fn read_step(supports_primary: bool, event: EventModel) -> StepModel {
    match event {
        EventModel::Begin => StepModel::Ask(paste_request(first_asked(supports_primary))),
        EventModel::Reply { asked, reply } => match reply {
            ReplyModel::Data(bytes) => StepModel::Done(decoded(bytes)),
            ReplyModel::StreamFailed(m) => StepModel::Done(Err(ErrorModel::Stream(m))),
            ReplyModel::Failed(FaultModel::Other(m)) => StepModel::Done(
                Err(ErrorModel::Transport(m)),
            ),
            ReplyModel::Failed(_) => match asked {
                SelectionKind::Primary => StepModel::Ask(paste_request(SelectionKind::Regular)),
                SelectionKind::Regular => StepModel::Done(Ok(Seq::empty())),
            },
        },
    }
}

/// The outcome of construction, given what the support check answered.
pub open spec fn detected(check: SupportCheckModel) -> Result<bool, ErrorModel> {
    match check {
        SupportCheckModel::Supported(b) => Ok(b),
        SupportCheckModel::NoSeats => Ok(false),
        SupportCheckModel::Failed(m) => Err(ErrorModel::EnvironmentUnavailable(m)),
    }
}

/// The outcome of a write or a clear, given what the transport answered.
pub open spec fn acknowledged(ack: AcknowledgementModel) -> Result<(), ErrorModel> {
    match ack {
        AcknowledgementModel::Accepted => Ok(()),
        AcknowledgementModel::Failed(m) => Err(ErrorModel::Transport(m)),
    }
}

/// Interface to the clipboard of a Wayland session.
///
/// The context detects once, at construction, whether the session supports
/// the primary selection, and consults that answer ever after. Other clients
/// see what was copied only as long as the copying process lives.
#[derive(Clone, Copy, Debug, PartialEq, Eq)]
pub struct WaylandClipboardContext {
    supports_primary_selection: bool,
}

impl WaylandClipboardContext {
    /// Whether this context uses the primary selection.
    pub closed spec fn supports_primary(&self) -> bool {
        self.supports_primary_selection
    }

    /// Builds a context from the transport's answer to the support check.
    ///
    /// A session without seats gives a context without primary selection, not
    /// a failure. A definite answer is taken as it is. A failed check fails
    /// the construction with [`ClipboardError::EnvironmentUnavailable`].
    pub fn new(check: SupportCheck) -> (r: Result<WaylandClipboardContext, ClipboardError>)
        ensures
            match detected(check@) {
                Ok(b) => r matches Ok(ctx) && ctx.supports_primary() == b,
                Err(e) => r matches Err(err) && err@ == e,
            },
    {
        let supports_primary_selection = match check {
            SupportCheck::Supported(v) => v,
            SupportCheck::NoSeats => false,
            SupportCheck::Failed(message) => {
                return Err(ClipboardError::EnvironmentUnavailable(message));
            },
        };
        Ok(WaylandClipboardContext { supports_primary_selection })
    }

    /// The capability flag that construction fixed.
    pub fn supports_primary_selection(&self) -> (b: bool)
        ensures
            b == self.supports_primary(),
    {
        self.supports_primary_selection
    }

    /// Advances a paste from the clipboard by one event.
    ///
    /// Call it with [`ReadEvent::Begin`], carry out each request it asks
    /// for, and hand the answer back, until it is done. An empty clipboard
    /// is not an error; contents that are not valid UTF-8 are.
    pub fn get_contents(&self, event: ReadEvent) -> (step: ReadStep)
        ensures
            step@ == read_step(self.supports_primary(), event@),
    {
        match event {
            ReadEvent::Begin => {
                let selection = if self.supports_primary_selection {
                    SelectionKind::Primary
                } else {
                    SelectionKind::Regular
                };
                ReadStep::Ask(Self::text_request(selection))
            },
            ReadEvent::Reply { asked, reply } => match reply {
                PasteReply::Data(bytes) => ReadStep::Done(read_into_string(bytes)),
                PasteReply::StreamFailed(message) => ReadStep::Done(
                    Err(ClipboardError::Stream(message)),
                ),
                PasteReply::Failed(fault) => match fault {
                    PasteFault::Other(message) => ReadStep::Done(
                        Err(ClipboardError::Transport(message)),
                    ),
                    PasteFault::NoSeats | PasteFault::ClipboardEmpty | PasteFault::NoMimeType => {
                        match asked {
                            SelectionKind::Primary => ReadStep::Ask(
                                Self::text_request(SelectionKind::Regular),
                            ),
                            SelectionKind::Regular => ReadStep::Done(Ok(String::new())),
                        }
                    },
                },
            },
        }
    }

    /// The request that copies `data` to the clipboard.
    ///
    /// With primary selection the one request targets both buffers, without
    /// it the regular clipboard alone. The payload is the text's UTF-8
    /// encoding, untouched: no trailing newline is trimmed. The transport
    /// serves it in the background, to every paste that follows.
    pub fn set_contents(&self, data: String) -> (request: CopyRequest)
        ensures
            request.targets == write_targets(self.supports_primary()),
            request.seat == SeatScope::All,
            request.mime == MimeKind::Text,
            request.bytes@ == encode_utf8(data@),
            !request.trim_newline,
            !request.foreground,
            request.serve == ServePolicy::Unlimited,
    {
        let targets = if self.supports_primary_selection {
            SelectionTargets::Both
        } else {
            SelectionTargets::Regular
        };
        CopyRequest {
            targets,
            seat: SeatScope::All,
            mime: MimeKind::Text,
            bytes: data.as_str().as_bytes_vec(),
            trim_newline: false,
            foreground: false,
            serve: ServePolicy::Unlimited,
        }
    }

    /// The one request that clears what this context writes to: both buffers
    /// with primary selection, the regular clipboard alone without it, on
    /// all seats.
    pub fn clear(&self) -> (request: ClearRequest)
        ensures
            request == (ClearRequest {
                targets: write_targets(self.supports_primary()),
                seat: SeatScope::All,
            }),
    {
        let targets = if self.supports_primary_selection {
            SelectionTargets::Both
        } else {
            SelectionTargets::Regular
        };
        ClearRequest { targets, seat: SeatScope::All }
    }

    /// The outcome of a copy or a clear: success where the transport
    /// accepted the request, its failure where it did not.
    pub fn settle(ack: Acknowledgement) -> (r: Result<(), ClipboardError>)
        ensures
            unit_model(r) == acknowledged(ack@),
    {
        match ack {
            Acknowledgement::Accepted => Ok(()),
            Acknowledgement::Failed(message) => Err(ClipboardError::Transport(message)),
        }
    }

    fn text_request(selection: SelectionKind) -> (request: PasteRequest)
        ensures
            request == paste_request(selection),
    {
        PasteRequest { selection, seat: SeatScope::Unspecified, mime: MimeKind::Text }
    }
}

} // verus!
