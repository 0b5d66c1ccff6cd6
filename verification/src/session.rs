//! Whole reads, and a model of a session: what the context's rules amount to
//! when each request is answered by the buffer it names.

use vstd::prelude::*;
use vstd::utf8::{encode_utf8, encode_utf8_decode_utf8, encode_utf8_valid_utf8};
use crate::error::{ErrorModel, TextModel};
use crate::text::decoded;
use crate::transport::{
    paste_request, FaultModel, ReplyModel, SelectionKind, SelectionTargets,
};
use crate::wayland_clipboard::{read_step, write_targets, EventModel, StepModel};

verus! {

/// What one answer amounts to when the read ends on it.
pub open spec fn outcome_of(reply: ReplyModel) -> TextModel {
    match reply {
        ReplyModel::Data(bytes) => decoded(bytes),
        ReplyModel::StreamFailed(m) => Err(ErrorModel::Stream(m)),
        ReplyModel::Failed(FaultModel::Other(m)) => Err(ErrorModel::Transport(m)),
        ReplyModel::Failed(_) => Ok(Seq::empty()),
    }
}

/// The outcome of a whole read, where `primary` and `regular` are what the
/// two buffers answer when asked: the primary selection decides where it is
/// supported and its answer is not an empty-like fault, the regular clipboard
/// decides otherwise.
pub open spec fn read_outcome(
    supports_primary: bool,
    primary: ReplyModel,
    regular: ReplyModel,
) -> TextModel {
    if supports_primary && !primary.is_empty_like() {
        outcome_of(primary)
    } else {
        outcome_of(regular)
    }
}

/// The buffers that a whole read asks, in order.
pub open spec fn read_requests(supports_primary: bool, primary: ReplyModel) -> Seq<
    SelectionKind,
> {
    if !supports_primary {
        seq![SelectionKind::Regular]
    } else if primary.is_empty_like() {
        seq![SelectionKind::Primary, SelectionKind::Regular]
    } else {
        seq![SelectionKind::Primary]
    }
}

/// What the buffer `asked` answers.
pub open spec fn reply_of(
    asked: SelectionKind,
    primary: ReplyModel,
    regular: ReplyModel,
) -> ReplyModel {
    match asked {
        SelectionKind::Primary => primary,
        SelectionKind::Regular => regular,
    }
}

/// A read against two buffers: the buffers asked, in order, and the outcome
/// if the read came to its end.
pub struct ReadRun {
    pub asked: Seq<SelectionKind>,
    pub outcome: Option<TextModel>,
}

/// Follows [`read_step`] from `step` for at most `limit` requests, each
/// answered by the buffer it names.
pub open spec fn follow(
    supports_primary: bool,
    step: StepModel,
    primary: ReplyModel,
    regular: ReplyModel,
    limit: nat,
) -> ReadRun
    decreases limit,
{
    match step {
        StepModel::Done(outcome) => ReadRun { asked: Seq::empty(), outcome: Some(outcome) },
        StepModel::Ask(request) => if limit == 0 {
            ReadRun { asked: Seq::empty(), outcome: None }
        } else {
            let reply = reply_of(request.selection, primary, regular);
            let next = read_step(
                supports_primary,
                EventModel::Reply { asked: request.selection, reply },
            );
            let rest = follow(supports_primary, next, primary, regular, (limit - 1) as nat);
            ReadRun { asked: seq![request.selection] + rest.asked, outcome: rest.outcome }
        },
    }
}

/// A whole read, from its beginning, as [`read_step`] drives it. Two
/// requests are all that it is given; [`read_runs_to_outcome`] shows that it
/// needs no more.
pub open spec fn run_read(
    supports_primary: bool,
    primary: ReplyModel,
    regular: ReplyModel,
) -> ReadRun {
    follow(supports_primary, read_step(supports_primary, EventModel::Begin), primary, regular, 2)
}

/// A read comes to its end after two requests at most. It asks the buffers
/// that [`read_requests`] lists, in that order, and ends as [`read_outcome`]
/// says.
pub proof fn read_runs_to_outcome(supports_primary: bool, primary: ReplyModel, regular: ReplyModel)
    ensures
        run_read(supports_primary, primary, regular).asked == read_requests(
            supports_primary,
            primary,
        ),
        run_read(supports_primary, primary, regular).outcome == Some(
            read_outcome(supports_primary, primary, regular),
        ),
{
    reveal_with_fuel(follow, 3);
    assert(run_read(supports_primary, primary, regular).asked =~= read_requests(
        supports_primary,
        primary,
    ));
}

/// Every request of a read asks for text, from an unspecified seat.
pub proof fn read_asks_for_text(supports_primary: bool, event: EventModel)
    ensures
        read_step(supports_primary, event) matches StepModel::Ask(request) ==> request
            == paste_request(request.selection),
{
}

/// Without primary selection a read asks the regular clipboard and nothing
/// else, whatever the buffers answer, and writes and clears leave the
/// primary selection alone.
pub proof fn primary_is_gated(primary: ReplyModel, regular: ReplyModel)
    ensures
        run_read(false, primary, regular).asked == seq![SelectionKind::Regular],
        !run_read(false, primary, regular).asked.contains(SelectionKind::Primary),
        !write_targets(false).covers(SelectionKind::Primary),
{
    read_runs_to_outcome(false, primary, regular);
    let asked = seq![SelectionKind::Regular];
    assert(asked.len() == 1 && asked[0] == SelectionKind::Regular);
}

/// With primary selection, an empty-like fault of the primary selection
/// makes the read ask the regular clipboard next, and the read ends as the
/// regular clipboard's answer alone decides.
pub proof fn empty_primary_falls_back(primary: ReplyModel, regular: ReplyModel)
    requires
        primary.is_empty_like(),
    ensures
        run_read(true, primary, regular).asked == seq![
            SelectionKind::Primary,
            SelectionKind::Regular,
        ],
        run_read(true, primary, regular).outcome == Some(outcome_of(regular)),
{
    read_runs_to_outcome(true, primary, regular);
}

/// With primary selection, a failure of the primary selection that is not
/// empty-like ends the read with that failure, and the regular clipboard is
/// never asked.
pub proof fn primary_failure_propagates(primary: ReplyModel, regular: ReplyModel)
    requires
        primary is StreamFailed || (primary is Failed && !primary.is_empty_like()),
    ensures
        run_read(true, primary, regular).asked == seq![SelectionKind::Primary],
        !run_read(true, primary, regular).asked.contains(SelectionKind::Regular),
        run_read(true, primary, regular).outcome == Some(outcome_of(primary)),
        outcome_of(primary) is Err,
{
    read_runs_to_outcome(true, primary, regular);
    let asked = seq![SelectionKind::Primary];
    assert(asked.len() == 1 && asked[0] == SelectionKind::Primary);
}

/// Contents of the primary selection that are not valid UTF-8 end the read
/// with a decode failure: the regular clipboard is not asked in their place.
pub proof fn undecodable_primary_does_not_fall_back(primary: ReplyModel, regular: ReplyModel)
    requires
        primary matches ReplyModel::Data(bytes) && decoded(bytes) is Err,
    ensures
        run_read(true, primary, regular).asked == seq![SelectionKind::Primary],
        run_read(true, primary, regular).outcome == Some(
            Err::<Seq<char>, ErrorModel>(ErrorModel::InvalidUtf8),
        ),
{
    read_runs_to_outcome(true, primary, regular);
}

/// A read never fails for want of contents: where every buffer that is
/// asked answers with an empty-like fault, the read gives the empty string.
pub proof fn nothing_to_read_is_no_error(
    supports_primary: bool,
    primary: ReplyModel,
    regular: ReplyModel,
)
    requires
        regular.is_empty_like(),
        supports_primary ==> primary.is_empty_like(),
    ensures
        run_read(supports_primary, primary, regular).outcome == Some(
            Ok::<Seq<char>, ErrorModel>(Seq::empty()),
        ),
{
    read_runs_to_outcome(supports_primary, primary, regular);
}

/// The two buffers of a session with a seat: what each holds, if anything.
pub struct Session {
    pub regular: Option<Seq<u8>>,
    pub primary: Option<Seq<u8>>,
}

impl Session {
    /// What the buffer `kind` holds.
    pub open spec fn contents(self, kind: SelectionKind) -> Option<Seq<u8>> {
        match kind {
            SelectionKind::Regular => self.regular,
            SelectionKind::Primary => self.primary,
        }
    }

    /// What a faithful transport answers to a text request for `kind`.
    pub open spec fn paste(self, kind: SelectionKind) -> ReplyModel {
        match self.contents(kind) {
            Some(bytes) => ReplyModel::Data(bytes),
            None => ReplyModel::Failed(FaultModel::ClipboardEmpty),
        }
    }

    /// The session after an accepted copy of `bytes` to `targets`.
    pub open spec fn published(self, targets: SelectionTargets, bytes: Seq<u8>) -> Session {
        Session {
            regular: if targets.covers(SelectionKind::Regular) {
                Some(bytes)
            } else {
                self.regular
            },
            primary: if targets.covers(SelectionKind::Primary) {
                Some(bytes)
            } else {
                self.primary
            },
        }
    }

    /// The session after an accepted clear of `targets`.
    pub open spec fn cleared(self, targets: SelectionTargets) -> Session {
        Session {
            regular: if targets.covers(SelectionKind::Regular) {
                None
            } else {
                self.regular
            },
            primary: if targets.covers(SelectionKind::Primary) {
                None
            } else {
                self.primary
            },
        }
    }

    /// A whole read by a context against this session.
    pub open spec fn read(self, supports_primary: bool) -> ReadRun {
        run_read(
            supports_primary,
            self.paste(SelectionKind::Primary),
            self.paste(SelectionKind::Regular),
        )
    }
}

/// What a context writes, it reads back: after an accepted copy of a text's
/// encoding to the context's targets, with nobody else touching the session,
/// a read by the same context gives that text, character for character.
pub proof fn write_then_read(session: Session, supports_primary: bool, text: Seq<char>)
    ensures
        session.published(write_targets(supports_primary), encode_utf8(text)).read(
            supports_primary,
        ).outcome == Some(Ok::<Seq<char>, ErrorModel>(text)),
{
    let after = session.published(write_targets(supports_primary), encode_utf8(text));
    read_runs_to_outcome(
        supports_primary,
        after.paste(SelectionKind::Primary),
        after.paste(SelectionKind::Regular),
    );
    encode_utf8_valid_utf8(text);
    encode_utf8_decode_utf8(text);
}

/// After an accepted clear of the context's targets, with nobody else
/// touching the session, a read by the same context gives the empty string
/// and no error, whatever the session held before.
pub proof fn clear_then_read(session: Session, supports_primary: bool)
    ensures
        session.cleared(write_targets(supports_primary)).read(supports_primary).outcome == Some(
            Ok::<Seq<char>, ErrorModel>(Seq::empty()),
        ),
{
    let after = session.cleared(write_targets(supports_primary));
    read_runs_to_outcome(
        supports_primary,
        after.paste(SelectionKind::Primary),
        after.paste(SelectionKind::Regular),
    );
}

} // verus!
