//! Whole runs of a handler, and what holds of every one of them.
//!
//! A run is what a caller sees of one request: the actions it was asked to
//! perform, in order, and the response at the end. Which run a request gets
//! depends on its payload and on how the actions went, and on nothing else.

use vstd::prelude::*;
use vstd::utf8::{decode_utf8, encode_utf8, encode_utf8_decode_utf8, encode_utf8_valid_utf8, valid_utf8};
use crate::action::ActionView;
use crate::handlers::{
    failed, processed, rejected, secure_step, vulnerable_step, SECURE_CREATE_FAILED,
    SECURE_DELAY_SECS, SECURE_DONE, SECURE_WRITE_FAILED, SHARED_PATH, VULNERABLE_CREATE_FAILED,
    VULNERABLE_DELAY_SECS, VULNERABLE_DONE, VULNERABLE_WRITE_FAILED,
};
use crate::response::ResponseView;
use crate::stage::{Outcome, StageView, StepView};

verus! {

/// Which of the two handlers serves a request.
pub enum Handler {
    Vulnerable,
    Secure,
}

impl Handler {
    /// One step of this handler.
    pub open spec fn step(self, stage: StageView, outcome: Outcome) -> StepView {
        match self {
            Handler::Vulnerable => vulnerable_step(stage, outcome),
            Handler::Secure => secure_step(stage, outcome),
        }
    }
}

/// The actions of one request, in order, and the response that ended it.
pub struct Run {
    pub actions: Seq<ActionView>,
    pub response: ResponseView,
}

/// The longest run has this many steps: four actions and the response.
pub open spec fn max_steps() -> nat {
    5
}

/// The run that starts in `stage` when the steps are fed `outcomes` one by
/// one, or `None` if the outcomes run out before the response.
///
/// `outcomes[0]` goes with `stage`, so it tells how the action went that was
/// pending there; the action that the first step gives is told of by
/// `outcomes[1]`, and so on: the action at index `i` of the run has the
/// outcome `outcomes[i + 1]`.
pub open spec fn play(handler: Handler, stage: StageView, outcomes: Seq<Outcome>) -> Option<Run>
    decreases outcomes.len(),
{
    if outcomes.len() == 0 {
        None
    } else {
        match handler.step(stage, outcomes[0]) {
            StepView::Finish(response) => Some(Run { actions: Seq::empty(), response }),
            StepView::Continue(next, action) => match play(handler, next, outcomes.drop_first()) {
                Some(rest) => Some(
                    Run { actions: seq![action] + rest.actions, response: rest.response },
                ),
                None => None,
            },
        }
    }
}

/// The run of a request from its arrival on.
pub open spec fn serve(handler: Handler, payload: Option<Seq<char>>, outcomes: Seq<Outcome>)
    -> Option<Run> {
    play(handler, StageView::Received { payload }, outcomes)
}

/// What the vulnerable handler does with a request, told in one piece:
/// `created` and `written` say whether creating the file and writing to it
/// went well.
pub open spec fn vulnerable_run(payload: Option<Seq<char>>, created: bool, written: bool) -> Run {
    let create = ActionView::CreateAt { path: SHARED_PATH@ };
    match payload {
        None => Run { actions: seq![], response: rejected() },
        Some(content) => if !created {
            Run { actions: seq![create], response: failed(VULNERABLE_CREATE_FAILED@) }
        } else if !written {
            Run {
                actions: seq![create, ActionView::Write { bytes: encode_utf8(content) }],
                response: failed(VULNERABLE_WRITE_FAILED@),
            }
        } else {
            Run {
                actions: seq![
                    create,
                    ActionView::Write { bytes: encode_utf8(content) },
                    ActionView::Wait { seconds: VULNERABLE_DELAY_SECS as nat },
                    ActionView::RemoveAt { path: SHARED_PATH@ },
                ],
                response: processed(VULNERABLE_DONE@),
            }
        },
    }
}

/// What the secure handler does with a request, told in one piece.
pub open spec fn secure_run(payload: Option<Seq<char>>, created: bool, written: bool) -> Run {
    match payload {
        None => Run { actions: seq![], response: rejected() },
        Some(content) => if !created {
            Run { actions: seq![ActionView::CreatePrivate], response: failed(SECURE_CREATE_FAILED@) }
        } else if !written {
            Run {
                actions: seq![
                    ActionView::CreatePrivate,
                    ActionView::Write { bytes: encode_utf8(content) },
                    ActionView::Release,
                ],
                response: failed(SECURE_WRITE_FAILED@),
            }
        } else {
            Run {
                actions: seq![
                    ActionView::CreatePrivate,
                    ActionView::Write { bytes: encode_utf8(content) },
                    ActionView::Wait { seconds: SECURE_DELAY_SECS as nat },
                    ActionView::Release,
                ],
                response: processed(SECURE_DONE@),
            }
        },
    }
}

/// The run of `handler` told in one piece.
pub open spec fn run_of(handler: Handler, payload: Option<Seq<char>>, created: bool, written: bool)
    -> Run {
    match handler {
        Handler::Vulnerable => vulnerable_run(payload, created, written),
        Handler::Secure => secure_run(payload, created, written),
    }
}

/// Stepping through a request gives exactly the run told in one piece:
/// with outcomes for `max_steps()` steps every request reaches its
/// response, and only the outcomes of creating and of writing matter.
pub proof fn serve_gives_run(handler: Handler, payload: Option<Seq<char>>, outcomes: Seq<Outcome>)
    requires
        outcomes.len() >= max_steps(),
    ensures
        serve(handler, payload, outcomes) == Some(
            run_of(
                handler,
                payload,
                outcomes[1] == Outcome::Succeeded,
                outcomes[2] == Outcome::Succeeded,
            ),
        ),
{
    reveal_with_fuel(play, 6);
    let o1 = outcomes.drop_first();
    let o2 = o1.drop_first();
    let o3 = o2.drop_first();
    let o4 = o3.drop_first();
    assert(o1[0] == outcomes[1]);
    assert(o2[0] == outcomes[2]);
    let got = serve(handler, payload, outcomes);
    let want = run_of(
        handler,
        payload,
        outcomes[1] == Outcome::Succeeded,
        outcomes[2] == Outcome::Succeeded,
    );
    assert(got is Some);
    assert(got->0.actions =~= want.actions);
}

/// The path that an action names, if it names one.
pub open spec fn named_path(action: ActionView) -> Option<Seq<char>> {
    match action {
        ActionView::CreateAt { path } => Some(path),
        ActionView::RemoveAt { path } => Some(path),
        _ => None,
    }
}

/// Wherever a request stands, it reaches its response within `max_steps()`
/// steps, whatever the outcomes, and is asked for four actions at most.
pub proof fn every_run_ends(handler: Handler, stage: StageView, outcomes: Seq<Outcome>)
    requires
        outcomes.len() >= max_steps(),
    ensures
        play(handler, stage, outcomes) is Some,
        play(handler, stage, outcomes)->0.actions.len() <= 4,
{
    reveal_with_fuel(play, 6);
    let o1 = outcomes.drop_first();
    let o2 = o1.drop_first();
    let o3 = o2.drop_first();
    let o4 = o3.drop_first();
    assert(o4.len() > 0);
}

/// A request without a payload is answered with a client error, and no
/// action is asked for before that answer: no file is ever created for it.
pub proof fn missing_payload_is_rejected(handler: Handler, outcomes: Seq<Outcome>)
    requires
        outcomes.len() >= 1,
    ensures
        serve(handler, None, outcomes) == Some(Run { actions: Seq::empty(), response: rejected() }),
        400 <= rejected().status < 500,
{
}

/// The status of the response tells what happened: 400 exactly for a
/// request without a payload, 200 exactly where the file was created and
/// the content written, and 500 for the rest.
pub proof fn status_tells_what_happened(
    handler: Handler,
    payload: Option<Seq<char>>,
    outcomes: Seq<Outcome>,
)
    requires
        outcomes.len() >= max_steps(),
    ensures
        ({
            let status = serve(handler, payload, outcomes)->0.response.status;
            let went_well = outcomes[1] == Outcome::Succeeded && outcomes[2] == Outcome::Succeeded;
            &&& status == 400 <==> payload is None
            &&& status == 200 <==> payload is Some && went_well
            &&& status == 500 <==> payload is Some && !went_well
        }),
{
    serve_gives_run(handler, payload, outcomes);
}

/// What is written is the content of the request, byte for byte: every
/// write of either handler carries the UTF-8 encoding of the payload, which
/// decodes to the payload again, and a request is answered as processed
/// only after such a write.
pub proof fn content_is_written_unchanged(
    handler: Handler,
    payload: Option<Seq<char>>,
    outcomes: Seq<Outcome>,
)
    requires
        outcomes.len() >= max_steps(),
    ensures
        ({
            let run = serve(handler, payload, outcomes)->0;
            &&& forall|i: int|
                0 <= i < run.actions.len() && #[trigger] run.actions[i] is Write ==> {
                    &&& payload is Some
                    &&& run.actions[i]->bytes == encode_utf8(payload->0)
                    &&& valid_utf8(run.actions[i]->bytes)
                    &&& decode_utf8(run.actions[i]->bytes) == payload->0
                }
            &&& run.response.status == 200 ==> run.actions.len() == 4 && run.actions[1] is Write
        }),
{
    serve_gives_run(handler, payload, outcomes);
    if payload is Some {
        encode_utf8_valid_utf8(payload->0);
        encode_utf8_decode_utf8(payload->0);
    }
}

/// The secure handler lets go of its file on every way out. If the file
/// was created, the last action before the response is its release,
/// whether the write went well or failed; nothing is asked for after the
/// release; and a request has one file at most.
pub proof fn secure_file_is_released(payload: Option<Seq<char>>, outcomes: Seq<Outcome>)
    requires
        outcomes.len() >= max_steps(),
    ensures
        ({
            let run = serve(Handler::Secure, payload, outcomes)->0;
            let last = run.actions.len() - 1;
            &&& forall|i: int|
                0 <= i < run.actions.len() && #[trigger] run.actions[i] is CreatePrivate ==> {
                    &&& i == 0
                    &&& outcomes[i + 1] == Outcome::Succeeded ==> i < last
                        && run.actions[last] is Release
                    &&& outcomes[i + 1] == Outcome::Failed ==> i == last
                }
            &&& forall|i: int|
                0 <= i < run.actions.len() && #[trigger] run.actions[i] is Release ==> i == last
                    && run.actions[0] is CreatePrivate && outcomes[1] == Outcome::Succeeded
        }),
{
    serve_gives_run(Handler::Secure, payload, outcomes);
}

/// The secure handler never names a path: the only file it asks for is one
/// with a fresh name that is open to its owner alone.
pub proof fn secure_names_no_path(payload: Option<Seq<char>>, outcomes: Seq<Outcome>)
    requires
        outcomes.len() >= max_steps(),
    ensures
        ({
            let run = serve(Handler::Secure, payload, outcomes)->0;
            forall|i: int|
                0 <= i < run.actions.len() ==> named_path(#[trigger] run.actions[i]) is None
        }),
{
    serve_gives_run(Handler::Secure, payload, outcomes);
}

/// Any two requests to the vulnerable handler meet at one path. Whatever
/// their payloads, every file either of them creates or removes is the one
/// at `SHARED_PATH`; and while a request waits, its content is in that file:
/// it was created and written before, and is removed only afterwards.
pub proof fn vulnerable_requests_share_one_path(
    payload: Option<Seq<char>>,
    outcomes: Seq<Outcome>,
    other_payload: Option<Seq<char>>,
    other_outcomes: Seq<Outcome>,
)
    requires
        outcomes.len() >= max_steps(),
        other_outcomes.len() >= max_steps(),
    ensures
        ({
            let run = serve(Handler::Vulnerable, payload, outcomes)->0;
            let other = serve(Handler::Vulnerable, other_payload, other_outcomes)->0;
            &&& forall|i: int|
                0 <= i < run.actions.len() && named_path(#[trigger] run.actions[i]) is Some
                    ==> named_path(run.actions[i]) == Some(SHARED_PATH@)
            &&& forall|i: int, j: int|
                0 <= i < run.actions.len() && 0 <= j < other.actions.len() && named_path(
                    #[trigger] run.actions[i],
                ) is Some && named_path(#[trigger] other.actions[j]) is Some ==> named_path(
                    run.actions[i],
                ) == named_path(other.actions[j])
            &&& forall|i: int|
                0 <= i < run.actions.len() && #[trigger] run.actions[i] is Wait ==> {
                    &&& i == 2
                    &&& run.actions[0] == (ActionView::CreateAt { path: SHARED_PATH@ })
                    &&& run.actions[1] == (ActionView::Write { bytes: encode_utf8(payload->0) })
                    &&& run.actions[3] == (ActionView::RemoveAt { path: SHARED_PATH@ })
                }
        }),
{
    serve_gives_run(Handler::Vulnerable, payload, outcomes);
    serve_gives_run(Handler::Vulnerable, other_payload, other_outcomes);
}

} // verus!
