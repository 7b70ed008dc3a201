//! The two handlers, each as one step function.
//!
//! A caller starts a request in [`Stage::Received`], calls the handler,
//! performs the action it gets, and calls the handler again with the new
//! stage and the action's outcome, until the handler finishes with a
//! response. The outcome is looked at only where the pending action can
//! fail and the failure matters: creating the file and writing to it.

use vstd::prelude::*;
use vstd::string::*;
use vstd::utf8::encode_utf8;
use crate::action::{Action, ActionView};
use crate::response::{
    Response, ResponseView, REJECTED, STATUS_BAD_REQUEST, STATUS_INTERNAL_SERVER_ERROR, STATUS_OK,
};
use crate::stage::{Outcome, Stage, StageView, Step, StepView};

verus! {

/// The one path at which the vulnerable handler keeps every request's content.
pub const SHARED_PATH: &'static str = "/tmp/sensitive_data.csv";

/// Seconds the vulnerable handler spends processing.
pub const VULNERABLE_DELAY_SECS: u64 = 5;

/// Seconds the secure handler spends processing.
pub const SECURE_DELAY_SECS: u64 = 2;

/// Body of the vulnerable handler's answer to a processed request.
pub const VULNERABLE_DONE: &'static str = "Data processed (vulnerable) 脆弱";

/// Body of the vulnerable handler's answer when the file could not be created.
pub const VULNERABLE_CREATE_FAILED: &'static str = "Could not create temporary file";

/// Body of the vulnerable handler's answer when the write failed.
pub const VULNERABLE_WRITE_FAILED: &'static str = "Failed to write to temporary file";

/// Body of the secure handler's answer to a processed request.
pub const SECURE_DONE: &'static str = "Data processed (secure) 安全";

/// Body of the secure handler's answer when the file could not be created.
pub const SECURE_CREATE_FAILED: &'static str = "Could not create secure temporary file";

/// Body of the secure handler's answer when the write failed.
pub const SECURE_WRITE_FAILED: &'static str = "Failed to write to secure temporary file";

/// The answer to a request whose body did not hold a payload.
pub open spec fn rejected() -> ResponseView {
    ResponseView { status: STATUS_BAD_REQUEST as int, body: REJECTED@ }
}

/// The answer to a request that was processed, with the handler's text.
pub open spec fn processed(text: Seq<char>) -> ResponseView {
    ResponseView { status: STATUS_OK as int, body: text }
}

/// The answer to a request whose file failed, with the handler's text.
pub open spec fn failed(text: Seq<char>) -> ResponseView {
    ResponseView { status: STATUS_INTERNAL_SERVER_ERROR as int, body: text }
}

/// One step of the vulnerable handler.
///
/// The content goes to the file at [`SHARED_PATH`], created with the
/// platform's default rights. It stays there for the processing time and is
/// removed afterwards, and the answer does not depend on whether the
/// removal went well. A failed write is answered at once, and the file is
/// left where it is. The handler itself never cleans up after a failed
/// write; handed `Cleaning { written: false }`, it answers as for one.
pub open spec fn vulnerable_step(stage: StageView, outcome: Outcome) -> StepView {
    match stage {
        StageView::Received { payload: None } => StepView::Finish(rejected()),
        StageView::Received { payload: Some(content) } => StepView::Continue(
            StageView::Creating { content },
            ActionView::CreateAt { path: SHARED_PATH@ },
        ),
        StageView::Creating { content } => if outcome == Outcome::Succeeded {
            StepView::Continue(StageView::Writing, ActionView::Write { bytes: encode_utf8(content) })
        } else {
            StepView::Finish(failed(VULNERABLE_CREATE_FAILED@))
        },
        StageView::Writing => if outcome == Outcome::Succeeded {
            StepView::Continue(
                StageView::Processing,
                ActionView::Wait { seconds: VULNERABLE_DELAY_SECS as nat },
            )
        } else {
            StepView::Finish(failed(VULNERABLE_WRITE_FAILED@))
        },
        StageView::Processing => StepView::Continue(
            StageView::Cleaning { written: true },
            ActionView::RemoveAt { path: SHARED_PATH@ },
        ),
        StageView::Cleaning { written } => if written {
            StepView::Finish(processed(VULNERABLE_DONE@))
        } else {
            StepView::Finish(failed(VULNERABLE_WRITE_FAILED@))
        },
    }
}

/// One step of the secure handler.
///
/// The content goes to a file of its own, uniquely named and open to its
/// owner alone. The file is released before any answer is given once it
/// exists: after the processing time, and also when the write failed.
pub open spec fn secure_step(stage: StageView, outcome: Outcome) -> StepView {
    match stage {
        StageView::Received { payload: None } => StepView::Finish(rejected()),
        StageView::Received { payload: Some(content) } => StepView::Continue(
            StageView::Creating { content },
            ActionView::CreatePrivate,
        ),
        StageView::Creating { content } => if outcome == Outcome::Succeeded {
            StepView::Continue(StageView::Writing, ActionView::Write { bytes: encode_utf8(content) })
        } else {
            StepView::Finish(failed(SECURE_CREATE_FAILED@))
        },
        StageView::Writing => if outcome == Outcome::Succeeded {
            StepView::Continue(
                StageView::Processing,
                ActionView::Wait { seconds: SECURE_DELAY_SECS as nat },
            )
        } else {
            StepView::Continue(StageView::Cleaning { written: false }, ActionView::Release)
        },
        StageView::Processing => StepView::Continue(
            StageView::Cleaning { written: true },
            ActionView::Release,
        ),
        StageView::Cleaning { written } => if written {
            StepView::Finish(processed(SECURE_DONE@))
        } else {
            StepView::Finish(failed(SECURE_WRITE_FAILED@))
        },
    }
}

/// Takes a request one step further in the vulnerable handler: the result
/// is the one that `vulnerable_step` gives for this stage and outcome.
pub fn vulnerable_service(stage: Stage, outcome: Outcome) -> (step: Step)
    ensures
        step@ == vulnerable_step(stage@, outcome),
{
    match stage {
        Stage::Received { payload: None } => Step::Finish(
            Response::new(STATUS_BAD_REQUEST, REJECTED),
        ),
        Stage::Received { payload: Some(content) } => Step::Continue(
            Stage::Creating { content },
            Action::CreateAt { path: SHARED_PATH.to_owned() },
        ),
        Stage::Creating { content } => match outcome {
            Outcome::Succeeded => Step::Continue(
                Stage::Writing,
                Action::Write { bytes: content.as_str().as_bytes_vec() },
            ),
            Outcome::Failed => Step::Finish(
                Response::new(STATUS_INTERNAL_SERVER_ERROR, VULNERABLE_CREATE_FAILED),
            ),
        },
        Stage::Writing => match outcome {
            Outcome::Succeeded => Step::Continue(
                Stage::Processing,
                Action::Wait { seconds: VULNERABLE_DELAY_SECS },
            ),
            Outcome::Failed => Step::Finish(
                Response::new(STATUS_INTERNAL_SERVER_ERROR, VULNERABLE_WRITE_FAILED),
            ),
        },
        Stage::Processing => Step::Continue(
            Stage::Cleaning { written: true },
            Action::RemoveAt { path: SHARED_PATH.to_owned() },
        ),
        Stage::Cleaning { written } => if written {
            Step::Finish(Response::new(STATUS_OK, VULNERABLE_DONE))
        } else {
            Step::Finish(Response::new(STATUS_INTERNAL_SERVER_ERROR, VULNERABLE_WRITE_FAILED))
        },
    }
}

/// Takes a request one step further in the secure handler: the result is
/// the one that `secure_step` gives for this stage and outcome.
pub fn secure_service(stage: Stage, outcome: Outcome) -> (step: Step)
    ensures
        step@ == secure_step(stage@, outcome),
{
    match stage {
        Stage::Received { payload: None } => Step::Finish(
            Response::new(STATUS_BAD_REQUEST, REJECTED),
        ),
        Stage::Received { payload: Some(content) } => Step::Continue(
            Stage::Creating { content },
            Action::CreatePrivate,
        ),
        Stage::Creating { content } => match outcome {
            Outcome::Succeeded => Step::Continue(
                Stage::Writing,
                Action::Write { bytes: content.as_str().as_bytes_vec() },
            ),
            Outcome::Failed => Step::Finish(
                Response::new(STATUS_INTERNAL_SERVER_ERROR, SECURE_CREATE_FAILED),
            ),
        },
        Stage::Writing => match outcome {
            Outcome::Succeeded => Step::Continue(
                Stage::Processing,
                Action::Wait { seconds: SECURE_DELAY_SECS },
            ),
            Outcome::Failed => Step::Continue(Stage::Cleaning { written: false }, Action::Release),
        },
        Stage::Processing => Step::Continue(Stage::Cleaning { written: true }, Action::Release),
        Stage::Cleaning { written } => if written {
            Step::Finish(Response::new(STATUS_OK, SECURE_DONE))
        } else {
            Step::Finish(Response::new(STATUS_INTERNAL_SERVER_ERROR, SECURE_WRITE_FAILED))
        },
    }
}

} // verus!
