//! Where a request stands, and what one step of handling it yields.

use vstd::prelude::*;
use crate::action::{Action, ActionView};
use crate::response::{Response, ResponseView};

verus! {

/// How the pending action went.
#[derive(Debug, Clone, Copy, PartialEq, Eq, Structural)]
pub enum Outcome {
    Succeeded,
    Failed,
}

/// Where a request stands. Each stage but the first has one action pending.
#[derive(Debug, Clone, PartialEq, Eq)]
pub enum Stage {
    /// The request has arrived and nothing was done yet. `payload` is the
    /// content it carries, or `None` if its body did not hold a payload.
    Received { payload: Option<String> },
    /// The file is being created; `content` is still to be written.
    Creating { content: String },
    /// The file exists and the content is being written to it.
    Writing,
    /// The content is in the file and the processing time is passing.
    Processing,
    /// The file is being removed. `written` says whether the content had
    /// been written in full before.
    Cleaning { written: bool },
}

/// A `Stage` as a mathematical value.
pub enum StageView {
    Received { payload: Option<Seq<char>> },
    Creating { content: Seq<char> },
    Writing,
    Processing,
    Cleaning { written: bool },
}

impl View for Stage {
    type V = StageView;

    open spec fn view(&self) -> StageView {
        match self {
            Stage::Received { payload: Some(content) } => StageView::Received {
                payload: Some(content@),
            },
            Stage::Received { payload: None } => StageView::Received { payload: None },
            Stage::Creating { content } => StageView::Creating { content: content@ },
            Stage::Writing => StageView::Writing,
            Stage::Processing => StageView::Processing,
            Stage::Cleaning { written } => StageView::Cleaning { written: *written },
        }
    }
}

/// What one step of handling yields.
#[derive(Debug, Clone, PartialEq, Eq)]
pub enum Step {
    /// The request moves to the stage given, and the action is now pending.
    Continue(Stage, Action),
    /// Handling is over, with this answer.
    Finish(Response),
}

/// A `Step` as a mathematical value.
pub enum StepView {
    Continue(StageView, ActionView),
    Finish(ResponseView),
}

impl View for Step {
    type V = StepView;

    open spec fn view(&self) -> StepView {
        match self {
            Step::Continue(stage, action) => StepView::Continue(stage@, action@),
            Step::Finish(response) => StepView::Finish(response@),
        }
    }
}

} // verus!
