//! What a handler asks its caller to do next.

use vstd::prelude::*;

verus! {

/// One piece of outside work. The caller performs it and reports how it
/// went with an [`Outcome`](crate::stage::Outcome).
#[derive(Debug, Clone, PartialEq, Eq)]
pub enum Action {
    /// Create the file at `path`, emptying it if it is there already, with
    /// the access rights the platform gives a new file, and keep it open.
    CreateAt { path: String },
    /// Create a file under a fresh name that nobody could know beforehand,
    /// open to its owner alone from the moment it exists, and keep it open.
    CreatePrivate,
    /// Write `bytes` to the open file, all of them and nothing else.
    Write { bytes: Vec<u8> },
    /// Let `seconds` seconds pass while the file is held.
    Wait { seconds: u64 },
    /// Remove whatever file is at `path`.
    RemoveAt { path: String },
    /// Let go of the file made by `CreatePrivate`, which removes it.
    Release,
}

/// An `Action` as a mathematical value.
pub enum ActionView {
    CreateAt { path: Seq<char> },
    CreatePrivate,
    Write { bytes: Seq<u8> },
    Wait { seconds: nat },
    RemoveAt { path: Seq<char> },
    Release,
}

impl View for Action {
    type V = ActionView;

    open spec fn view(&self) -> ActionView {
        match self {
            Action::CreateAt { path } => ActionView::CreateAt { path: path@ },
            Action::CreatePrivate => ActionView::CreatePrivate,
            Action::Write { bytes } => ActionView::Write { bytes: bytes@ },
            Action::Wait { seconds } => ActionView::Wait { seconds: *seconds as nat },
            Action::RemoveAt { path } => ActionView::RemoveAt { path: path@ },
            Action::Release => ActionView::Release,
        }
    }
}

} // verus!
