//! What the gadget asks its driver to do, and what the driver reports back.

use vstd::prelude::*;
use crate::error::ErrorView;
use crate::error::GadgetError;

verus! {

/// One request to the driver. The driver performs it and hands the outcome
/// to `UsbGadget::advance`, until it is handed `Finished`.
#[derive(Debug, PartialEq, Eq)]
pub enum Action {
    /// Insert the kernel module of this name.
    LoadModule { name: String },
    /// Find out whether the path exists.
    Probe { path: String },
    /// Create the directory and its missing parents.
    CreateDir { path: String },
    /// Write the bytes to the file at the path.
    Write { path: String, data: Vec<u8> },
    /// Remove the file or link at the path.
    Remove { path: String },
    /// Create at `link` a symbolic link to `target`.
    Symlink { target: String, link: String },
    /// Nothing is left to do; the request ended with this verdict.
    Finished { verdict: Result<(), GadgetError> },
}

/// What an `Action` stands for.
pub enum ActionView {
    LoadModule { name: Seq<char> },
    Probe { path: Seq<char> },
    CreateDir { path: Seq<char> },
    Write { path: Seq<char>, data: Seq<u8> },
    Remove { path: Seq<char> },
    Symlink { target: Seq<char>, link: Seq<char> },
    Finished { verdict: Result<(), ErrorView> },
}

impl ActionView {
    /// Whether performing the action may change the file system.
    pub open spec fn mutates(self) -> bool {
        self is CreateDir || self is Write || self is Remove || self is Symlink
    }
}

impl View for Action {
    type V = ActionView;

    open spec fn view(&self) -> ActionView {
        match *self {
            Action::LoadModule { name } => ActionView::LoadModule { name: name@ },
            Action::Probe { path } => ActionView::Probe { path: path@ },
            Action::CreateDir { path } => ActionView::CreateDir { path: path@ },
            Action::Write { path, data } => ActionView::Write { path: path@, data: data@ },
            Action::Remove { path } => ActionView::Remove { path: path@ },
            Action::Symlink { target, link } => ActionView::Symlink {
                target: target@,
                link: link@,
            },
            Action::Finished { verdict } => ActionView::Finished {
                verdict: match verdict {
                    Ok(_) => Ok(()),
                    Err(e) => Err(e@),
                },
            },
        }
    }
}

/// How the driver fared with an action.
#[derive(Debug, Clone, Copy, PartialEq, Eq, Structural)]
pub enum Outcome {
    /// The action succeeded; for a probe, the path exists.
    Done,
    /// The path, or the structure that it lies in, does not exist.
    Missing,
    /// The action failed for another reason.
    Failed,
}

} // verus!
