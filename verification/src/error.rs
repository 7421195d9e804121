//! What can go wrong while the gadget is set up, used and torn down.

use vstd::prelude::*;
use vstd::string::StringExecFns;

verus! {

/// A failure of the gadget or of its transport.
#[derive(Debug, PartialEq, Eq)]
pub enum GadgetError {
    /// A kernel module could not be loaded; holds the module's name.
    ModuleLoadFailure(String),
    /// A configfs operation failed; holds the path it was aimed at.
    ConfigfsWriteFailure(String),
    /// A configfs operation found that the structure it builds on is not
    /// there; holds the path it was aimed at.
    ConfigfsStructureMissing(String),
    /// An interrupt transfer did not complete within its timeout.
    EndpointTimeout,
    /// An interrupt transfer failed for another reason.
    EndpointIoFailure,
    /// An operation was asked for in a state that does not allow it.
    InvalidState,
}

/// What a `GadgetError` stands for.
pub enum ErrorView {
    ModuleLoadFailure(Seq<char>),
    ConfigfsWriteFailure(Seq<char>),
    ConfigfsStructureMissing(Seq<char>),
    EndpointTimeout,
    EndpointIoFailure,
    InvalidState,
}

impl ErrorView {
    /// Only a timeout may be followed by another attempt.
    pub open spec fn recoverable(self) -> bool {
        self is EndpointTimeout
    }

    /// The text that describes the error.
    pub open spec fn message(self) -> Seq<char> {
        match self {
            ErrorView::ModuleLoadFailure(name) => "failed to insert kernel module "@ + name,
            ErrorView::ConfigfsWriteFailure(path) => "configfs operation failed at "@ + path,
            ErrorView::ConfigfsStructureMissing(path) => "configfs structure missing at "@ + path,
            ErrorView::EndpointTimeout => "endpoint transfer timed out"@,
            ErrorView::EndpointIoFailure => "endpoint transfer failed"@,
            ErrorView::InvalidState => "operation not allowed in this state"@,
        }
    }
}

impl View for GadgetError {
    type V = ErrorView;

    open spec fn view(&self) -> ErrorView {
        match *self {
            GadgetError::ModuleLoadFailure(name) => ErrorView::ModuleLoadFailure(name@),
            GadgetError::ConfigfsWriteFailure(path) => ErrorView::ConfigfsWriteFailure(path@),
            GadgetError::ConfigfsStructureMissing(path) => ErrorView::ConfigfsStructureMissing(
                path@,
            ),
            GadgetError::EndpointTimeout => ErrorView::EndpointTimeout,
            GadgetError::EndpointIoFailure => ErrorView::EndpointIoFailure,
            GadgetError::InvalidState => ErrorView::InvalidState,
        }
    }
}

impl GadgetError {
    /// Whether the control loop may go on after this error. Only a timeout
    /// is of that kind; every other error ends the session.
    pub fn is_recoverable(&self) -> (r: bool)
        ensures
            r == self@.recoverable(),
    {
        match self {
            GadgetError::EndpointTimeout => true,
            _ => false,
        }
    }

    /// The text that describes the error, with the path or the module that
    /// it is about.
    pub fn message(&self) -> (r: String)
        ensures
            r@ == self@.message(),
    {
        match self {
            GadgetError::ModuleLoadFailure(name) => {
                String::from_str("failed to insert kernel module ").concat(name.as_str())
            },
            GadgetError::ConfigfsWriteFailure(path) => {
                String::from_str("configfs operation failed at ").concat(path.as_str())
            },
            GadgetError::ConfigfsStructureMissing(path) => {
                String::from_str("configfs structure missing at ").concat(path.as_str())
            },
            GadgetError::EndpointTimeout => String::from_str("endpoint transfer timed out"),
            GadgetError::EndpointIoFailure => String::from_str("endpoint transfer failed"),
            GadgetError::InvalidState => String::from_str("operation not allowed in this state"),
        }
    }

    /// A copy of the error.
    pub fn duplicate(&self) -> (r: GadgetError)
        ensures
            r@ == self@,
    {
        match self {
            GadgetError::ModuleLoadFailure(name) => GadgetError::ModuleLoadFailure(name.clone()),
            GadgetError::ConfigfsWriteFailure(path) => GadgetError::ConfigfsWriteFailure(
                path.clone(),
            ),
            GadgetError::ConfigfsStructureMissing(path) => GadgetError::ConfigfsStructureMissing(
                path.clone(),
            ),
            GadgetError::EndpointTimeout => GadgetError::EndpointTimeout,
            GadgetError::EndpointIoFailure => GadgetError::EndpointIoFailure,
            GadgetError::InvalidState => GadgetError::InvalidState,
        }
    }
}

} // verus!
