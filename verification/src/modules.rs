//! The kernel modules that the gadget needs, and what counts as having
//! them.

use vstd::prelude::*;
use crate::action::Outcome;

verus! {

/// What became of an attempt to insert a kernel module.
#[derive(Debug, Clone, Copy, PartialEq, Eq, Structural)]
pub enum InsertResult {
    /// The module was inserted.
    Inserted,
    /// The kernel refused the module, with this error number.
    Rejected { errno: i32 },
    /// The attempt failed before the kernel was asked, or without an error
    /// number.
    Unknown,
}

/// The outcome that an insertion stands for, where `exists` is the error
/// number that the system gives for "exists already". A module that is in
/// the kernel already is as good as one that was just inserted; every other
/// refusal is a failure.
pub open spec fn spec_insert_outcome(result: InsertResult, exists: i32) -> Outcome {
    match result {
        InsertResult::Inserted => Outcome::Done,
        InsertResult::Rejected { errno } => if errno == exists {
            Outcome::Done
        } else {
            Outcome::Failed
        },
        InsertResult::Unknown => Outcome::Failed,
    }
}

/// The outcome that an insertion stands for, where `exists` is the error
/// number that the system gives for "exists already".
pub fn insert_outcome_given(result: InsertResult, exists: i32) -> (r: Outcome)
    ensures
        r == spec_insert_outcome(result, exists),
{
    match result {
        InsertResult::Inserted => Outcome::Done,
        InsertResult::Rejected { errno } => {
            if errno == exists {
                Outcome::Done
            } else {
                Outcome::Failed
            }
        },
        InsertResult::Unknown => Outcome::Failed,
    }
}

/// `libc::EEXIST`, the error number that this system gives for "exists
/// already". Its value differs from system to system, so nothing is claimed
/// of it.
#[verifier::external_body]
fn errno_exists() -> (r: i32) {
    libc::EEXIST
}

/// The outcome that an insertion stands for on this system. An inserted
/// module is a success and an attempt without error number a failure on
/// every system; a refusal is a success exactly where its error number is
/// the system's "exists already".
pub fn insert_outcome(result: InsertResult) -> (r: Outcome)
    ensures
        exists|code: i32| r == spec_insert_outcome(result, code),
        result == InsertResult::Inserted ==> r == Outcome::Done,
        result == InsertResult::Unknown ==> r == Outcome::Failed,
        r == Outcome::Done || r == Outcome::Failed,
{
    let code: i32 = errno_exists();
    insert_outcome_given(result, code)
}

} // verus!
