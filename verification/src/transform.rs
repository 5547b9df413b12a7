//! Judging the native library's per-projection error code after a
//! transform call.
//!
//! The native library reports failure through an error flag that is reset
//! before the call and read after it. A zero code means the transform
//! succeeded; every non-zero code is fatal, with no distinction between
//! categories of failure.

use vstd::prelude::*;

verus! {

/// The verdict on one transform call, read off the native error code.
#[derive(Clone, Copy, Debug, PartialEq, Eq, Structural)]
pub enum TransformOutcome {
    /// The error code was zero: the transformed point is valid.
    Accepted,
    /// The error code was non-zero: the call failed and the caller must
    /// halt. The native code is carried for the diagnostic.
    NativeFailure { code: i32 },
}

/// What `classify_errno` returns for a given error code.
pub open spec fn spec_outcome(err: i32) -> TransformOutcome {
    if err == 0 {
        TransformOutcome::Accepted
    } else {
        TransformOutcome::NativeFailure { code: err }
    }
}

/// Judge the error code read back after a transform call: zero is the
/// no-error sentinel, everything else is a fatal native failure.
pub fn classify_errno(err: i32) -> (o: TransformOutcome)
    ensures
        o == spec_outcome(err),
        o is Accepted <==> err == 0,
{
    if err == 0 {
        TransformOutcome::Accepted
    } else {
        TransformOutcome::NativeFailure { code: err }
    }
}

/// Every non-zero error code is surfaced the same way: as a fatal
/// `NativeFailure` carrying exactly that code. No class of native failure
/// is recovered from or treated apart from the others.
pub proof fn lemma_nonzero_code_is_fatal(err: i32)
    requires
        err != 0,
    ensures
        spec_outcome(err) matches TransformOutcome::NativeFailure { code } && code == err,
{
}

} // verus!
