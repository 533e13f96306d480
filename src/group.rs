use vstd::prelude::*;

use crate::types::{ErrType, SyArmError};

verus! {

/// Every axis of a per-axis report succeeded.
pub open spec fn all_true(s: Seq<bool>) -> bool {
    forall|i: int| 0 <= i < s.len() ==> #[trigger] s[i]
}

/// Outcome of a batched operation over all axes: it succeeds only if every
/// axis succeeded, and otherwise hands back the whole per-axis report.
pub open spec fn batch_spec(s: Seq<bool>) -> Result<(), Seq<bool>> {
    if all_true(s) {
        Ok(())
    } else {
        Err(s)
    }
}

/// The per-axis report carried by an outcome, as a sequence.
pub open spec fn outcome_view(r: Result<(), Vec<bool>>) -> Result<(), Seq<bool>> {
    match r {
        Ok(()) => Ok(()),
        Err(v) => Err(v@),
    }
}

/// Whether every axis of the report succeeded.
pub fn all_ok(results: &Vec<bool>) -> (r: bool)
    ensures
        r == all_true(results@),
{
    let mut i: usize = 0;
    while i < results.len()
        invariant
            i <= results@.len(),
            forall|j: int| 0 <= j < i ==> #[trigger] results@[j],
        decreases results@.len() - i,
    {
        if !results[i] {
            return false;
        }
        i = i + 1;
    }
    true
}

/// Combines the per-axis results of a batched operation. Every axis has run
/// to completion before; a single failing axis fails the batch.
pub fn batch_outcome(results: Vec<bool>) -> (r: Result<(), Vec<bool>>)
    ensures
        outcome_view(r) == batch_spec(results@),
{
    if all_ok(&results) {
        Ok(())
    } else {
        Err(results)
    }
}

/// Safety gate before any motion: given each axis's verdict on its target
/// (finite and inside its limits), either admits the move or rejects it with
/// the per-axis verdicts and a validation error.
pub fn gammas_verdict(valids: Vec<bool>) -> (r: Result<(), (Vec<bool>, SyArmError)>)
    ensures
        r is Ok <==> all_true(valids@),
        r matches Err(e) ==> e.0@ == valids@ && e.1.err_type == ErrType::OutOfRange,
{
    if all_ok(&valids) {
        Ok(())
    } else {
        let e = SyArmError::new("The gammas given are not valid", ErrType::OutOfRange);
        Err((valids, e))
    }
}

/// Why a multi-axis move did not complete.
#[derive(Debug)]
pub enum DriveError {
    /// Validation refused the targets: no axis moved. Holds each axis's verdict.
    Rejected(Vec<bool>),
    /// The move was issued and at least one axis failed. Holds which axes finished.
    Partial(Vec<bool>),
}

/// Admits a move whose per-axis target verdicts are all positive; otherwise
/// rejects it before any axis moves.
pub fn admit_drive(valids: Vec<bool>) -> (r: Result<(), DriveError>)
    ensures
        r is Ok <==> all_true(valids@),
        r matches Err(e) ==> (e matches DriveError::Rejected(v) && v@ == valids@),
{
    if all_ok(&valids) {
        Ok(())
    } else {
        Err(DriveError::Rejected(valids))
    }
}

/// Reports an issued move from which axes finished: complete only if all
/// of them did, a partial failure otherwise.
pub fn drive_outcome(done: Vec<bool>) -> (r: Result<(), DriveError>)
    ensures
        r is Ok <==> all_true(done@),
        r matches Err(e) ==> (e matches DriveError::Partial(v) && v@ == done@),
{
    if all_ok(&done) {
        Ok(())
    } else {
        Err(DriveError::Partial(done))
    }
}

/// A batch in which exactly one axis failed is reported as a failure that
/// flags that axis alone.
pub proof fn lemma_single_failure_flagged(s: Seq<bool>, k: int)
    requires
        0 <= k < s.len(),
        !s[k],
        forall|j: int| 0 <= j < s.len() && j != k ==> #[trigger] s[j],
    ensures
        batch_spec(s) matches Err(t) && t.len() == s.len() && !t[k] && (forall|j: int|
            0 <= j < t.len() && j != k ==> #[trigger] t[j]),
{
}

} // verus!
