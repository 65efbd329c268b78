//! Success/failure accounting over a finished batch, and the quarantine
//! path and diagnostic line built for each failed file.

use vstd::prelude::*;

use crate::outcome::{ErrorKind, FileOutcome};

verus! {

/// How many of the outcomes are failures.
pub open spec fn failure_count(outcomes: Seq<FileOutcome>) -> int
    decreases outcomes.len(),
{
    if outcomes.len() == 0 {
        0
    } else {
        failure_count(outcomes.drop_last()) + if outcomes.last().status is Failure {
            1int
        } else {
            0int
        }
    }
}

/// How many of the outcomes are successes.
pub open spec fn success_count(outcomes: Seq<FileOutcome>) -> int
    decreases outcomes.len(),
{
    if outcomes.len() == 0 {
        0
    } else {
        success_count(outcomes.drop_last()) + if outcomes.last().status is Success {
            1int
        } else {
            0int
        }
    }
}

/// Every outcome is a success or a failure, so the two counts partition the
/// batch: for N outcomes with K failures there are exactly N - K successes.
pub proof fn lemma_counts_partition(outcomes: Seq<FileOutcome>)
    ensures
        success_count(outcomes) + failure_count(outcomes) == outcomes.len(),
        0 <= failure_count(outcomes),
        0 <= success_count(outcomes),
    decreases outcomes.len(),
{
    if outcomes.len() > 0 {
        lemma_counts_partition(outcomes.drop_last());
    }
}

/// The final counts of a run: how many files were processed to completion
/// and how many failed.
pub struct BatchSummary {
    pub processed: usize,
    pub failed: usize,
}

/// Counts the outcomes of a finished batch: `processed` is the number of
/// successes, `failed` the number of failures, and together they account
/// for every enumerated file.
pub fn summarize(outcomes: &Vec<FileOutcome>) -> (r: BatchSummary)
    ensures
        r.processed == success_count(outcomes@),
        r.failed == failure_count(outcomes@),
        r.processed + r.failed == outcomes@.len(),
{
    let mut processed: usize = 0;
    let mut failed: usize = 0;
    let mut i: usize = 0;
    while i < outcomes.len()
        invariant
            i <= outcomes@.len(),
            processed == success_count(outcomes@.take(i as int)),
            failed == failure_count(outcomes@.take(i as int)),
            processed + failed == i,
        decreases outcomes@.len() - i,
    {
        proof {
            assert(outcomes@.take(i + 1).drop_last() =~= outcomes@.take(i as int));
            assert(outcomes@.take(i + 1).last() == outcomes@[i as int]);
        }
        match outcomes[i].status {
            crate::outcome::FileStatus::Success => {
                processed = processed + 1;
            },
            crate::outcome::FileStatus::Failure(_) => {
                failed = failed + 1;
            },
        }
        i = i + 1;
    }
    proof {
        assert(outcomes@.take(outcomes@.len() as int) =~= outcomes@);
    }
    BatchSummary { processed, failed }
}

/// Where a failed file is quarantined to: the failed-files directory plus
/// the file's own base name, joined by a single path separator, so the base
/// name is preserved.
pub fn quarantine_path(failed_directory: &str, file_name: &str) -> (r: String)
    ensures
        r@ == failed_directory@ + "/"@ + file_name@,
{
    let mut r = String::from_str(failed_directory);
    r.append("/");
    r.append(file_name);
    proof {
        assert(r@ =~= failed_directory@ + "/"@ + file_name@);
    }
    r
}

/// The diagnostic line emitted for one failed file: the path, the
/// human-readable reason, and where the file was moved.
pub fn failure_line(path: &str, reason: &ErrorKind, new_path: &str) -> (r: String)
    ensures
        r@ == "Failed to process "@ + path@ + ": "@ + reason.message_spec() + " -> "@
            + new_path@,
{
    let mut r = String::from_str("Failed to process ");
    r.append(path);
    r.append(": ");
    let msg = reason.message();
    r.append(msg.as_str());
    r.append(" -> ");
    r.append(new_path);
    proof {
        assert(r@ =~= "Failed to process "@ + path@ + ": "@ + reason.message_spec() + " -> "@
            + new_path@);
    }
    r
}

} // verus!
