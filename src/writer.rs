use vstd::prelude::*;

verus! {

/// Number of retries after a conflict unless configured otherwise.
pub const DEFAULT_MAX_COMMIT_RETRIES: u32 = 5;

/// What the storage layer answered to one conditional submit of a batch.
#[derive(PartialEq, Eq, Structural, Clone, Copy, Debug)]
pub enum SubmitOutcome {
    /// The batch was accepted and the table is now at this version.
    Committed(u64),
    /// Another writer committed since the base version was read.
    Conflict,
    /// The write failed for another reason (I/O, schema violation).
    Failed,
}

/// Why a batch could not be committed.
#[derive(PartialEq, Eq, Structural, Clone, Copy, Debug)]
pub enum CommitError {
    /// Every attempt lost the race against another writer, after this many retries.
    ConflictLimit { retries: u32 },
    /// The storage layer failed for a reason other than a conflict.
    Storage,
    /// The storage layer reported a version that is not after the base.
    UnexpectedVersion { base: u64, reported: u64 },
}

/// What the writer does after a submit.
#[derive(PartialEq, Eq, Structural, Clone, Copy, Debug)]
pub enum CommitStep {
    /// The batch is committed at this version.
    Done(u64),
    /// Re-read the current version and submit the same batch again.
    Retry,
    /// Give up on the batch.
    Fail(CommitError),
}

/// The writer's decision after submitting against `base_version`, having
/// already retried `retries_used` times out of `max_retries`.
pub open spec fn commit_step_spec(
    base_version: nat,
    retries_used: nat,
    max_retries: nat,
    outcome: SubmitOutcome,
) -> CommitStep {
    match outcome {
        SubmitOutcome::Committed(v) => if v > base_version {
            CommitStep::Done(v)
        } else {
            CommitStep::Fail(CommitError::UnexpectedVersion { base: base_version as u64, reported: v })
        },
        SubmitOutcome::Conflict => if retries_used < max_retries {
            CommitStep::Retry
        } else {
            CommitStep::Fail(CommitError::ConflictLimit { retries: retries_used as u32 })
        },
        SubmitOutcome::Failed => CommitStep::Fail(CommitError::Storage),
    }
}

/// Decides what follows one submit of a batch: accept the new version, retry
/// after a conflict while retries remain, or fail. The storage layer may itself
/// have moved the batch past commits that do not touch it, so any version after
/// the base is accepted; one at or before the base breaks its protocol.
pub fn next_commit_step(
    base_version: u64,
    retries_used: u32,
    max_retries: u32,
    outcome: SubmitOutcome,
) -> (r: CommitStep)
    requires
        retries_used <= max_retries,
    ensures
        r == commit_step_spec(base_version as nat, retries_used as nat, max_retries as nat, outcome),
{
    match outcome {
        SubmitOutcome::Committed(v) => {
            if v > base_version {
                CommitStep::Done(v)
            } else {
                CommitStep::Fail(CommitError::UnexpectedVersion { base: base_version, reported: v })
            }
        },
        SubmitOutcome::Conflict => {
            if retries_used < max_retries {
                CommitStep::Retry
            } else {
                CommitStep::Fail(CommitError::ConflictLimit { retries: retries_used })
            }
        },
        SubmitOutcome::Failed => CommitStep::Fail(CommitError::Storage),
    }
}

/// The state of a table as readers see it: its version and every record of
/// every accepted commit, in commit order.
pub struct TableState<R> {
    pub version: nat,
    pub records: Seq<R>,
}

/// The storage layer's atomic, conditional commit: a batch submitted against
/// the current version is appended whole and advances the version by one; one
/// submitted against any other version conflicts and changes nothing.
pub open spec fn submit<R>(t: TableState<R>, base_version: nat, batch: Seq<R>) -> (TableState<R>, SubmitOutcome) {
    if base_version == t.version && t.version + 1 <= u64::MAX {
        (TableState { version: t.version + 1, records: t.records + batch }, SubmitOutcome::Committed((t.version + 1) as u64))
    } else if base_version != t.version {
        (t, SubmitOutcome::Conflict)
    } else {
        (t, SubmitOutcome::Failed)
    }
}

/// A batch submitted against the current version is committed whole: the
/// version grows by exactly one, readers see all of its records after the
/// earlier ones, and the writer accepts that version. A batch submitted against
/// an older version leaves the table exactly as it was.
pub proof fn lemma_commit_atomic<R>(t: TableState<R>, batch: Seq<R>, stale_base: nat)
    requires
        t.version < u64::MAX,
        stale_base != t.version,
    ensures
        submit(t, t.version, batch).0.version == t.version + 1,
        submit(t, t.version, batch).0.records == t.records + batch,
        commit_step_spec(t.version, 0, 0, submit(t, t.version, batch).1) == CommitStep::Done((t.version + 1) as u64),
        submit(t, stale_base, batch).0 == t,
        submit(t, stale_base, batch).1 == SubmitOutcome::Conflict,
{
}

/// Two writers read the same version and submit their batches. The first wins
/// at the next version; the second meets a conflict, retries against the new
/// version and wins the one after, so both batches are present once each, in
/// commit order.
pub proof fn lemma_conflict_retry<R>(t: TableState<R>, first: Seq<R>, second: Seq<R>, max_retries: nat)
    requires
        t.version + 2 <= u64::MAX,
        max_retries > 0,
    ensures
        ({
            let base = t.version;
            let (t1, o1) = submit(t, base, first);
            let (t2, o2) = submit(t1, base, second);
            let (t3, o3) = submit(t2, t2.version, second);
            &&& commit_step_spec(base, 0, max_retries, o1) == CommitStep::Done((base + 1) as u64)
            &&& o2 == SubmitOutcome::Conflict
            &&& t2 == t1
            &&& commit_step_spec(base, 0, max_retries, o2) == CommitStep::Retry
            &&& commit_step_spec(t2.version, 1, max_retries, o3) == CommitStep::Done((base + 2) as u64)
            &&& t3.version == base + 2
            &&& t3.records == t.records + first + second
        }),
{
}

} // verus!
