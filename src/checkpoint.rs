use vstd::prelude::*;

verus! {

/// Number of versions between two checkpoints unless configured otherwise.
pub const DEFAULT_CHECKPOINT_INTERVAL: u64 = 10;

/// A checkpoint is due after the commit that produced `version` when the
/// version is a multiple of the interval.
pub open spec fn checkpoint_due(version: nat, interval: nat) -> bool {
    interval > 0 && version % interval == 0
}

/// Whether a checkpoint (and pruning of older log entries) should follow the
/// commit that produced `new_version`.
pub fn should_checkpoint(new_version: u64, interval: u64) -> (r: bool)
    requires
        interval > 0,
    ensures
        r == checkpoint_due(new_version as nat, interval as nat),
{
    new_version % interval == 0
}

} // verus!
