use vstd::prelude::*;

verus! {

/// What the storage layer answered to opening the table at a location.
#[derive(PartialEq, Eq, Structural, Clone, Copy, Debug)]
pub enum OpenOutcome {
    /// A table is there, at this version.
    Opened(u64),
    /// No table is there.
    NotFound,
    /// The storage layer failed.
    Failed,
}

/// What the storage layer answered to creating the table at a location.
#[derive(PartialEq, Eq, Structural, Clone, Copy, Debug)]
pub enum CreateOutcome {
    /// This caller created the table, at version 0.
    Created,
    /// Another caller created it first.
    AlreadyExists,
    /// The storage layer failed.
    Failed,
}

/// Why no table handle could be had.
#[derive(PartialEq, Eq, Structural, Clone, Copy, Debug)]
pub enum ProvisionError {
    /// The storage layer failed to open or create the table.
    Storage,
    /// Creation reported an existing table that could not then be opened.
    Vanished,
}

/// What the provisioner does next.
#[derive(PartialEq, Eq, Structural, Clone, Copy, Debug)]
pub enum ProvisionStep {
    /// Open the table at the location.
    Open,
    /// Create the table with the declared name, partitioning and schema.
    Create,
    /// A handle is at hand: the table is at `version`, and `created` tells
    /// whether this caller created it.
    Ready { version: u64, created: bool },
    /// Give up.
    Fail(ProvisionError),
}

pub open spec fn after_open_spec(outcome: OpenOutcome, lost_race: bool) -> ProvisionStep {
    match outcome {
        OpenOutcome::Opened(v) => ProvisionStep::Ready { version: v, created: false },
        OpenOutcome::NotFound => if lost_race {
            ProvisionStep::Fail(ProvisionError::Vanished)
        } else {
            ProvisionStep::Create
        },
        OpenOutcome::Failed => ProvisionStep::Fail(ProvisionError::Storage),
    }
}

pub open spec fn after_create_spec(outcome: CreateOutcome) -> ProvisionStep {
    match outcome {
        CreateOutcome::Created => ProvisionStep::Ready { version: 0, created: true },
        CreateOutcome::AlreadyExists => ProvisionStep::Open,
        CreateOutcome::Failed => ProvisionStep::Fail(ProvisionError::Storage),
    }
}

/// The first step of provisioning: open the table.
pub fn start_provisioning() -> (r: ProvisionStep)
    ensures
        r == ProvisionStep::Open,
{
    ProvisionStep::Open
}

/// Decides what follows an open. An existing table is used as it is, with its
/// own schema; an absent one is created, unless this caller already lost a
/// creation race, in which case the winner's table should have been there.
pub fn after_open(outcome: OpenOutcome, lost_race: bool) -> (r: ProvisionStep)
    ensures
        r == after_open_spec(outcome, lost_race),
{
    match outcome {
        OpenOutcome::Opened(v) => ProvisionStep::Ready { version: v, created: false },
        OpenOutcome::NotFound => {
            if lost_race {
                ProvisionStep::Fail(ProvisionError::Vanished)
            } else {
                ProvisionStep::Create
            }
        },
        OpenOutcome::Failed => ProvisionStep::Fail(ProvisionError::Storage),
    }
}

/// Decides what follows a create. A caller that lost the race to another
/// creator opens the winner's table instead of failing.
pub fn after_create(outcome: CreateOutcome) -> (r: ProvisionStep)
    ensures
        r == after_create_spec(outcome),
{
    match outcome {
        CreateOutcome::Created => ProvisionStep::Ready { version: 0, created: true },
        CreateOutcome::AlreadyExists => ProvisionStep::Open,
        CreateOutcome::Failed => ProvisionStep::Fail(ProvisionError::Storage),
    }
}

/// The storage layer at one location: the version of the table there, if any.
pub open spec fn open_at(location: Option<nat>) -> OpenOutcome {
    match location {
        Some(v) => OpenOutcome::Opened(v as u64),
        None => OpenOutcome::NotFound,
    }
}

/// The storage layer's atomic create: it succeeds only where no table is, and
/// leaves an existing table untouched.
pub open spec fn create_at(location: Option<nat>) -> (Option<nat>, CreateOutcome) {
    match location {
        Some(v) => (Some(v), CreateOutcome::AlreadyExists),
        None => (Some(0), CreateOutcome::Created),
    }
}

/// The location after `n` callers have tried to create the table one after
/// the other, and how many of them created it.
pub open spec fn create_all(location: Option<nat>, n: nat) -> (Option<nat>, nat)
    decreases n,
{
    if n == 0 {
        (location, 0)
    } else {
        let (before, count) = create_all(location, (n - 1) as nat);
        let (after, outcome) = create_at(before);
        (after, count + if outcome == CreateOutcome::Created { 1nat } else { 0nat })
    }
}

/// Where caller `k` of `n` ends when all `n` found the fresh location empty and
/// then tried to create the table in turn: one that lost the race opens the
/// table that the `n` creates left behind.
pub open spec fn racing_caller_result(k: nat, n: nat) -> ProvisionStep {
    let step = after_create_spec(create_at(create_all(None, k).0).1);
    if step == ProvisionStep::Open {
        after_open_spec(open_at(create_all(None, n).0), true)
    } else {
        step
    }
}

proof fn lemma_create_all_fresh(n: nat)
    requires
        n > 0,
    ensures
        create_all(None, n) == (Some(0nat), 1nat),
    decreases n,
{
    if n > 1 {
        lemma_create_all_fresh((n - 1) as nat);
    } else {
        assert(create_all(None, 0) == (None::<nat>, 0nat));
    }
}

/// Provisioning is idempotent under a race: when `n` callers all find a fresh
/// location empty and all try to create the table, exactly one table comes to
/// be, at version 0, exactly one caller creates it, and every caller ends with
/// a handle to it.
pub proof fn lemma_idempotent_provisioning(n: nat)
    requires
        n > 0,
    ensures
        after_open_spec(open_at(None), false) == ProvisionStep::Create,
        create_all(None, n) == (Some(0nat), 1nat),
        forall|k: nat| k < n ==> (#[trigger] racing_caller_result(k, n)) == (ProvisionStep::Ready {
            version: 0,
            created: k == 0,
        }),
{
    lemma_create_all_fresh(n);
    assert forall|k: nat| k < n implies (#[trigger] racing_caller_result(k, n)) == (ProvisionStep::Ready {
        version: 0,
        created: k == 0,
    }) by {
        if k > 0 {
            lemma_create_all_fresh(k);
        }
    }
}

} // verus!
