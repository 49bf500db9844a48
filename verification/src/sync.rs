use vstd::prelude::*;

verus! {

/// A fatal synchronization failure, surfaced to the caller without retry.
#[derive(Debug, Clone, Copy, PartialEq, Eq, Structural)]
pub enum SyncError {
    /// A clone or fetch failed at the network or protocol level, or the
    /// requested revision could not be resolved after fetching.
    Transport,
    /// The local directory exists but does not behave as a valid repository:
    /// it cannot be opened, lacks the `origin` remote, or refuses a local
    /// working-tree update.
    RepositoryCorrupt,
}

/// The immutable pair describing what to synchronize from: the address of the
/// remote document tree and the revision reference to track. Resolved once at
/// startup and read thereafter; nothing mutates it.
pub struct RemoteSource {
    pub origin: String,
    pub revision: String,
}

impl RemoteSource {
    /// A source with the given origin address and revision reference, for a
    /// caller that resolves overrides itself.
    pub fn new(origin: String, revision: String) -> (r: RemoteSource)
        ensures
            r.origin@ == origin@,
            r.revision@ == revision@,
    {
        RemoteSource { origin, revision }
    }
}

impl Default for RemoteSource {
    /// The built-in source: the community chain registry, tracking `master`.
    fn default() -> (r: RemoteSource)
        ensures
            r.origin@ == "https://github.com/cosmos/chain-registry"@,
            r.revision@ == "master"@,
    {
        RemoteSource {
            origin: "https://github.com/cosmos/chain-registry".to_owned(),
            revision: "master".to_owned(),
        }
    }
}

/// The fixed name of the hidden mirror subdirectory kept under the caller's
/// working directory. The mirror persists across processes: repeated runs
/// reuse and refresh it, never recreate it.
pub fn mirror_directory_name() -> (r: &'static str)
    ensures
        r@ == ".cosmos-chain-registry"@,
{
    ".cosmos-chain-registry"
}

/// One repository operation that a driver is asked to perform next. Each
/// operation is blocking and is answered with one [`SyncEvent`].
#[derive(Debug, Clone, Copy, PartialEq, Eq, Structural)]
pub enum SyncAction {
    /// Clone the remote tree into the mirror directory from scratch.
    Clone,
    /// Open the repository already present in the mirror directory.
    Open,
    /// Locate the `origin` remote of the opened repository.
    FindRemote,
    /// Fetch exactly the tracked revision reference from `origin`.
    Fetch,
    /// Resolve the tracked revision reference to an object, noting whether it
    /// names a reference.
    ResolveRevision,
    /// Update the working tree on disk to match the resolved object.
    CheckoutTree,
    /// Repoint the current-position marker at the resolved named reference.
    SetHeadToReference,
    /// Detach the current-position marker to the resolved raw object id.
    SetHeadDetached,
}

/// The driver's report on the operation it was asked to perform.
#[derive(Debug, Clone, Copy, PartialEq, Eq, Structural)]
pub enum SyncEvent {
    /// The requested operation succeeded.
    Completed,
    /// A clone was refused because the mirror directory already holds a
    /// repository: the expected steady state, not a fault.
    MirrorAlreadyPresent,
    /// The revision resolved to a named reference.
    ResolvedToReference,
    /// The revision resolved to a raw object id with no named reference.
    ResolvedToObject,
    /// The requested operation failed.
    OperationFailed,
}

/// Where a synchronization stands: either one operation is pending, or it has
/// ended in `Complete` or `Failed`.
#[derive(Debug, Clone, Copy, PartialEq, Eq, Structural)]
pub enum SyncState {
    /// A clone of the remote tree is pending.
    Cloning,
    /// The mirror already exists; opening it is pending.
    Opening,
    /// Locating the `origin` remote is pending.
    LocatingRemote,
    /// Fetching the tracked revision is pending.
    Fetching,
    /// Resolving the fetched revision is pending.
    Resolving,
    /// Updating the working tree to the resolved object is pending.
    CheckingOut { to_reference: bool },
    /// Repointing the current-position marker is pending.
    SettingHead { to_reference: bool },
    /// The mirror holds a working copy at the target revision.
    Complete,
    /// Synchronization failed; the mirror is left as it was.
    Failed(SyncError),
}

/// The transition relation of the synchronization flow. An event that does not
/// answer the pending operation leaves the state unchanged, and the two
/// terminal states absorb every event.
pub open spec fn next_state(s: SyncState, e: SyncEvent) -> SyncState {
    match (s, e) {
        (SyncState::Cloning, SyncEvent::Completed) => SyncState::Complete,
        (SyncState::Cloning, SyncEvent::MirrorAlreadyPresent) => SyncState::Opening,
        (SyncState::Cloning, SyncEvent::OperationFailed) => SyncState::Failed(
            SyncError::Transport,
        ),
        (SyncState::Opening, SyncEvent::Completed) => SyncState::LocatingRemote,
        (SyncState::Opening, SyncEvent::OperationFailed) => SyncState::Failed(
            SyncError::RepositoryCorrupt,
        ),
        (SyncState::LocatingRemote, SyncEvent::Completed) => SyncState::Fetching,
        (SyncState::LocatingRemote, SyncEvent::OperationFailed) => SyncState::Failed(
            SyncError::RepositoryCorrupt,
        ),
        (SyncState::Fetching, SyncEvent::Completed) => SyncState::Resolving,
        (SyncState::Fetching, SyncEvent::OperationFailed) => SyncState::Failed(
            SyncError::Transport,
        ),
        (SyncState::Resolving, SyncEvent::ResolvedToReference) => SyncState::CheckingOut {
            to_reference: true,
        },
        (SyncState::Resolving, SyncEvent::ResolvedToObject) => SyncState::CheckingOut {
            to_reference: false,
        },
        (SyncState::Resolving, SyncEvent::OperationFailed) => SyncState::Failed(
            SyncError::Transport,
        ),
        (SyncState::CheckingOut { to_reference }, SyncEvent::Completed) => SyncState::SettingHead {
            to_reference,
        },
        (SyncState::CheckingOut { .. }, SyncEvent::OperationFailed) => SyncState::Failed(
            SyncError::RepositoryCorrupt,
        ),
        (SyncState::SettingHead { .. }, SyncEvent::Completed) => SyncState::Complete,
        (SyncState::SettingHead { .. }, SyncEvent::OperationFailed) => SyncState::Failed(
            SyncError::RepositoryCorrupt,
        ),
        _ => s,
    }
}

/// The operation pending in a state, or `None` in the two terminal states.
pub open spec fn pending_action(s: SyncState) -> Option<SyncAction> {
    match s {
        SyncState::Cloning => Some(SyncAction::Clone),
        SyncState::Opening => Some(SyncAction::Open),
        SyncState::LocatingRemote => Some(SyncAction::FindRemote),
        SyncState::Fetching => Some(SyncAction::Fetch),
        SyncState::Resolving => Some(SyncAction::ResolveRevision),
        SyncState::CheckingOut { .. } => Some(SyncAction::CheckoutTree),
        SyncState::SettingHead { to_reference } => if to_reference {
            Some(SyncAction::SetHeadToReference)
        } else {
            Some(SyncAction::SetHeadDetached)
        },
        SyncState::Complete => None,
        SyncState::Failed(_) => None,
    }
}

/// The state reached after answering a whole sequence of events in order.
pub open spec fn run(s: SyncState, events: Seq<SyncEvent>) -> SyncState
    decreases events.len(),
{
    if events.len() == 0 {
        s
    } else {
        run(next_state(s, events[0]), events.drop_first())
    }
}

/// The synchronization flow itself: it decides, from the outcome of each
/// repository operation, which operation comes next, so that a driver that
/// performs the operations can follow it until the mirror is ready.
pub struct SyncFlow {
    state: SyncState,
}

impl SyncFlow {
    /// Where the flow stands.
    pub closed spec fn state(&self) -> SyncState {
        self.state
    }

    /// A fresh flow: the first operation tried is always a clone, whose
    /// refusal on an existing mirror routes into the fast-forward path.
    pub fn new() -> (r: SyncFlow)
        ensures
            r.state() == SyncState::Cloning,
    {
        SyncFlow { state: SyncState::Cloning }
    }

    /// Answers the pending operation with its outcome and moves the flow one
    /// step along the transition relation.
    pub fn advance(&mut self, event: SyncEvent)
        ensures
            final (self).state() == next_state(old(self).state(), event),
    {
        self.state = Self::step(self.state, event);
    }

    /// The executable transition function, equal to [`next_state`].
    pub fn step(s: SyncState, e: SyncEvent) -> (r: SyncState)
        ensures
            r == next_state(s, e),
    {
        match (s, e) {
            (SyncState::Cloning, SyncEvent::Completed) => SyncState::Complete,
            (SyncState::Cloning, SyncEvent::MirrorAlreadyPresent) => SyncState::Opening,
            (SyncState::Cloning, SyncEvent::OperationFailed) => SyncState::Failed(
                SyncError::Transport,
            ),
            (SyncState::Opening, SyncEvent::Completed) => SyncState::LocatingRemote,
            (SyncState::Opening, SyncEvent::OperationFailed) => SyncState::Failed(
                SyncError::RepositoryCorrupt,
            ),
            (SyncState::LocatingRemote, SyncEvent::Completed) => SyncState::Fetching,
            (SyncState::LocatingRemote, SyncEvent::OperationFailed) => SyncState::Failed(
                SyncError::RepositoryCorrupt,
            ),
            (SyncState::Fetching, SyncEvent::Completed) => SyncState::Resolving,
            (SyncState::Fetching, SyncEvent::OperationFailed) => SyncState::Failed(
                SyncError::Transport,
            ),
            (SyncState::Resolving, SyncEvent::ResolvedToReference) => SyncState::CheckingOut {
                to_reference: true,
            },
            (SyncState::Resolving, SyncEvent::ResolvedToObject) => SyncState::CheckingOut {
                to_reference: false,
            },
            (SyncState::Resolving, SyncEvent::OperationFailed) => SyncState::Failed(
                SyncError::Transport,
            ),
            (SyncState::CheckingOut { to_reference }, SyncEvent::Completed) => {
                SyncState::SettingHead { to_reference }
            },
            (SyncState::CheckingOut { .. }, SyncEvent::OperationFailed) => SyncState::Failed(
                SyncError::RepositoryCorrupt,
            ),
            (SyncState::SettingHead { .. }, SyncEvent::Completed) => SyncState::Complete,
            (SyncState::SettingHead { .. }, SyncEvent::OperationFailed) => SyncState::Failed(
                SyncError::RepositoryCorrupt,
            ),
            _ => s,
        }
    }

    /// The operation the driver must perform next, or `None` once the flow has
    /// ended.
    pub fn action(&self) -> (r: Option<SyncAction>)
        ensures
            r == pending_action(self.state()),
    {
        match self.state {
            SyncState::Cloning => Some(SyncAction::Clone),
            SyncState::Opening => Some(SyncAction::Open),
            SyncState::LocatingRemote => Some(SyncAction::FindRemote),
            SyncState::Fetching => Some(SyncAction::Fetch),
            SyncState::Resolving => Some(SyncAction::ResolveRevision),
            SyncState::CheckingOut { .. } => Some(SyncAction::CheckoutTree),
            SyncState::SettingHead { to_reference } => if to_reference {
                Some(SyncAction::SetHeadToReference)
            } else {
                Some(SyncAction::SetHeadDetached)
            },
            SyncState::Complete => None,
            SyncState::Failed(_) => None,
        }
    }

    /// Whether the mirror is ready for lookups.
    pub fn is_complete(&self) -> (r: bool)
        ensures
            r == (self.state() is Complete),
    {
        match self.state {
            SyncState::Complete => true,
            _ => false,
        }
    }

    /// The failure the flow ended in, if any.
    pub fn error(&self) -> (r: Option<SyncError>)
        ensures
            r == (match self.state() {
                SyncState::Failed(err) => Some(err),
                _ => None::<SyncError>,
            }),
    {
        match self.state {
            SyncState::Failed(err) => Some(err),
            _ => None,
        }
    }
}

/// A cold start is one clone: against a location that does not yet exist, the
/// clone is the only operation performed, and its success ends the flow at
/// once, with nothing further pending.
pub proof fn lemma_cold_start_completes()
    ensures
        next_state(SyncState::Cloning, SyncEvent::Completed) == SyncState::Complete,
        pending_action(SyncState::Complete) is None,
{
}

/// The flow reports an error only when an operation actually failed: as long
/// as no event is `OperationFailed`, no run ends in `Failed`. In particular, a
/// clone refused with `MirrorAlreadyPresent` never makes the flow fail.
pub proof fn lemma_no_failed_operation_no_error(s: SyncState, events: Seq<SyncEvent>)
    requires
        !(s is Failed),
        forall|i: int| 0 <= i < events.len() ==> events[i] != SyncEvent::OperationFailed,
    ensures
        !(run(s, events) is Failed),
    decreases events.len(),
{
    if events.len() > 0 {
        let s1 = next_state(s, events[0]);
        assert forall|i: int|
            0 <= i < events.drop_first().len() implies events.drop_first()[i]
            != SyncEvent::OperationFailed by {
            assert(events.drop_first()[i] == events[i + 1]);
        }
        lemma_no_failed_operation_no_error(s1, events.drop_first());
    }
}

/// Once the flow has left its initial state it never asks for a clone again:
/// an existing mirror is refreshed in place, never recreated.
pub proof fn lemma_mirror_never_recloned(s: SyncState, events: Seq<SyncEvent>)
    requires
        s != SyncState::Cloning,
    ensures
        run(s, events) != SyncState::Cloning,
    decreases events.len(),
{
    if events.len() > 0 {
        lemma_mirror_never_recloned(next_state(s, events[0]), events.drop_first());
    }
}

/// Re-entry against an existing mirror is the steady state, not a fault: when
/// the initial clone is answered `MirrorAlreadyPresent` and no subsequent
/// operation fails, the flow neither reports an error nor ever asks for a
/// clone again — repeated synchronizations refresh the same mirror.
pub proof fn lemma_reentry_not_an_error(events: Seq<SyncEvent>)
    requires
        events.len() > 0,
        events[0] == SyncEvent::MirrorAlreadyPresent,
        forall|i: int| 0 <= i < events.len() ==> events[i] != SyncEvent::OperationFailed,
    ensures
        !(run(SyncState::Cloning, events) is Failed),
        run(SyncState::Cloning, events) != SyncState::Cloning,
{
    lemma_no_failed_operation_no_error(SyncState::Cloning, events);
    lemma_mirror_never_recloned(SyncState::Opening, events.drop_first());
}

} // verus!
