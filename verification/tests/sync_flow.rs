use cosmos_chain_registry::RemoteSource;
use cosmos_chain_registry::SyncError;
use cosmos_chain_registry::sync::SyncAction;
use cosmos_chain_registry::sync::SyncEvent;
use cosmos_chain_registry::sync::SyncFlow;
use cosmos_chain_registry::sync::mirror_directory_name;

/// Drives one synchronization in which every operation succeeds against an
/// already-existing mirror, recording the operations that were requested.
fn drive_existing_mirror(resolved: SyncEvent) -> (SyncFlow, Vec<SyncAction>) {
    let mut flow = SyncFlow::new();
    let mut performed = Vec::new();

    performed.push(flow.action().expect("a fresh flow asks for an operation"));
    flow.advance(SyncEvent::MirrorAlreadyPresent);

    while let Some(action) = flow.action() {
        performed.push(action);
        let event = match action {
            SyncAction::ResolveRevision => resolved,
            _ => SyncEvent::Completed,
        };
        flow.advance(event);
    }
    (flow, performed)
}

#[test]
fn cold_start_clones_once() {
    let mut flow = SyncFlow::new();
    assert_eq!(flow.action(), Some(SyncAction::Clone));
    flow.advance(SyncEvent::Completed);
    assert!(flow.is_complete());
    assert_eq!(flow.error(), None);
    assert_eq!(flow.action(), None);
}

#[test]
fn existing_mirror_is_fast_forwarded() {
    let (flow, performed) = drive_existing_mirror(SyncEvent::ResolvedToReference);
    assert!(flow.is_complete());
    assert_eq!(flow.error(), None);
    assert_eq!(
        performed,
        vec![
            SyncAction::Clone,
            SyncAction::Open,
            SyncAction::FindRemote,
            SyncAction::Fetch,
            SyncAction::ResolveRevision,
            SyncAction::CheckoutTree,
            SyncAction::SetHeadToReference,
        ]
    );
}

#[test]
fn unnamed_revision_detaches_head() {
    let (flow, performed) = drive_existing_mirror(SyncEvent::ResolvedToObject);
    assert!(flow.is_complete());
    assert_eq!(performed.last(), Some(&SyncAction::SetHeadDetached));
}

#[test]
fn second_run_is_identical_to_first() {
    // Re-entry with no remote change: both runs complete, neither errors, and
    // the second run performs no clone after its initial refusal.
    let (first, first_ops) = drive_existing_mirror(SyncEvent::ResolvedToReference);
    let (second, second_ops) = drive_existing_mirror(SyncEvent::ResolvedToReference);
    assert!(first.is_complete());
    assert!(second.is_complete());
    assert_eq!(first_ops, second_ops);
    assert_eq!(second_ops.iter().filter(|a| **a == SyncAction::Clone).count(), 1);
}

#[test]
fn clone_failure_is_transport() {
    let mut flow = SyncFlow::new();
    flow.advance(SyncEvent::OperationFailed);
    assert_eq!(flow.error(), Some(SyncError::Transport));
    assert!(!flow.is_complete());
    assert_eq!(flow.action(), None);
}

#[test]
fn unopenable_mirror_is_corrupt() {
    let mut flow = SyncFlow::new();
    flow.advance(SyncEvent::MirrorAlreadyPresent);
    assert_eq!(flow.action(), Some(SyncAction::Open));
    flow.advance(SyncEvent::OperationFailed);
    assert_eq!(flow.error(), Some(SyncError::RepositoryCorrupt));
}

#[test]
fn fetch_failure_is_transport() {
    let mut flow = SyncFlow::new();
    flow.advance(SyncEvent::MirrorAlreadyPresent);
    flow.advance(SyncEvent::Completed);
    flow.advance(SyncEvent::Completed);
    assert_eq!(flow.action(), Some(SyncAction::Fetch));
    flow.advance(SyncEvent::OperationFailed);
    assert_eq!(flow.error(), Some(SyncError::Transport));
}

#[test]
fn unresolvable_revision_is_transport() {
    let mut flow = SyncFlow::new();
    flow.advance(SyncEvent::MirrorAlreadyPresent);
    flow.advance(SyncEvent::Completed);
    flow.advance(SyncEvent::Completed);
    flow.advance(SyncEvent::Completed);
    assert_eq!(flow.action(), Some(SyncAction::ResolveRevision));
    flow.advance(SyncEvent::OperationFailed);
    assert_eq!(flow.error(), Some(SyncError::Transport));
}

#[test]
fn failure_leaves_flow_terminal() {
    let mut flow = SyncFlow::new();
    flow.advance(SyncEvent::OperationFailed);
    // A terminal flow absorbs further events.
    flow.advance(SyncEvent::Completed);
    assert_eq!(flow.error(), Some(SyncError::Transport));
}

#[test]
fn default_source_points_at_community_registry() {
    let source = RemoteSource::default();
    assert_eq!(source.origin, "https://github.com/cosmos/chain-registry");
    assert_eq!(source.revision, "master");
}

#[test]
fn explicit_source_keeps_its_values() {
    let source = RemoteSource::new(
        String::from("https://example.org/registry"),
        String::from("main"),
    );
    assert_eq!(source.origin, "https://example.org/registry");
    assert_eq!(source.revision, "main");
}

#[test]
fn mirror_directory_is_hidden_and_fixed() {
    assert_eq!(mirror_directory_name(), ".cosmos-chain-registry");
}
