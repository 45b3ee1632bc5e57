//! Sync Runs with exactly one SSH peer: the transfer evidence a remote
//! backend reports, the checks that evidence must pass, and the journal the
//! workflow keeps while it copies, verifies and moves sources to the remote
//! Trash.
use vstd::prelude::*;

use crate::failure::{ssh_failure_reason, ssh_is_retryable, ssh_leaves_unresolved, ssh_needs_recovery_review, retry_delay_millis, SshRunError};
use crate::journal::{lemma_push_removal, outcome_in, settled_outcome, JournalEvent, OneWayPlan, PlanAction};
use crate::model::{opposite_side, ActionOutcome, ActionReason, DeletionMethod, PeerSide, PlanActionKind, RunId};
use crate::profile::{peer_for_side, peer_is_ssh, peer_root, side_peer, Peer, PeerEndpoint, RetryPolicy, SshPeer, SyncProfile};
use crate::scope_lock::{scopes_conflict, scopes_overlap, PeerScope, ScopeLockOwner};
use crate::store::{RunEvidenceStore, RunReport, StorageError};
use crate::profile::AuthorizationSnapshot;
use crate::journal::reconciled_status;
use crate::text::{chars_of, debug_quoted, debug_text, push_char};
use crate::calls::{
    added, appended, attempt_call, call_probe_host, call_recover_source, call_remote_precheck, call_ssh_analysis, call_ssh_observe,
    call_ssh_transfer, call_ssh_wait, effect_free, execution_call, execution_only, has_effect, lemma_added_push, lemma_added_refl,
    lemma_added_trans, lemma_calls_concat, lemma_ssh_retry_execution_only, removal_started, removals_follow_start, ssh_answer,
    ssh_attempt_for, ssh_retry_calls, wait_call, EnvCall,
};
use crate::workflow::{
    action_ids, all_planned_settled, joined, string_views, always_cancels, cancelled_run, never_confirms, journaled_new_run, distinct_ids, executable_plan, executed_run, persist_plan, plan_ids_distinct,
    report_of, run_snapshot, lemma_acquire_then_release, locks_released, prefixed, profile_peer_scopes,
    profile_scopes, scope_held_elsewhere, join_lines, extends_for, journal_only, lemma_all_settled,
    lemma_journal_only_refl, lemma_journal_only_trans, lemma_settled_for_outcomes, ordered, record_event, stops_run, ActionDisposition, ProcessSupervisor, RunWorkflow,
    WorkflowError,
};
use crate::journal::planned_ids;

verus! {

/// The size and SHA-256 digest of one item's content.
#[derive(Debug, Clone, PartialEq, Eq)]
pub struct ContentProof {
    pub size: u64,
    pub sha256: Vec<u8>,
}

/// The device and inode that identify a source item while it is stable.
#[derive(Debug, Clone, Copy, PartialEq, Eq, Structural)]
pub struct FileIdentity {
    pub device: u64,
    pub inode: u64,
}

#[derive(Debug, Clone, Copy, PartialEq, Eq, Structural)]
pub enum ItemType {
    RegularFile,
    Directory,
    Symlink,
    Special,
}

pub open spec fn same_proof(a: ContentProof, b: ContentProof) -> bool {
    a.size == b.size && a.sha256@ == b.sha256@
}

pub open spec fn same_optional_proof(a: Option<ContentProof>, b: Option<ContentProof>) -> bool {
    match (a, b) {
        (Some(a), Some(b)) => same_proof(a, b),
        (None, None) => true,
        _ => false,
    }
}

fn bytes_equal(a: &Vec<u8>, b: &Vec<u8>) -> (equal: bool)
    ensures
        equal == (a@ == b@),
{
    if a.len() != b.len() {
        return false;
    }
    let mut index: usize = 0;
    while index < a.len()
        invariant
            a@.len() == b@.len(),
            index <= a@.len(),
            forall|k: int| 0 <= k < index ==> a@[k] == b@[k],
        decreases a@.len() - index,
    {
        if a[index] != b[index] {
            return false;
        }
        index += 1;
    }
    assert(a@ =~= b@);
    true
}

fn proofs_equal(a: &ContentProof, b: &ContentProof) -> (equal: bool)
    ensures
        equal == same_proof(*a, *b),
{
    a.size == b.size && bytes_equal(&a.sha256, &b.sha256)
}

fn optional_bytes_equal(a: &Option<Vec<u8>>, b: &Option<Vec<u8>>) -> (equal: bool)
    ensures
        equal == match (*a, *b) {
            (Some(x), Some(y)) => x@ == y@,
            (None, None) => true,
            _ => false,
        },
{
    match (a, b) {
        (Some(x), Some(y)) => bytes_equal(x, y),
        (None, None) => true,
        _ => false,
    }
}

/// `relative` below `root`, as `Path::join` forms it: an absolute
/// `relative` replaces the root, and one separator stands between them.
pub open spec fn path_join(root: Seq<char>, relative: Seq<char>) -> Seq<char> {
    if relative.len() > 0 && relative[0] == '/' {
        relative
    } else if root.len() == 0 || root.last() == '/' {
        root + relative
    } else {
        root.push('/') + relative
    }
}

pub fn join_path(root: &str, relative: &str) -> (path: String)
    ensures
        path@ == path_join(root@, relative@),
{
    let relative_chars = chars_of(relative);
    if relative_chars.len() > 0 && relative_chars[0] == '/' {
        return String::from_str(relative);
    }
    let root_chars = chars_of(root);
    let mut path = String::from_str(root);
    if root_chars.len() > 0 && root_chars[root_chars.len() - 1] != '/' {
        push_char(&mut path, '/');
    }
    path.append(relative);
    path
}

/// What one SSH transfer attempt reports about the source and the installed
/// destination.
#[derive(Debug, Clone, PartialEq, Eq)]
pub struct SshTransferEvidence {
    pub source_path: String,
    pub destination_path: String,
    /// The item type read from the source metadata.
    pub item_type: Option<ItemType>,
    pub source: Option<ContentProof>,
    pub destination: Option<ContentProof>,
    pub metadata_verified: bool,
    pub source_identity: Option<FileIdentity>,
    /// The source was read again after the install and had not changed.
    pub source_stability_verified: bool,
}

/// The remote Trash that a remote precheck found, and what still blocks a run.
#[derive(Debug, Clone, PartialEq, Eq)]
pub struct RemotePrecheck {
    pub blockers: Vec<String>,
    pub recovery_root: Option<String>,
}

/// One SSH action as the backend carries it out.
#[derive(Debug, Clone, PartialEq, Eq)]
pub struct SshTransferRequest {
    pub run_id: RunId,
    pub action_id: u64,
    pub relative_path: String,
    pub source_path: String,
    pub destination_path: String,
    pub remote_peer: SshPeer,
    pub deletion_method: Option<DeletionMethod>,
    /// Where a verified remote source goes when it is moved to the Trash.
    pub remote_recovery_target: Option<String>,
    pub supervisor: ProcessSupervisor,
}

/// Where a recovered item came from, as recorded beside it in the Trash.
#[derive(Debug, Clone, PartialEq, Eq)]
pub struct RecoveryProvenance {
    pub username: String,
    pub server: String,
    pub port: u16,
    pub original_root: String,
    pub relative_path: String,
    pub run_id: RunId,
    pub item_type: ItemType,
    pub content: Option<ContentProof>,
    pub source_identity: Option<FileIdentity>,
}

/// What a remote recovery left on the peer.
#[derive(Debug, Clone, PartialEq, Eq)]
pub struct RecoveryEvidence {
    pub recovery_target: Option<String>,
    pub source_present: bool,
    pub destination_present: bool,
    pub recovery_present: bool,
    pub source_size: Option<u64>,
    pub destination_size: Option<u64>,
    pub source_sha256: Option<Vec<u8>>,
    pub destination_sha256: Option<Vec<u8>>,
    pub recovery_size: Option<u64>,
    pub recovery_sha256: Option<Vec<u8>>,
    pub provenance: Option<RecoveryProvenance>,
}

/// The result of one transfer call and the byte counts it reported.
pub struct SshTransferAttempt {
    pub result: Result<SshTransferEvidence, SshRunError>,
    pub progress: Vec<u64>,
}

/// A host identity the user trusted for one server.
#[derive(Debug, Clone, PartialEq, Eq)]
pub struct SshHostTrustPermit {
    pub server: String,
    pub port: u16,
    pub fingerprint: String,
}

/// The remote work of an SSH run. The workflow decides what to journal
/// from whatever these calls return.
pub trait SshRunBackend {
    /// The host fingerprint the server presents now.
    fn probe_host(&self, peer: &SshPeer) -> Result<String, String>;

    /// Remote capabilities: blockers and the remote Trash, if there is one.
    fn remote_precheck(&self, peer: &SshPeer) -> Result<RemotePrecheck, String>;

    /// Fresh Analysis of both peers: the plan the user is asked to confirm.
    fn fresh_analysis(&self, profile: &SyncProfile) -> Result<OneWayPlan, String>;

    /// One transfer attempt of `request`.
    fn transfer(&self, request: &SshTransferRequest) -> SshTransferAttempt;

    /// Waits before a retry; `false` when the run was cancelled while waiting.
    fn wait_before_retry(&self, delay_millis: u64) -> bool;

    /// Moves a verified remote source to the remote Trash.
    fn recover_source(&self, request: &SshTransferRequest, transfer: &SshTransferEvidence) -> Result<RecoveryEvidence, SshRunError>;

    /// Completion Reconciliation's independent observation of both peers.
    fn observe_consistent(&self, profile: &SyncProfile, journal: &Vec<JournalEvent>) -> bool;
}

/// The single SSH peer of a profile and its side.
pub open spec fn ssh_side(profile: SyncProfile) -> Option<PeerSide> {
    if peer_is_ssh(profile.peer_a) && !peer_is_ssh(profile.peer_b) {
        Some(PeerSide::PeerA)
    } else if !peer_is_ssh(profile.peer_a) && peer_is_ssh(profile.peer_b) {
        Some(PeerSide::PeerB)
    } else {
        None
    }
}

pub open spec fn ssh_of(peer: Peer) -> SshPeer {
    match peer.endpoint {
        PeerEndpoint::Ssh(ssh) => ssh,
        _ => arbitrary(),
    }
}

/// The profile's one SSH peer; a profile with none or two is refused.
pub fn ssh_peer_for_profile(profile: &SyncProfile) -> (result: Result<(PeerSide, &SshPeer), WorkflowError>)
    ensures
        match result {
            Ok((side, peer)) => ssh_side(*profile) == Some(side) && *peer == ssh_of(side_peer(*profile, side)),
            Err(error) => ssh_side(*profile) is None
                && (error matches WorkflowError::InvalidRun(message) && message@ == ssh_peer_refusal_text(*profile)),
        },
{
    match (&profile.peer_a.endpoint, &profile.peer_b.endpoint) {
        (PeerEndpoint::Ssh(peer), PeerEndpoint::Local { .. }) => Ok((PeerSide::PeerA, peer)),
        (PeerEndpoint::Local { .. }, PeerEndpoint::Ssh(peer)) => Ok((PeerSide::PeerB, peer)),
        (PeerEndpoint::Local { .. }, PeerEndpoint::Local { .. }) => Err(WorkflowError::InvalidRun(String::from_str("SSH workflow requires one SSH peer"))),
        (PeerEndpoint::Ssh(_), PeerEndpoint::Ssh(_)) => Err(WorkflowError::InvalidRun(String::from_str("SSH workflow does not support two SSH peers"))),
    }
}

/// Why a profile without exactly one SSH peer cannot run over SSH.
pub open spec fn ssh_peer_refusal_text(profile: SyncProfile) -> Seq<char> {
    if profile.peer_a.endpoint is Ssh {
        "SSH workflow does not support two SSH peers"@
    } else {
        "SSH workflow requires one SSH peer"@
    }
}

/// The evidence names the request's paths, and a regular file's installed
/// content equals its source, of the size the plan recorded.
pub open spec fn evidence_matches(evidence: SshTransferEvidence, request: SshTransferRequest, action: PlanAction) -> bool {
    &&& evidence.source_path@ == request.source_path@
    &&& evidence.destination_path@ == request.destination_path@
    &&& evidence.item_type is Some
    &&& evidence.item_type == Some(ItemType::RegularFile) ==> {
        &&& evidence.source is Some
        &&& evidence.destination is Some
        &&& same_proof(evidence.source.unwrap(), evidence.destination.unwrap())
        &&& action.size matches Some(size) ==> evidence.source.unwrap().size == size
    }
}

fn evidence_checks(evidence: &SshTransferEvidence, request: &SshTransferRequest, action: &PlanAction) -> (matches: bool)
    ensures
        matches == evidence_matches(*evidence, *request, *action),
{
    if evidence.source_path != request.source_path || evidence.destination_path != request.destination_path {
        return false;
    }
    match evidence.item_type {
        None => false,
        Some(ItemType::RegularFile) => match (&evidence.source, &evidence.destination) {
            (Some(source), Some(destination)) => {
                if !proofs_equal(source, destination) {
                    return false;
                }
                match action.size {
                    Some(size) => source.size == size,
                    None => true,
                }
            },
            _ => false,
        },
        Some(_) => true,
    }
}

/// The remote Trash holds exactly the verified source: the target lies
/// outside the source, the source is gone, the destination and recovery copy
/// are present with the transferred content, and the provenance names this
/// peer, path, run, item type and source identity.
pub open spec fn remote_recovery_valid(request: SshTransferRequest, transfer: SshTransferEvidence, recovery: RecoveryEvidence) -> bool {
    &&& request.remote_recovery_target matches Some(target)
    &&& transfer.source_stability_verified
    &&& transfer.source matches Some(source)
    &&& transfer.destination matches Some(destination)
    &&& !scopes_overlap(target@, path_join(request.remote_peer.remote_path@, request.relative_path@))
    &&& !recovery.source_present
    &&& recovery.destination_present
    &&& recovery.recovery_present
    &&& recovery.recovery_target matches Some(recorded) && recorded@ == target@
    &&& recovery.source_size == Some(source.size)
    &&& recovery.destination_size == Some(destination.size)
    &&& recovery.source_sha256 matches Some(digest) && digest@ == source.sha256@
    &&& recovery.destination_sha256 matches Some(digest) && digest@ == destination.sha256@
    &&& transfer.source_identity is Some
    &&& recovery.recovery_size == Some(source.size)
    &&& recovery.recovery_sha256 matches Some(digest) && digest@ == source.sha256@
    &&& recovery.provenance matches Some(provenance)
    &&& transfer.item_type matches Some(item_type)
    &&& provenance.username@ == request.remote_peer.username@
    &&& provenance.server@ == request.remote_peer.server@
    &&& provenance.port == request.remote_peer.port
    &&& provenance.original_root@ == request.remote_peer.remote_path@
    &&& provenance.relative_path@ == request.relative_path@
    &&& provenance.run_id == request.run_id
    &&& provenance.item_type == item_type
    &&& provenance.source_identity == transfer.source_identity
    &&& same_optional_proof(provenance.content, transfer.source)
}

fn optional_proofs_equal(a: &Option<ContentProof>, b: &Option<ContentProof>) -> (equal: bool)
    ensures
        equal == same_optional_proof(*a, *b),
{
    match (a, b) {
        (Some(a), Some(b)) => proofs_equal(a, b),
        (None, None) => true,
        _ => false,
    }
}

fn same_identity(a: &Option<FileIdentity>, b: &Option<FileIdentity>) -> (equal: bool)
    ensures
        equal == (*a == *b),
{
    match (a, b) {
        (Some(x), Some(y)) => x.device == y.device && x.inode == y.inode,
        (None, None) => true,
        _ => false,
    }
}

/// A remote removal is accepted as a verified move to the Trash only when
/// the recovery evidence finds the recovery copy in the Trash, the source
/// gone and the destination present, with the transferred source's size
/// and digest on the recovery copy.
pub proof fn accepted_recovery_found_the_trash_copy(
    request: SshTransferRequest,
    transfer: SshTransferEvidence,
    recovery: RecoveryEvidence,
)
    ensures
        remote_recovery_valid(request, transfer, recovery) ==> {
            &&& recovery.recovery_present
            &&& !recovery.source_present
            &&& recovery.destination_present
            &&& transfer.source is Some
            &&& recovery.recovery_size == Some(transfer.source->Some_0.size)
            &&& recovery.recovery_sha256 is Some
            &&& recovery.recovery_sha256->Some_0@ == transfer.source->Some_0.sha256@
            &&& request.remote_recovery_target is Some
            &&& recovery.recovery_target is Some
            &&& recovery.recovery_target->Some_0@ == request.remote_recovery_target->Some_0@
            &&& recovery.source_size == Some(transfer.source->Some_0.size)
            &&& recovery.source_sha256 is Some
            &&& recovery.source_sha256->Some_0@ == transfer.source->Some_0.sha256@
            &&& transfer.destination is Some
            &&& recovery.destination_size == Some(transfer.destination->Some_0.size)
            &&& recovery.provenance is Some
        },
{
}

/// Whether a remote recovery result proves where the verified source went.
pub fn validate_remote_recovery(request: &SshTransferRequest, transfer: &SshTransferEvidence, recovery: &RecoveryEvidence) -> (valid: bool)
    ensures
        valid == remote_recovery_valid(*request, *transfer, *recovery),
        valid ==> recovery.recovery_present && !recovery.source_present && recovery.destination_present,
{
    proof {
        accepted_recovery_found_the_trash_copy(*request, *transfer, *recovery);
    }
    let target = match &request.remote_recovery_target {
        Some(target) => target,
        None => return false,
    };
    if !transfer.source_stability_verified {
        return false;
    }
    let (source, destination) = match (&transfer.source, &transfer.destination) {
        (Some(source), Some(destination)) => (source, destination),
        _ => return false,
    };
    let source_path = join_path(request.remote_peer.remote_path.as_str(), request.relative_path.as_str());
    let target_scope = PeerScope { root: target.clone() };
    let source_scope = PeerScope { root: source_path };
    if scopes_conflict(&target_scope, &source_scope) {
        return false;
    }
    if recovery.source_present || !recovery.destination_present || !recovery.recovery_present {
        return false;
    }
    match &recovery.recovery_target {
        Some(recorded) => {
            if *recorded != *target {
                return false;
            }
        },
        None => return false,
    }
    if recovery.source_size != Some(source.size) || recovery.destination_size != Some(destination.size) {
        return false;
    }
    let expected_source_digest = Some(source.sha256.clone());
    let expected_destination_digest = Some(destination.sha256.clone());
    if !optional_bytes_equal(&recovery.source_sha256, &expected_source_digest)
        || !optional_bytes_equal(&recovery.destination_sha256, &expected_destination_digest) {
        return false;
    }
    if transfer.source_identity.is_none() {
        return false;
    }
    if recovery.recovery_size != Some(source.size) || !optional_bytes_equal(&recovery.recovery_sha256, &expected_source_digest) {
        return false;
    }
    let provenance = match &recovery.provenance {
        Some(provenance) => provenance,
        None => return false,
    };
    let item_type = match transfer.item_type {
        Some(item_type) => item_type,
        None => return false,
    };
    provenance.username == request.remote_peer.username
        && provenance.server == request.remote_peer.server
        && provenance.port == request.remote_peer.port
        && provenance.original_root == request.remote_peer.remote_path
        && provenance.relative_path == request.relative_path
        && provenance.run_id.value == request.run_id.value
        && provenance.item_type == item_type
        && same_identity(&provenance.source_identity, &transfer.source_identity)
        && optional_proofs_equal(&provenance.content, &transfer.source)
}


/// Every removal journaled after `before` moves the source to the Trash.
pub open spec fn removals_use_trash(before: Seq<JournalEvent>, after: Seq<JournalEvent>) -> bool {
    forall|k: int| before.len() <= k < after.len() && (#[trigger] after[k]) is RemovalStarted
        ==> after[k]->RemovalStarted_deletion_method == DeletionMethod::Trash
}

/// What journaling for action `id` keeps between the start of the action
/// and now: only the run's journal grew, with events of `id` alone, its
/// ordering and planned ids held, and removals went to the Trash.
pub open spec fn ssh_progressed(first: RunEvidenceStore, store: RunEvidenceStore, run_id: RunId, id: u64) -> bool {
    &&& journal_only(first, store, run_id)
    &&& extends_for(first.journal(run_id), store.journal(run_id), id)
    &&& (ordered(first.journal(run_id)) ==> ordered(store.journal(run_id)))
    &&& planned_ids(store.journal(run_id)) == planned_ids(first.journal(run_id))
    &&& removals_use_trash(first.journal(run_id), store.journal(run_id))
}

proof fn lemma_ssh_progressed_start(store: RunEvidenceStore, run_id: RunId, id: u64)
    requires
        store.consistent(),
        store.has_run(run_id),
    ensures
        ssh_progressed(store, store, run_id, id),
{
    crate::workflow::lemma_journal_only_refl(store, run_id);
    let j = store.journal(run_id);
    assert(j.subrange(0, j.len() as int) =~= j);
}

/// Appends one ordinary event of action `id`.
fn record_for_action(
    store: &mut RunEvidenceStore,
    run_id: RunId,
    event: JournalEvent,
    Ghost(first): Ghost<RunEvidenceStore>,
    Ghost(id): Ghost<u64>,
) -> (result: Result<(), WorkflowError>)
    requires
        old(store).consistent(),
        old(store).has_run(run_id),
        ssh_progressed(first, *old(store), run_id, id),
        crate::journal::event_action(event) == id,
        !(event is Planned),
        !(event is RemovalStarted),
    ensures
        result is Ok,
        final(store).consistent(),
        final(store).has_run(run_id),
        ssh_progressed(first, *final(store), run_id, id),
        final(store).journal(run_id) == old(store).journal(run_id).push(event),
{
    let ghost before = *store;
    record_event(store, run_id, event, Ghost(first.journal(run_id)))?;
    proof {
        crate::workflow::lemma_journal_only_trans(first, before, *store, run_id);
        let j = store.journal(run_id);
        assert forall|k: int| first.journal(run_id).len() <= k < j.len() && (#[trigger] j[k]) is RemovalStarted
            implies j[k]->RemovalStarted_deletion_method == DeletionMethod::Trash by {
            assert(k < before.journal(run_id).len());
            assert(j[k] == before.journal(run_id)[k]);
        }
    }
    Ok(())
}

/// The events that record the byte counts a transfer reported.
pub open spec fn progress_events(id: u64, progress: Seq<u64>) -> Seq<JournalEvent> {
    Seq::new(progress.len(), |i: int| JournalEvent::Progress { action_id: id, completed_bytes: progress[i] })
}

fn persist_progress(
    store: &mut RunEvidenceStore,
    run_id: RunId,
    id: u64,
    progress: &Vec<u64>,
    Ghost(first): Ghost<RunEvidenceStore>,
) -> (result: Result<(), WorkflowError>)
    requires
        old(store).consistent(),
        old(store).has_run(run_id),
        ssh_progressed(first, *old(store), run_id, id),
    ensures
        result is Ok,
        final(store).consistent(),
        final(store).has_run(run_id),
        ssh_progressed(first, *final(store), run_id, id),
        final(store).journal(run_id) == old(store).journal(run_id) + progress_events(id, progress@),
{
    let ghost start = old(store).journal(run_id);
    let mut index: usize = 0;
    while index < progress.len()
        invariant
            index <= progress@.len(),
            store.consistent(),
            store.has_run(run_id),
            ssh_progressed(first, *store, run_id, id),
            store.journal(run_id) == start + progress_events(id, progress@.subrange(0, index as int)),
        decreases progress@.len() - index,
    {
        let event = JournalEvent::Progress { action_id: id, completed_bytes: progress[index] };
        record_for_action(store, run_id, event, Ghost(first), Ghost(id))?;
        index += 1;
        assert(progress_events(id, progress@.subrange(0, index as int))
            =~= progress_events(id, progress@.subrange(0, index - 1)).push(event));
    }
    assert(progress@.subrange(0, index as int) =~= progress@);
    Ok(())
}

/// The event that records a failed SSH action.
pub open spec fn ssh_failure_event(id: u64, error: SshRunError) -> JournalEvent {
    if error is Cancelled {
        JournalEvent::Cancelled { action_id: id }
    } else if ssh_needs_recovery_review(error) {
        JournalEvent::RecoveryReview { action_id: id, reason: ssh_failure_reason(error) }
    } else if ssh_leaves_unresolved(error) {
        JournalEvent::Unresolved { action_id: id, reason: ssh_failure_reason(error) }
    } else {
        JournalEvent::Failed { action_id: id, reason: ssh_failure_reason(error) }
    }
}

/// Cancellation and an uncertain remote recovery stop the run.
pub open spec fn ssh_failure_disposition(error: SshRunError) -> ActionDisposition {
    if error is Cancelled || ssh_needs_recovery_review(error) {
        ActionDisposition::Stop
    } else {
        ActionDisposition::Continue
    }
}

fn record_ssh_failure(
    store: &mut RunEvidenceStore,
    run_id: RunId,
    id: u64,
    error: SshRunError,
    Ghost(first): Ghost<RunEvidenceStore>,
) -> (disposition: Result<ActionDisposition, WorkflowError>)
    requires
        old(store).consistent(),
        old(store).has_run(run_id),
        ssh_progressed(first, *old(store), run_id, id),
    ensures
        disposition == Ok::<ActionDisposition, WorkflowError>(ssh_failure_disposition(error)),
        final(store).consistent(),
        final(store).has_run(run_id),
        ssh_progressed(first, *final(store), run_id, id),
        final(store).journal(run_id) == old(store).journal(run_id).push(ssh_failure_event(id, error)),
{
    if let SshRunError::Cancelled = error {
        record_for_action(store, run_id, JournalEvent::Cancelled { action_id: id }, Ghost(first), Ghost(id))?;
        return Ok(ActionDisposition::Stop);
    }
    let reason = error.action_reason();
    if error.requires_recovery_review() {
        record_for_action(store, run_id, JournalEvent::RecoveryReview { action_id: id, reason }, Ghost(first), Ghost(id))?;
        return Ok(ActionDisposition::Stop);
    }
    if error.leaves_unresolved() {
        record_for_action(store, run_id, JournalEvent::Unresolved { action_id: id, reason }, Ghost(first), Ghost(id))?;
    } else {
        record_for_action(store, run_id, JournalEvent::Failed { action_id: id, reason }, Ghost(first), Ghost(id))?;
    }
    Ok(ActionDisposition::Continue)
}

/// The result of a bounded SSH transfer, every byte count reported on the
/// way, and how many attempts ran.
pub struct SshTransferOutcome {
    pub result: Result<SshTransferEvidence, SshRunError>,
    pub progress: Vec<u64>,
    pub attempts: u8,
}

/// Retries a transfer while its failure is retryable and attempts remain;
/// cancellation is checked before every attempt and during every wait.
fn run_ssh_transfer<B: SshRunBackend, F: Fn() -> bool>(
    backend: &B,
    policy: RetryPolicy,
    request: &SshTransferRequest,
    should_cancel: &F,
    calls: &mut Ghost<Seq<EnvCall>>,
) -> (outcome: SshTransferOutcome)
    requires
        policy.max_attempts >= 1,
        forall|| #[trigger] call_requires(*should_cancel, ()),
    ensures
        1 <= outcome.attempts <= policy.max_attempts
            || (outcome.attempts == 0 && outcome.result == Err::<SshTransferEvidence, SshRunError>(SshRunError::Cancelled)),
        outcome.result matches Err(error) && ssh_is_retryable(error) ==> outcome.attempts == policy.max_attempts,
        appended(old(calls)@, final(calls)@),
        ssh_retry_calls(added(old(calls)@, final(calls)@), request.action_id, outcome.attempts as int, outcome.result),
{
    let ghost start = calls@;
    proof {
        lemma_added_refl(start);
    }
    let mut progress: Vec<u64> = Vec::new();
    let mut attempt: u8 = 0;
    loop
        invariant
            attempt < policy.max_attempts,
            forall|| #[trigger] call_requires(*should_cancel, ()),
            start == old(calls)@,
            appended(start, calls@),
            added(start, calls@).len() == 2 * attempt,
            forall|k: int| 0 <= k < attempt ==> ssh_attempt_for(#[trigger] attempt_call(added(start, calls@), k), request.action_id),
            forall|k: int| 0 <= k && 2 * k + 1 < added(start, calls@).len() ==>
                (ssh_answer(#[trigger] attempt_call(added(start, calls@), k)) matches Err(error) && ssh_is_retryable(error))
                    && wait_call(added(start, calls@), k) matches EnvCall::Wait { continued: true, .. },
        decreases policy.max_attempts - attempt,
    {
        let ghost before = calls@;
        if should_cancel() {
            proof {
                let made = added(start, calls@);
                assert forall|k: int| 0 <= k && 2 * k + 2 < made.len()
                    implies (#[trigger] wait_call(made, k)) matches EnvCall::Wait { continued: true, .. } by {
                    assert(attempt_call(made, k) == made[2 * k]);
                }
            }
            return SshTransferOutcome { result: Err(SshRunError::Cancelled), progress, attempts: attempt };
        }
        let reported = call_ssh_transfer(backend, request, calls);
        proof {
            lemma_added_push(before, calls@.last());
            lemma_added_trans(start, before, calls@);
            let old_made = added(start, before);
            let made = added(start, calls@);
            assert(made =~= old_made.push(calls@.last()));
            assert(attempt_call(made, attempt as int) == calls@.last());
            assert forall|k: int| 0 <= k < attempt + 1 implies ssh_attempt_for(#[trigger] attempt_call(made, k), request.action_id) by {
                if k < attempt {
                    assert(attempt_call(made, k) == attempt_call(old_made, k));
                }
            }
            assert forall|k: int| 0 <= k && 2 * k + 1 < made.len() implies
                (ssh_answer(#[trigger] attempt_call(made, k)) matches Err(error) && ssh_is_retryable(error))
                    && wait_call(made, k) matches EnvCall::Wait { continued: true, .. } by {
                assert(attempt_call(made, k) == attempt_call(old_made, k));
                assert(wait_call(made, k) == wait_call(old_made, k));
            }
            assert forall|k: int| 0 <= k && 2 * k + 2 < made.len()
                implies (#[trigger] wait_call(made, k)) matches EnvCall::Wait { continued: true, .. } by {
                assert(wait_call(made, k) == wait_call(old_made, k));
                assert(attempt_call(old_made, k) == old_made[2 * k]);
            }
        }
        let mut reported_progress = reported.progress;
        progress.append(&mut reported_progress);
        match reported.result {
            Ok(evidence) => return SshTransferOutcome { result: Ok(evidence), progress, attempts: attempt + 1 },
            Err(error) => {
                if error.is_retryable() && attempt + 1 < policy.max_attempts {
                    let delay = retry_delay_millis(policy.initial_delay_millis, attempt);
                    let ghost mid = calls@;
                    let continued = call_ssh_wait(backend, delay, calls);
                    proof {
                        lemma_added_push(mid, calls@.last());
                        lemma_added_trans(start, mid, calls@);
                        let old_made = added(start, mid);
                        let made = added(start, calls@);
                        assert(made =~= old_made.push(calls@.last()));
                        assert forall|k: int| 0 <= k < attempt + 1 implies ssh_attempt_for(#[trigger] attempt_call(made, k), request.action_id) by {
                            assert(attempt_call(made, k) == attempt_call(old_made, k));
                        }
                        assert forall|k: int| 0 <= k && 2 * k + 1 < made.len() implies
                            (ssh_answer(#[trigger] attempt_call(made, k)) matches Err(error) && ssh_is_retryable(error))
                                && wait_call(made, k) is Wait by {
                            assert(attempt_call(made, k) == attempt_call(old_made, k));
                            if k < attempt {
                                assert(wait_call(made, k) == wait_call(old_made, k));
                            }
                        }
                        assert forall|k: int| 0 <= k && 2 * k + 2 < made.len()
                            implies (#[trigger] wait_call(made, k)) matches EnvCall::Wait { continued: true, .. } by {
                            assert(wait_call(made, k) == wait_call(old_made, k));
                            assert(attempt_call(old_made, k) == old_made[2 * k]);
                        }
                    }
                    if !continued {
                        return SshTransferOutcome { result: Err(SshRunError::Cancelled), progress, attempts: attempt + 1 };
                    }
                    attempt += 1;
                } else {
                    return SshTransferOutcome { result: Err(error), progress, attempts: attempt + 1 };
                }
            },
        }
    }
}


/// How a transfer's final answer settles a copy: a failure is journaled as
/// its failure event; evidence that does not match the request leaves the
/// action unresolved; matching evidence completes it, a regular file after
/// its verified transfer is journaled.
pub open spec fn copy_settlement(
    id: u64,
    result: Result<SshTransferEvidence, SshRunError>,
    request: SshTransferRequest,
    action: PlanAction,
) -> (Seq<JournalEvent>, ActionDisposition) {
    match result {
        Err(error) => (seq![ssh_failure_event(id, error)], ssh_failure_disposition(error)),
        Ok(evidence) => if !evidence_matches(evidence, request, action) {
            (seq![JournalEvent::Unresolved { action_id: id, reason: ActionReason::VerificationMismatch }], ActionDisposition::Continue)
        } else if evidence.item_type == Some(ItemType::RegularFile) {
            (seq![
                JournalEvent::TransferVerified { action_id: id, metadata_verified: evidence.metadata_verified },
                JournalEvent::Completed { action_id: id },
            ], ActionDisposition::Continue)
        } else {
            (seq![JournalEvent::Completed { action_id: id }], ActionDisposition::Continue)
        },
    }
}

/// How the removal of a remote source settles, for the transfer evidence
/// it acts on, whether the run was cancelled at its proof boundary, and what
/// the recovery reported. Evidence that matches the request but holds no
/// source or destination content is refused: `None` stands for that refusal.
pub open spec fn removal_settlement(
    id: u64,
    evidence: Result<SshTransferEvidence, SshRunError>,
    request: SshTransferRequest,
    action: PlanAction,
    cancelled: bool,
    recovery: Result<RecoveryEvidence, SshRunError>,
) -> (Seq<JournalEvent>, Option<ActionDisposition>) {
    match evidence {
        Err(error) => (seq![ssh_failure_event(id, error)], Some(ssh_failure_disposition(error))),
        Ok(evidence) => if !evidence_matches(evidence, request, action) {
            (seq![JournalEvent::Unresolved { action_id: id, reason: ActionReason::VerificationMismatch }], Some(ActionDisposition::Continue))
        } else if evidence.source is None || evidence.destination is None {
            (Seq::empty(), None)
        } else {
            let verified = JournalEvent::TransferVerified { action_id: id, metadata_verified: evidence.metadata_verified };
            let boundary = JournalEvent::ProofBoundary { action_id: id, deletion_method: DeletionMethod::Trash };
            let started = JournalEvent::RemovalStarted { action_id: id, deletion_method: DeletionMethod::Trash };
            if request.deletion_method != Some(DeletionMethod::Trash) {
                (seq![verified, JournalEvent::Unresolved { action_id: id, reason: ActionReason::DestinationUnavailable }],
                    Some(ActionDisposition::Continue))
            } else if request.remote_recovery_target is None {
                (seq![verified, ssh_failure_event(id, SshRunError::RemoteRecoveryUnavailable)],
                    Some(ssh_failure_disposition(SshRunError::RemoteRecoveryUnavailable)))
            } else if cancelled {
                (seq![verified, boundary, JournalEvent::Cancelled { action_id: id }], Some(ActionDisposition::Stop))
            } else {
                match recovery {
                    Ok(report) => if remote_recovery_valid(request, evidence, report) {
                        (seq![verified, boundary, started, JournalEvent::RemovalCompleted { action_id: id }], Some(ActionDisposition::Continue))
                    } else {
                        (seq![verified, boundary, started, ssh_failure_event(id, SshRunError::RemoteRecoveryAmbiguous)],
                            Some(ssh_failure_disposition(SshRunError::RemoteRecoveryAmbiguous)))
                    },
                    Err(error) => (seq![verified, boundary, started, ssh_failure_event(id, error)], Some(ssh_failure_disposition(error))),
                }
            }
        },
    }
}

/// A copy that journaled `before`, then the progress and the settlement of
/// some final transfer answer, and returned that answer's disposition.
pub open spec fn copy_settled_as(
    before: Seq<JournalEvent>,
    after: Seq<JournalEvent>,
    disposition: Result<ActionDisposition, WorkflowError>,
    request: SshTransferRequest,
    action: PlanAction,
) -> bool {
    exists|result: Result<SshTransferEvidence, SshRunError>, progress: Seq<u64>|
        #![trigger copy_settlement(action.action_id, result, request, action), progress_events(action.action_id, progress)]
    {
        &&& after == before + progress_events(action.action_id, progress) + copy_settlement(action.action_id, result, request, action).0
        &&& disposition == Ok::<ActionDisposition, WorkflowError>(copy_settlement(action.action_id, result, request, action).1)
    }
}

/// A removal that journaled `before`, then the progress and the settlement
/// of some evidence, cancellation check and recovery report, and returned
/// the disposition that settlement names.
pub open spec fn removal_settled_as(
    before: Seq<JournalEvent>,
    after: Seq<JournalEvent>,
    disposition: Result<ActionDisposition, WorkflowError>,
    request: SshTransferRequest,
    action: PlanAction,
) -> bool {
    exists|evidence: Result<SshTransferEvidence, SshRunError>, progress: Seq<u64>, cancelled: bool,
        recovery: Result<RecoveryEvidence, SshRunError>|
        #![trigger removal_settlement(action.action_id, evidence, request, action, cancelled, recovery), progress_events(action.action_id, progress)]
    {
        &&& after == before + progress_events(action.action_id, progress)
            + removal_settlement(action.action_id, evidence, request, action, cancelled, recovery).0
        &&& disposition_as(disposition, removal_settlement(action.action_id, evidence, request, action, cancelled, recovery).1)
    }
}

/// The remote endpoint an SSH action works against: the source's when the
/// source is the SSH peer, else the destination's.
pub open spec fn remote_of(profile: SyncProfile, action: PlanAction) -> Option<SshPeer> {
    let source = side_peer(profile, action.source_side);
    let destination = side_peer(profile, opposite_side(action.source_side));
    if peer_is_ssh(source) {
        Some(ssh_of(source))
    } else if peer_is_ssh(destination) {
        Some(ssh_of(destination))
    } else {
        None
    }
}

/// The journal of an action once it has started at zero bytes.
pub open spec fn started_journal(journal: Seq<JournalEvent>, id: u64) -> Seq<JournalEvent> {
    journal.push(JournalEvent::Started { action_id: id }).push(JournalEvent::Progress { action_id: id, completed_bytes: 0 })
}

/// `disposition` is the one that `settled` names, or an `InvalidRun` refusal
/// where it names none.
pub open spec fn disposition_as(disposition: Result<ActionDisposition, WorkflowError>, settled: Option<ActionDisposition>) -> bool {
    match settled {
        Some(named) => disposition == Ok::<ActionDisposition, WorkflowError>(named),
        None => disposition matches Err(error) && error is InvalidRun,
    }
}

/// Destination removals, and source removals whose source is not the SSH
/// peer, are deferred: an SSH run only copies, overwrites and moves remote
/// sources to the remote Trash.
pub open spec fn ssh_deferred(profile: SyncProfile, action: PlanAction) -> bool {
    action.kind == PlanActionKind::RemoveDestination
        || (action.kind == PlanActionKind::RemoveSourceAfterVerification
            && !peer_is_ssh(side_peer(profile, action.source_side)))
}

/// The request for one action: its paths on both peers, the plan's
/// deletion method, and the Trash target under the remote recovery root.
pub open spec fn request_fits(
    request: SshTransferRequest,
    run_id: RunId,
    profile: SyncProfile,
    plan: OneWayPlan,
    action: PlanAction,
    precheck: RemotePrecheck,
) -> bool {
    &&& request.run_id == run_id
    &&& request.action_id == action.action_id
    &&& request.relative_path@ == action.relative_path@
    &&& request.source_path@ == path_join(peer_root(side_peer(profile, action.source_side)), action.relative_path@)
    &&& request.destination_path@ == path_join(peer_root(side_peer(profile, opposite_side(action.source_side))), action.relative_path@)
    &&& request.deletion_method == plan.options.deletion_method
    &&& match precheck.recovery_root {
        Some(root) => request.remote_recovery_target matches Some(target) && target@ == path_join(root@, action.relative_path@),
        None => request.remote_recovery_target is None,
    }
}

fn transfer_request(
    run_id: RunId,
    profile: &SyncProfile,
    plan: &OneWayPlan,
    action: &PlanAction,
    remote: &SshPeer,
    precheck: &RemotePrecheck,
    supervisor: ProcessSupervisor,
) -> (request: SshTransferRequest)
    ensures
        request_fits(request, run_id, *profile, *plan, *action, *precheck),
        request.remote_peer == *remote,
        request.supervisor == supervisor,
{
    let source_peer = peer_for_side(profile, action.source_side);
    let destination_peer = peer_for_side(profile, action.source_side.opposite());
    let remote_recovery_target = match &precheck.recovery_root {
        Some(root) => Some(join_path(root.as_str(), action.relative_path.as_str())),
        None => None,
    };
    SshTransferRequest {
        run_id,
        action_id: action.action_id,
        relative_path: action.relative_path.clone(),
        source_path: join_path(source_peer.root(), action.relative_path.as_str()),
        destination_path: join_path(destination_peer.root(), action.relative_path.as_str()),
        remote_peer: remote.duplicate(),
        deletion_method: plan.options.deletion_method,
        remote_recovery_target,
        supervisor,
    }
}

/// Takes the evidence of an earlier verified transfer of `path`, if any:
/// the first entry for `path` leaves the list and its evidence is returned.
fn take_verified_transfer(verified: &mut Vec<(String, SshTransferEvidence)>, path: &String) -> (found: Option<SshTransferEvidence>)
    ensures
        found is Some == exists|j: int| 0 <= j < old(verified)@.len() && (#[trigger] old(verified)@[j]).0@ == path@,
        match found {
            Some(evidence) => exists|j: int| 0 <= j < old(verified)@.len() && #[trigger] first_entry_for(old(verified)@, path@, j)
                && old(verified)@[j].1 == evidence && final(verified)@ == old(verified)@.remove(j),
            None => final(verified)@ == old(verified)@,
        },
{
    let mut index: usize = 0;
    while index < verified.len()
        invariant
            index <= verified@.len(),
            verified@ == old(verified)@,
            forall|j: int| 0 <= j < index ==> (#[trigger] verified@[j]).0@ != path@,
        decreases verified@.len() - index,
    {
        if verified[index].0 == *path {
            assert(old(verified)@[index as int].0@ == path@);
            assert(first_entry_for(old(verified)@, path@, index as int));
            let (_, evidence) = verified.remove(index);
            return Some(evidence);
        }
        index += 1;
    }
    None
}

/// Entry `j` is the first entry for `path`.
pub open spec fn first_entry_for(entries: Seq<(String, SshTransferEvidence)>, path: Seq<char>, j: int) -> bool {
    &&& 0 <= j < entries.len()
    &&& entries[j].0@ == path
    &&& forall|k: int| 0 <= k < j ==> (#[trigger] entries[k]).0@ != path
}

/// Remembers the evidence of a verified transfer of `path` for a later
/// removal of the same source: an earlier entry for `path` is replaced, and
/// the new entry is last.
fn remember_transfer(verified: &mut Vec<(String, SshTransferEvidence)>, path: String, evidence: SshTransferEvidence)
    ensures
        (forall|j: int| 0 <= j < old(verified)@.len() ==> (#[trigger] old(verified)@[j]).0@ != path@)
            ==> final(verified)@ == old(verified)@.push((path, evidence)),
        forall|j: int| #[trigger] first_entry_for(old(verified)@, path@, j)
            ==> final(verified)@ == old(verified)@.remove(j).push((path, evidence)),
{
    let ghost before = verified@;
    let taken = take_verified_transfer(verified, &path);
    proof {
        if taken is Some {
            let j0 = choose|j: int| 0 <= j < before.len() && #[trigger] first_entry_for(before, path@, j)
                && before[j].1 == taken.unwrap() && verified@ == before.remove(j);
            assert forall|j: int| #[trigger] first_entry_for(before, path@, j) implies j == j0 by {
                if j < j0 {
                    assert(before[j].0@ != path@);
                } else if j0 < j {
                    assert(before[j0].0@ != path@);
                }
            }
        } else {
            assert forall|j: int| #[trigger] first_entry_for(before, path@, j) implies false by {
                assert(before[j].0@ == path@);
            }
        }
    }
    verified.push((path, evidence));
}

fn is_regular_file(item_type: Option<ItemType>) -> (regular: bool)
    ensures
        regular == (item_type == Some(ItemType::RegularFile)),
{
    match item_type {
        Some(ItemType::RegularFile) => true,
        _ => false,
    }
}

/// Journals the start of a removal right after its proof boundary.
fn record_trash_removal(
    store: &mut RunEvidenceStore,
    run_id: RunId,
    id: u64,
    Ghost(first): Ghost<RunEvidenceStore>,
    Ghost(verified_at): Ghost<int>,
) -> (result: Result<(), WorkflowError>)
    requires
        old(store).consistent(),
        old(store).has_run(run_id),
        ssh_progressed(first, *old(store), run_id, id),
        old(store).journal(run_id).len() > 0,
        old(store).journal(run_id).last() is ProofBoundary,
        crate::journal::event_action(old(store).journal(run_id).last()) == id,
        0 <= verified_at < old(store).journal(run_id).len() - 1,
        old(store).journal(run_id)[verified_at] is TransferVerified,
        crate::journal::event_action(old(store).journal(run_id)[verified_at]) == id,
    ensures
        result is Ok,
        final(store).consistent(),
        final(store).has_run(run_id),
        ssh_progressed(first, *final(store), run_id, id),
        final(store).journal(run_id) == old(store).journal(run_id).push(
            JournalEvent::RemovalStarted { action_id: id, deletion_method: DeletionMethod::Trash }),
{
    let ghost before = *store;
    let ghost prior = store.journal(run_id);
    let removal = JournalEvent::RemovalStarted { action_id: id, deletion_method: DeletionMethod::Trash };
    match store.append_event(run_id, removal) {
        Ok(()) => {},
        Err(error) => return Err(WorkflowError::Storage(error)),
    }
    proof {
        reveal(crate::workflow::frame_kept);
        reveal(ordered);
        lemma_push_removal(prior, removal, verified_at);
        crate::workflow::lemma_journal_only_trans(first, before, *store, run_id);
        let start = first.journal(run_id);
        let j = store.journal(run_id);
        assert(j.subrange(0, start.len() as int) =~= prior.subrange(0, start.len() as int));
        assert forall|k: int| start.len() <= k < j.len() implies crate::journal::event_action(#[trigger] j[k]) == id && !(j[k] is Planned) by {
            if k < prior.len() {
                assert(j[k] == prior[k]);
            }
        }
        assert forall|k: int| start.len() <= k < j.len() && (#[trigger] j[k]) is RemovalStarted
            implies j[k]->RemovalStarted_deletion_method == DeletionMethod::Trash by {
            if k < prior.len() {
                assert(j[k] == prior[k]);
            }
        }
    }
    Ok(())
}


/// A settled SSH action: the last event settles it, and the run stops
/// exactly when that outcome is a cancellation or a Recovery Review.
pub open spec fn ssh_settled(
    before: Seq<JournalEvent>,
    after: Seq<JournalEvent>,
    disposition: Result<ActionDisposition, WorkflowError>,
) -> bool {
    disposition is Ok ==> {
        &&& before.len() < after.len()
        &&& settled_outcome(after.last()) is Some
        &&& (disposition == Ok::<ActionDisposition, WorkflowError>(ActionDisposition::Stop)
            <==> stops_run(settled_outcome(after.last()).unwrap()))
    }
}

impl RunWorkflow {
    /// Copies or overwrites one item over SSH and journals the verified result.
    fn ssh_copy<B: SshRunBackend, F: Fn() -> bool>(
        &self,
        store: &mut RunEvidenceStore,
        run_id: RunId,
        plan: &OneWayPlan,
        action: &PlanAction,
        backend: &B,
        request: &SshTransferRequest,
        should_cancel: &F,
        verified: &mut Vec<(String, SshTransferEvidence)>,
        Ghost(first): Ghost<RunEvidenceStore>,
        calls: &mut Ghost<Seq<EnvCall>>,
    ) -> (disposition: Result<ActionDisposition, WorkflowError>)
        requires
            request.action_id == action.action_id,
            old(store).consistent(),
            old(store).has_run(run_id),
            ssh_progressed(first, *old(store), run_id, action.action_id),
            plan.options.retry_policy.max_attempts >= 1,
            forall|| #[trigger] call_requires(*should_cancel, ()),
        ensures
            appended(old(calls)@, final(calls)@),
            execution_only(added(old(calls)@, final(calls)@)),
            removals_follow_start(added(old(calls)@, final(calls)@)),
            disposition matches Err(error) ==> error is InvalidRun,
            final(store).consistent(),
            final(store).has_run(run_id),
            ssh_progressed(first, *final(store), run_id, action.action_id),
            ssh_settled(old(store).journal(run_id), final(store).journal(run_id), disposition),
            copy_settled_as(old(store).journal(run_id), final(store).journal(run_id), disposition, *request, *action),
    {
        let id = action.action_id;
        let ghost entry = store.journal(run_id);
        let ghost call_start = calls@;
        let outcome = run_ssh_transfer(backend, plan.options.retry_policy, request, should_cancel, calls);
        proof {
            lemma_ssh_retry_execution_only(added(call_start, calls@), request.action_id, outcome.attempts as int, outcome.result);
        }
        let ghost answer = outcome.result;
        persist_progress(store, run_id, id, &outcome.progress, Ghost(first))?;
        let ghost progressed = store.journal(run_id);
        let evidence = match outcome.result {
            Ok(evidence) => evidence,
            Err(error) => {
                let disposition = record_ssh_failure(store, run_id, id, error, Ghost(first));
                assert(store.journal(run_id) =~= entry + progress_events(id, outcome.progress@) + copy_settlement(id, answer, *request, *action).0);
                return disposition;
            },
        };
        if !evidence_checks(&evidence, request, action) {
            record_for_action(store, run_id, JournalEvent::Unresolved { action_id: id, reason: ActionReason::VerificationMismatch }, Ghost(first), Ghost(id))?;
            assert(store.journal(run_id) =~= entry + progress_events(id, outcome.progress@) + copy_settlement(id, answer, *request, *action).0);
            return Ok(ActionDisposition::Continue);
        }
        let ghost matched = evidence;
        if is_regular_file(evidence.item_type) {
            if evidence.source.is_none() || evidence.destination.is_none() {
                return Err(WorkflowError::InvalidRun(String::from_str("a verified regular-file SSH transfer has no content evidence")));
            }
            record_for_action(store, run_id, JournalEvent::TransferVerified { action_id: id, metadata_verified: evidence.metadata_verified }, Ghost(first), Ghost(id))?;
        }
        remember_transfer(verified, action.relative_path.clone(), evidence);
        record_for_action(store, run_id, JournalEvent::Completed { action_id: id }, Ghost(first), Ghost(id))?;
        assert(store.journal(run_id) =~= entry + progress_events(id, outcome.progress@) + copy_settlement(id, answer, *request, *action).0);
        Ok(ActionDisposition::Continue)
    }

    /// Moves a verified remote source to the remote Trash. The verified
    /// transfer and the proof boundary are journaled before the removal
    /// starts, and only a recovery that proves where the source went
    /// completes it.
    #[verifier::rlimit(50)]
    fn ssh_remove_source<B: SshRunBackend, F: Fn() -> bool>(
        &self,
        store: &mut RunEvidenceStore,
        run_id: RunId,
        plan: &OneWayPlan,
        action: &PlanAction,
        backend: &B,
        request: &SshTransferRequest,
        should_cancel: &F,
        verified: &mut Vec<(String, SshTransferEvidence)>,
        Ghost(first): Ghost<RunEvidenceStore>,
        calls: &mut Ghost<Seq<EnvCall>>,
    ) -> (disposition: Result<ActionDisposition, WorkflowError>)
        requires
            request.action_id == action.action_id,
            old(store).consistent(),
            old(store).has_run(run_id),
            ssh_progressed(first, *old(store), run_id, action.action_id),
            first.journal(run_id).len() <= old(store).journal(run_id).len(),
            plan.options.retry_policy.max_attempts >= 1,
            forall|| #[trigger] call_requires(*should_cancel, ()),
        ensures
            appended(old(calls)@, final(calls)@),
            execution_only(added(old(calls)@, final(calls)@)),
            removals_follow_start(added(old(calls)@, final(calls)@)),
            disposition matches Err(error) ==> error is InvalidRun,
            final(store).consistent(),
            final(store).has_run(run_id),
            ssh_progressed(first, *final(store), run_id, action.action_id),
            ssh_settled(old(store).journal(run_id), final(store).journal(run_id), disposition),
            removal_settled_as(old(store).journal(run_id), final(store).journal(run_id), disposition, *request, *action),
    {
        let id = action.action_id;
        let ghost entry = store.journal(run_id);
        let ghost mut seen: Seq<u64> = Seq::empty();
        let ghost no_recovery: Result<RecoveryEvidence, SshRunError> = Err(SshRunError::Cancelled);
        let ghost call_start = calls@;
        proof {
            lemma_added_refl(call_start);
        }
        let evidence = match take_verified_transfer(verified, &action.relative_path) {
            Some(evidence) => evidence,
            None => {
                let outcome = run_ssh_transfer(backend, plan.options.retry_policy, request, should_cancel, calls);
                proof {
                    lemma_ssh_retry_execution_only(added(call_start, calls@), request.action_id, outcome.attempts as int, outcome.result);
                }
                persist_progress(store, run_id, id, &outcome.progress, Ghost(first))?;
                proof {
                    seen = outcome.progress@;
                }
                match outcome.result {
                    Ok(evidence) => evidence,
                    Err(error) => {
                        let disposition = record_ssh_failure(store, run_id, id, error, Ghost(first));
                        assert(store.journal(run_id) =~= entry + progress_events(id, seen)
                            + removal_settlement(id, Err(error), *request, *action, false, no_recovery).0);
                        return disposition;
                    },
                }
            },
        };
        assert(entry + progress_events(id, seen) =~= store.journal(run_id));
        if !evidence_checks(&evidence, request, action) {
            record_for_action(store, run_id, JournalEvent::Unresolved { action_id: id, reason: ActionReason::VerificationMismatch }, Ghost(first), Ghost(id))?;
            assert(store.journal(run_id) =~= entry + progress_events(id, seen)
                + removal_settlement(id, Ok(evidence), *request, *action, false, no_recovery).0);
            return Ok(ActionDisposition::Continue);
        }
        if evidence.source.is_none() || evidence.destination.is_none() {
            assert(store.journal(run_id) =~= entry + progress_events(id, seen)
                + removal_settlement(id, Ok(evidence), *request, *action, false, no_recovery).0);
            return Err(WorkflowError::InvalidRun(String::from_str("a verified SSH removal has no source or destination evidence")));
        }
        record_for_action(store, run_id, JournalEvent::TransferVerified { action_id: id, metadata_verified: evidence.metadata_verified }, Ghost(first), Ghost(id))?;
        let ghost verified_at = store.journal(run_id).len() - 1;
        let trash = match request.deletion_method {
            Some(DeletionMethod::Trash) => true,
            _ => false,
        };
        if !trash {
            record_for_action(store, run_id, JournalEvent::Unresolved { action_id: id, reason: ActionReason::DestinationUnavailable }, Ghost(first), Ghost(id))?;
            assert(store.journal(run_id) =~= entry + progress_events(id, seen)
                + removal_settlement(id, Ok(evidence), *request, *action, false, no_recovery).0);
            return Ok(ActionDisposition::Continue);
        }
        if request.remote_recovery_target.is_none() {
            let disposition = record_ssh_failure(store, run_id, id, SshRunError::RemoteRecoveryUnavailable, Ghost(first));
            assert(store.journal(run_id) =~= entry + progress_events(id, seen)
                + removal_settlement(id, Ok(evidence), *request, *action, false, no_recovery).0);
            return disposition;
        }
        record_for_action(store, run_id, JournalEvent::ProofBoundary { action_id: id, deletion_method: DeletionMethod::Trash }, Ghost(first), Ghost(id))?;
        if should_cancel() {
            record_for_action(store, run_id, JournalEvent::Cancelled { action_id: id }, Ghost(first), Ghost(id))?;
            assert(store.journal(run_id) =~= entry + progress_events(id, seen)
                + removal_settlement(id, Ok(evidence), *request, *action, true, no_recovery).0);
            return Ok(ActionDisposition::Stop);
        }
        record_trash_removal(store, run_id, id, Ghost(first), Ghost(verified_at))?;
        let ghost before_recover = calls@;
        let recovered = call_recover_source(backend, request, &evidence, store, run_id, calls);
        proof {
            lemma_added_push(before_recover, calls@.last());
            lemma_added_trans(call_start, before_recover, calls@);
            assert(store.journal(run_id).last() == JournalEvent::RemovalStarted { action_id: id, deletion_method: DeletionMethod::Trash });
            assert(removal_started(calls@.last()));
            lemma_calls_concat(added(call_start, before_recover), added(before_recover, calls@));
        }
        let ghost reported = recovered;
        let disposition = match recovered {
            Ok(recovery) => {
                if validate_remote_recovery(request, &evidence, &recovery) {
                    record_for_action(store, run_id, JournalEvent::RemovalCompleted { action_id: id }, Ghost(first), Ghost(id))?;
                    Ok(ActionDisposition::Continue)
                } else {
                    record_ssh_failure(store, run_id, id, SshRunError::RemoteRecoveryAmbiguous, Ghost(first))
                }
            },
            Err(error) => record_ssh_failure(store, run_id, id, error, Ghost(first)),
        };
        assert(store.journal(run_id) =~= entry + progress_events(id, seen)
            + removal_settlement(id, Ok(evidence), *request, *action, false, reported).0);
        disposition
    }
}


/// Every removal in the journal moves its source to the Trash.
pub open spec fn all_removals_trash(journal: Seq<JournalEvent>) -> bool {
    forall|k: int| 0 <= k < journal.len() && (#[trigger] journal[k]) is RemovalStarted
        ==> journal[k]->RemovalStarted_deletion_method == DeletionMethod::Trash
}

proof fn lemma_trash_extends(a: Seq<JournalEvent>, b: Seq<JournalEvent>)
    requires
        all_removals_trash(a),
        a.len() <= b.len(),
        b.subrange(0, a.len() as int) == a,
        removals_use_trash(a, b),
    ensures
        all_removals_trash(b),
{
    assert forall|k: int| 0 <= k < b.len() && (#[trigger] b[k]) is RemovalStarted
        implies b[k]->RemovalStarted_deletion_method == DeletionMethod::Trash by {
        if k < a.len() {
            assert(b[k] == b.subrange(0, a.len() as int)[k]);
        }
    }
}

impl RunWorkflow {
    /// Executes one planned action of an SSH run and journals how it settled.
    fn execute_ssh_action<B: SshRunBackend, F: Fn() -> bool>(
        &self,
        store: &mut RunEvidenceStore,
        run_id: RunId,
        profile: &SyncProfile,
        plan: &OneWayPlan,
        action: &PlanAction,
        backend: &B,
        precheck: &RemotePrecheck,
        should_cancel: &F,
        verified: &mut Vec<(String, SshTransferEvidence)>,
        calls: &mut Ghost<Seq<EnvCall>>,
    ) -> (disposition: Result<ActionDisposition, WorkflowError>)
        requires
            old(store).consistent(),
            old(store).has_run(run_id),
            plan.options.retry_policy.max_attempts >= 1,
            forall|| #[trigger] call_requires(*should_cancel, ()),
        ensures
            appended(old(calls)@, final(calls)@),
            execution_only(added(old(calls)@, final(calls)@)),
            removals_follow_start(added(old(calls)@, final(calls)@)),
            ssh_deferred(*profile, *action) || remote_of(*profile, *action) is None ==> final(calls)@ == old(calls)@,
            disposition matches Err(error) ==> error is InvalidRun,
            final(store).consistent(),
            final(store).has_run(run_id),
            ssh_progressed(*old(store), *final(store), run_id, action.action_id),
            ssh_settled(old(store).journal(run_id), final(store).journal(run_id), disposition),
            ssh_deferred(*profile, *action) ==> disposition == Ok::<ActionDisposition, WorkflowError>(ActionDisposition::Continue)
                && final(store).journal(run_id) == old(store).journal(run_id)
                    .push(JournalEvent::Started { action_id: action.action_id })
                    .push(JournalEvent::Progress { action_id: action.action_id, completed_bytes: 0 })
                    .push(JournalEvent::Deferred { action_id: action.action_id }),
            !ssh_deferred(*profile, *action) && remote_of(*profile, *action) is None ==> (disposition matches Err(WorkflowError::InvalidRun(message))
                && message@ == "SSH action has no remote endpoint"@),
            !ssh_deferred(*profile, *action) && remote_of(*profile, *action) is Some ==> exists|request: SshTransferRequest| {
                &&& #[trigger] request_fits(request, run_id, *profile, *plan, *action, *precheck)
                &&& request.remote_peer == remote_of(*profile, *action).unwrap()
                &&& request.supervisor == self.supervisor
                &&& if action.kind == PlanActionKind::RemoveSourceAfterVerification {
                    removal_settled_as(started_journal(old(store).journal(run_id), action.action_id), final(store).journal(run_id), disposition, request, *action)
                } else {
                    copy_settled_as(started_journal(old(store).journal(run_id), action.action_id), final(store).journal(run_id), disposition, request, *action)
                }
            },
    {
        let id = action.action_id;
        let ghost first = *store;
        proof {
            lemma_added_refl(calls@);
        }
        proof {
            lemma_ssh_progressed_start(first, run_id, id);
        }
        record_for_action(store, run_id, JournalEvent::Started { action_id: id }, Ghost(first), Ghost(id))?;
        record_for_action(store, run_id, JournalEvent::Progress { action_id: id, completed_bytes: 0 }, Ghost(first), Ghost(id))?;
        let source_peer = peer_for_side(profile, action.source_side);
        let destination_peer = peer_for_side(profile, action.source_side.opposite());
        let deferred = match action.kind {
            PlanActionKind::RemoveDestination => true,
            PlanActionKind::RemoveSourceAfterVerification => !source_peer.is_ssh(),
            _ => false,
        };
        if deferred {
            record_for_action(store, run_id, JournalEvent::Deferred { action_id: id }, Ghost(first), Ghost(id))?;
            return Ok(ActionDisposition::Continue);
        }
        let remote = match (&source_peer.endpoint, &destination_peer.endpoint) {
            (PeerEndpoint::Ssh(remote), _) => remote,
            (_, PeerEndpoint::Ssh(remote)) => remote,
            _ => return Err(WorkflowError::InvalidRun(String::from_str("SSH action has no remote endpoint"))),
        };
        let request = transfer_request(run_id, profile, plan, action, remote, precheck, self.supervisor);
        let removes_source = match action.kind {
            PlanActionKind::RemoveSourceAfterVerification => true,
            _ => false,
        };
        if removes_source {
            self.ssh_remove_source(store, run_id, plan, action, backend, &request, should_cancel, verified, Ghost(first), calls)
        } else {
            self.ssh_copy(store, run_id, plan, action, backend, &request, should_cancel, verified, Ghost(first), calls)
        }
    }
}


impl RunWorkflow {
    /// Runs SSH action `index`, or settles it and every later action as
    /// cancelled when the run was cancelled or the action stops the run.
    fn advance_ssh<B: SshRunBackend, F: Fn() -> bool>(
        &self,
        store: &mut RunEvidenceStore,
        run_id: RunId,
        profile: &SyncProfile,
        plan: &OneWayPlan,
        index: usize,
        backend: &B,
        precheck: &RemotePrecheck,
        should_cancel: &F,
        verified: &mut Vec<(String, SshTransferEvidence)>,
        calls: &mut Ghost<Seq<EnvCall>>,
    ) -> (stopped: Result<bool, WorkflowError>)
        requires
            old(store).consistent(),
            old(store).has_run(run_id),
            index < plan.actions@.len(),
            planned_ids(old(store).journal(run_id)) == action_ids(plan.actions@),
            distinct_ids(action_ids(plan.actions@)),
            ordered(old(store).journal(run_id)),
            all_removals_trash(old(store).journal(run_id)),
            plan.options.retry_policy.max_attempts >= 1,
            forall|| #[trigger] call_requires(*should_cancel, ()),
            forall|i: int| 0 <= i < index ==>
                outcome_in(old(store).journal(run_id), #[trigger] plan.actions@[i].action_id) != ActionOutcome::InProgress,
        ensures
            appended(old(calls)@, final(calls)@),
            execution_only(added(old(calls)@, final(calls)@)),
            removals_follow_start(added(old(calls)@, final(calls)@)),
            stopped matches Err(error) ==> error is InvalidRun,
            journal_only(*old(store), *final(store), run_id),
            old(store).journal(run_id).len() <= final(store).journal(run_id).len(),
            final(store).journal(run_id).subrange(0, old(store).journal(run_id).len() as int) == old(store).journal(run_id),
            ordered(final(store).journal(run_id)),
            all_removals_trash(final(store).journal(run_id)),
            planned_ids(final(store).journal(run_id)) == action_ids(plan.actions@),
            stopped == Ok::<bool, WorkflowError>(true) ==> forall|i: int| 0 <= i < plan.actions@.len() ==>
                outcome_in(final(store).journal(run_id), #[trigger] plan.actions@[i].action_id) != ActionOutcome::InProgress,
            stopped == Ok::<bool, WorkflowError>(false) ==> forall|i: int| 0 <= i <= index ==>
                outcome_in(final(store).journal(run_id), #[trigger] plan.actions@[i].action_id) != ActionOutcome::InProgress,
            always_cancels(*should_cancel) ==> stopped == Ok::<bool, WorkflowError>(true)
                && forall|i: int| index <= i < plan.actions@.len() ==>
                    outcome_in(final(store).journal(run_id), #[trigger] plan.actions@[i].action_id) == ActionOutcome::Cancelled,
    {
        let ghost first_store = *old(store);
        proof {
            lemma_journal_only_refl(first_store, run_id);
        }
        let ghost first = old(store).journal(run_id);
        let ghost ids = action_ids(plan.actions@);
        proof {
            lemma_added_refl(calls@);
        }
        if should_cancel() {
            self.cancel_remaining(store, run_id, &plan.actions, index)?;
            proof {
                let j = store.journal(run_id);
                assert forall|k: int| 0 <= k < j.len() && (#[trigger] j[k]) is RemovalStarted
                    implies j[k]->RemovalStarted_deletion_method == DeletionMethod::Trash by {
                    if k < first.len() {
                        assert(j[k] == j.subrange(0, first.len() as int)[k]);
                    }
                }
            }
            return Ok(true);
        }
        let action = &plan.actions[index];
        let disposition = self.execute_ssh_action(store, run_id, profile, plan, action, backend, precheck, should_cancel, verified, calls);
        let ghost mid_store = *store;
        let ghost mid = store.journal(run_id);
        proof {
            assert(mid.subrange(0, first.len() as int) =~= first);
            lemma_trash_extends(first, mid);
        }
        let disposition = match disposition {
            Ok(disposition) => disposition,
            Err(error) => return Err(error),
        };
        proof {
            lemma_settled_for_outcomes(first, mid, action.action_id);
            assert forall|i: int| 0 <= i < plan.actions@.len() && i != index implies plan.actions@[i].action_id != action.action_id by {
                assert(ids[i] == plan.actions@[i].action_id);
                assert(ids[index as int] == action.action_id);
            }
        }
        match disposition {
            ActionDisposition::Stop => {
                let total = plan.actions.len();
                let next: usize = index + 1;
                assert(next <= total);
                self.cancel_remaining(store, run_id, &plan.actions, next)?;
                proof {
                    lemma_journal_only_trans(first_store, mid_store, *store, run_id);
                    let after = store.journal(run_id);
                    assert(after.subrange(0, first.len() as int) =~= mid.subrange(0, first.len() as int));
                    assert forall|k: int| 0 <= k < after.len() && (#[trigger] after[k]) is RemovalStarted
                        implies after[k]->RemovalStarted_deletion_method == DeletionMethod::Trash by {
                        if k < mid.len() {
                            assert(after[k] == after.subrange(0, mid.len() as int)[k]);
                        }
                    }
                }
                Ok(true)
            },
            ActionDisposition::Continue => Ok(false),
        }
    }

    /// Runs the planned actions of an SSH run in order.
    fn execute_planned_ssh_actions<B: SshRunBackend, F: Fn() -> bool>(
        &self,
        store: &mut RunEvidenceStore,
        run_id: RunId,
        profile: &SyncProfile,
        plan: &OneWayPlan,
        backend: &B,
        precheck: &RemotePrecheck,
        should_cancel: &F,
        calls: &mut Ghost<Seq<EnvCall>>,
    ) -> (result: Result<(), WorkflowError>)
        requires
            old(store).consistent(),
            old(store).has_run(run_id),
            planned_ids(old(store).journal(run_id)) == action_ids(plan.actions@),
            distinct_ids(action_ids(plan.actions@)),
            ordered(old(store).journal(run_id)),
            all_removals_trash(old(store).journal(run_id)),
            plan.options.retry_policy.max_attempts >= 1,
            forall|| #[trigger] call_requires(*should_cancel, ()),
        ensures
            appended(old(calls)@, final(calls)@),
            execution_only(added(old(calls)@, final(calls)@)),
            removals_follow_start(added(old(calls)@, final(calls)@)),
            result matches Err(error) ==> error is InvalidRun,
            journal_only(*old(store), *final(store), run_id),
            ordered(final(store).journal(run_id)),
            all_removals_trash(final(store).journal(run_id)),
            planned_ids(final(store).journal(run_id)) == action_ids(plan.actions@),
            result is Ok ==> all_planned_settled(final(store).journal(run_id)),
            always_cancels(*should_cancel) ==> result is Ok && forall|i: int| 0 <= i < plan.actions@.len() ==>
                outcome_in(final(store).journal(run_id), #[trigger] plan.actions@[i].action_id) == ActionOutcome::Cancelled,
    {
        let ghost first_store = *old(store);
        proof {
            lemma_journal_only_refl(first_store, run_id);
        }
        let ghost call_start = calls@;
        proof {
            lemma_added_refl(call_start);
        }
        let mut verified: Vec<(String, SshTransferEvidence)> = Vec::new();
        let mut index: usize = 0;
        while index < plan.actions.len()
            invariant
                index <= plan.actions@.len(),
                distinct_ids(action_ids(plan.actions@)),
                plan.options.retry_policy.max_attempts >= 1,
                forall|| #[trigger] call_requires(*should_cancel, ()),
                first_store == *old(store),
                journal_only(first_store, *store, run_id),
                ordered(store.journal(run_id)),
                all_removals_trash(store.journal(run_id)),
                planned_ids(store.journal(run_id)) == action_ids(plan.actions@),
                forall|i: int| 0 <= i < index ==>
                    outcome_in(store.journal(run_id), #[trigger] plan.actions@[i].action_id) != ActionOutcome::InProgress,
                always_cancels(*should_cancel) ==> index == 0,
                call_start == old(calls)@,
                appended(call_start, calls@),
                execution_only(added(call_start, calls@)),
                removals_follow_start(added(call_start, calls@)),
            decreases plan.actions@.len() - index,
        {
            let ghost before_store = *store;
            let ghost calls_before = calls@;
            let stopped = self.advance_ssh(store, run_id, profile, plan, index, backend, precheck, should_cancel, &mut verified, calls);
            proof {
                lemma_added_trans(call_start, calls_before, calls@);
                lemma_calls_concat(added(call_start, calls_before), added(calls_before, calls@));
                lemma_journal_only_trans(first_store, before_store, *store, run_id);
            }
            let stopped = match stopped {
                Ok(stopped) => stopped,
                Err(error) => return Err(error),
            };
            if stopped {
                proof {
                    lemma_all_settled(store.journal(run_id), plan.actions@);
                }
                return Ok(());
            }
            index += 1;
        }
        proof {
            lemma_all_settled(store.journal(run_id), plan.actions@);
        }
        Ok(())
    }
}


/// The plan removes sources permanently, which an unattended SSH run may
/// do only with its separate authorization.
pub open spec fn permanent_removal_unauthorized(plan: OneWayPlan, authorizations: AuthorizationSnapshot) -> bool {
    plan.options.deletion_method == Some(DeletionMethod::PermanentRemoval)
        && !authorizations.allow_unattended_permanent_removal
}

/// The refusal of a confirmed SSH plan that removes sources permanently
/// without the separate authorization.
pub open spec fn permanent_refusal_text() -> Seq<char> {
    "SSH Permanent Removal requires separate explicit authorization"@
}

impl RunWorkflow {
    /// Executes a confirmed plan as SSH run `run_id` and reconciles it.
    fn execute_ssh_confirmed<B: SshRunBackend, F: Fn() -> bool>(
        &self,
        run_id: RunId,
        profile: &SyncProfile,
        plan: &OneWayPlan,
        authorizations: AuthorizationSnapshot,
        backend: &B,
        precheck: &RemotePrecheck,
        store: &mut RunEvidenceStore,
        should_cancel: &F,
        calls: &mut Ghost<Seq<EnvCall>>,
    ) -> (result: Result<RunReport, WorkflowError>)
        requires
            old(store).consistent(),
            forall|| #[trigger] call_requires(*should_cancel, ()),
        ensures
            appended(old(calls)@, final(calls)@),
            execution_only(added(old(calls)@, final(calls)@)),
            removals_follow_start(added(old(calls)@, final(calls)@)),
            !executable_plan(*plan) || permanent_removal_unauthorized(*plan, authorizations) ==> final(calls)@ == old(calls)@,
            final(store).consistent(),
            final(store).others_unchanged(*old(store), run_id),
            result matches Err(error) ==> error is InvalidRun || error is Storage,
            !executable_plan(*plan) || permanent_removal_unauthorized(*plan, authorizations)
                ==> result is Err && final(store).unchanged_from(*old(store)),
            executable_plan(*plan) && permanent_removal_unauthorized(*plan, authorizations)
                ==> (result matches Err(WorkflowError::InvalidRun(message)) && message@ == permanent_refusal_text()),
            executable_plan(*plan) && !permanent_removal_unauthorized(*plan, authorizations) && old(store).has_run(run_id)
                ==> result == Err::<RunReport, WorkflowError>(WorkflowError::Storage(StorageError::DuplicateRun))
                    && final(store).unchanged_from(*old(store)),
            executable_plan(*plan) && !permanent_removal_unauthorized(*plan, authorizations) && !old(store).has_run(run_id)
                ==> final(store).has_run(run_id) && (result matches Ok(report) ==> {
                    &&& executed_run(*old(store), *final(store), run_id, *profile, authorizations, None, None)
                    &&& all_removals_trash(final(store).journal(run_id))
                    &&& planned_ids(final(store).journal(run_id)) == action_ids(plan.actions@)
                    &&& report_of(report, *final(store), run_id)
                }),
            always_cancels(*should_cancel) && result is Ok ==> cancelled_run(final(store).journal(run_id), final(store).run_status(run_id)),
    {
        let ghost call_start = calls@;
        proof {
            lemma_added_refl(call_start);
        }
        if !plan_ids_distinct(&plan.actions) || plan.options.retry_policy.max_attempts < 1 {
            return Err(WorkflowError::InvalidRun(String::from_str("the reviewed plan has repeated action ids or no transfer attempt")));
        }
        let permanent = match plan.options.deletion_method {
            Some(DeletionMethod::PermanentRemoval) => true,
            _ => false,
        };
        if permanent && !authorizations.allow_unattended_permanent_removal {
            return Err(WorkflowError::InvalidRun(String::from_str("SSH Permanent Removal requires separate explicit authorization")));
        }
        let ghost start = *store;
        let snapshot = run_snapshot(run_id, profile, authorizations, None, None);
        match store.begin_run(snapshot) {
            Ok(()) => {},
            Err(storage) => return Err(WorkflowError::Storage(storage)),
        }
        let ghost begun = *store;
        persist_plan(store, run_id, plan)?;
        let ghost planned = *store;
        proof {
            let j = store.journal(run_id);
            assert forall|k: int| 0 <= k < j.len() && (#[trigger] j[k]) is RemovalStarted
                implies j[k]->RemovalStarted_deletion_method == DeletionMethod::Trash by {
                assert(j[k] is Planned);
            }
        }
        match self.execute_planned_ssh_actions(store, run_id, profile, plan, backend, precheck, should_cancel, calls) {
            Ok(()) => {},
            Err(error) => {
                proof {
                    lemma_journal_only_trans(begun, planned, *store, run_id);
                    reveal(crate::workflow::frame_kept);
                    assert forall|other: RunId| other != run_id implies {
                        &&& #[trigger] store.has_run(other) == start.has_run(other)
                        &&& start.has_run(other) ==> {
                            &&& store.journal(other) == start.journal(other)
                            &&& store.run_status(other) == start.run_status(other)
                            &&& store.snapshot(other) == start.snapshot(other)
                            &&& store.blocked_reason(other) == start.blocked_reason(other)
                        }
                    } by {
                        assert(begun.has_run(other) == start.has_run(other));
                        assert(store.has_run(other) == begun.has_run(other));
                    }
                }
                return Err(error);
            },
        }
        let ghost executed = *store;
        proof {
            lemma_journal_only_trans(begun, planned, executed, run_id);
        }
        let journal = match store.load_journal(run_id) {
            Ok(journal) => journal,
            Err(storage) => return Err(WorkflowError::Storage(storage)),
        };
        let ghost executed_calls = calls@;
        let observed = call_ssh_observe(backend, profile, &journal, calls);
        proof {
            lemma_added_push(executed_calls, calls@.last());
            lemma_added_trans(call_start, executed_calls, calls@);
            lemma_calls_concat(added(call_start, executed_calls), added(executed_calls, calls@));
        }
        match store.record_reconciliation(run_id, observed) {
            Ok(()) => {},
            Err(storage) => return Err(WorkflowError::Storage(storage)),
        }
        let report = match store.load_report(run_id) {
            Ok(report) => report,
            Err(storage) => return Err(WorkflowError::Storage(storage)),
        };
        proof {
            reveal(crate::workflow::frame_kept);
            assert(store.run_status(run_id) == reconciled_status(store.journal(run_id), observed));
            assert forall|other: RunId| other != run_id implies {
                &&& #[trigger] store.has_run(other) == start.has_run(other)
                &&& start.has_run(other) ==> {
                    &&& store.journal(other) == start.journal(other)
                    &&& store.run_status(other) == start.run_status(other)
                    &&& store.snapshot(other) == start.snapshot(other)
                    &&& store.blocked_reason(other) == start.blocked_reason(other)
                }
            } by {
                assert(begun.has_run(other) == start.has_run(other));
                assert(executed.has_run(other) == begun.has_run(other));
                assert(store.has_run(other) == executed.has_run(other));
            }
            assert(store.others_unchanged(start, run_id));
            assert(executed_run(start, *store, run_id, *profile, authorizations, None, None));
            if always_cancels(*should_cancel) {
                crate::workflow::lemma_cancelled_run(store.journal(run_id), plan.actions@, observed);
            }
        }
        Ok(report)
    }
}


/// Two plans hold the same actions under the same mode and options.
pub open spec fn same_plan(a: OneWayPlan, b: OneWayPlan) -> bool {
    &&& a.mode == b.mode
    &&& a.options == b.options
    &&& a.actions@.len() == b.actions@.len()
    &&& forall|i: int| 0 <= i < a.actions@.len() ==> same_action(#[trigger] a.actions@[i], b.actions@[i])
}

pub open spec fn same_action(a: PlanAction, b: PlanAction) -> bool {
    &&& a.action_id == b.action_id
    &&& a.relative_path@ == b.relative_path@
    &&& a.kind == b.kind
    &&& a.source_side == b.source_side
    &&& a.size == b.size
}

pub(crate) fn plans_match(a: &OneWayPlan, b: &OneWayPlan) -> (matches: bool)
    ensures
        matches == same_plan(*a, *b),
{
    if a.mode != b.mode || a.options != b.options || a.actions.len() != b.actions.len() {
        return false;
    }
    let mut index: usize = 0;
    while index < a.actions.len()
        invariant
            a.actions@.len() == b.actions@.len(),
            index <= a.actions@.len(),
            forall|i: int| 0 <= i < index ==> same_action(#[trigger] a.actions@[i], b.actions@[i]),
        decreases a.actions@.len() - index,
    {
        let x = &a.actions[index];
        let y = &b.actions[index];
        if x.action_id != y.action_id || x.relative_path != y.relative_path || x.kind != y.kind
            || x.source_side != y.source_side || x.size != y.size {
            return false;
        }
        index += 1;
    }
    true
}

/// The permit was granted for this peer's server and port.
pub open spec fn permit_fits(permit: SshHostTrustPermit, peer: SshPeer) -> bool {
    permit.server@ == peer.server@ && permit.port == peer.port
}

pub(crate) fn validate_ssh_permits(peer: &SshPeer, permit: &SshHostTrustPermit) -> (result: Result<(), WorkflowError>)
    ensures
        result is Ok <==> permit_fits(*permit, *peer),
        result matches Err(error) ==> (error matches WorkflowError::InvalidRun(message)
            && message@ == "SSH precheck permit is invalid: it was granted for another server"@),
{
    if permit.server != peer.server || permit.port != peer.port {
        return Err(WorkflowError::InvalidRun(String::from_str("SSH precheck permit is invalid: it was granted for another server")));
    }
    Ok(())
}

/// Reverifies the host identity against the trusted permit and reruns the
/// remote precheck, which must find no blocker.
fn refresh_ssh_precheck<B: SshRunBackend>(
    profile: &SyncProfile,
    permit: &SshHostTrustPermit,
    backend: &B,
    calls: &mut Ghost<Seq<EnvCall>>,
) -> (result: Result<RemotePrecheck, WorkflowError>)
    ensures
        ssh_side(*profile) is None ==> (result matches Err(error) && error is InvalidRun),
        result matches Err(error) ==> error is InvalidRun || error matches WorkflowError::Ssh(SshRunError::Precheck(_)),
        result matches Ok(precheck) ==> precheck.blockers@.len() == 0,
        appended(old(calls)@, final(calls)@),
        ssh_side(*profile) is None ==> final(calls)@ == old(calls)@,
        added(old(calls)@, final(calls)@).len() <= 2,
        forall|i: int| 0 <= i < added(old(calls)@, final(calls)@).len()
            ==> (#[trigger] added(old(calls)@, final(calls)@)[i]) is ProbeHost || added(old(calls)@, final(calls)@)[i] is RemotePrecheck,
        added(old(calls)@, final(calls)@).len() == 2 ==> added(old(calls)@, final(calls)@)[1] is RemotePrecheck,
        added(old(calls)@, final(calls)@).len() >= 1 ==> added(old(calls)@, final(calls)@)[0] is ProbeHost,
        result matches Ok(precheck) ==> added(old(calls)@, final(calls)@).len() == 2
            && added(old(calls)@, final(calls)@)[1] == (EnvCall::RemotePrecheck { answer: Ok(precheck) }),
        added(old(calls)@, final(calls)@).len() == 2 && blocked_remote(added(old(calls)@, final(calls)@)[1])
            ==> (result matches Err(WorkflowError::Ssh(SshRunError::Precheck(message)))
                && message@ == blocked_remote_text(added(old(calls)@, final(calls)@)[1])),
        added(old(calls)@, final(calls)@).len() == 2 && (added(old(calls)@, final(calls)@)[1] matches EnvCall::RemotePrecheck { answer: Ok(found) }
            && found.blockers@.len() == 0) ==> result is Ok,
{
    let ghost start = calls@;
    proof {
        lemma_added_refl(start);
    }
    let (_, peer) = ssh_peer_for_profile(profile)?;
    let probed = call_probe_host(backend, peer, calls);
    let ghost after_probe = calls@;
    proof {
        lemma_added_push(start, calls@.last());
    }
    let observed = match probed {
        Ok(observed) => observed,
        Err(message) => return Err(WorkflowError::Ssh(SshRunError::Precheck(
            prefixed("SSH host identity could not be reverified: ", &message)))),
    };
    if observed != permit.fingerprint {
        return Err(WorkflowError::Ssh(SshRunError::Precheck(String::from_str(
            "SSH host fingerprint changed; review the server identity before continuing"))));
    }
    let answer = call_remote_precheck(backend, peer, calls);
    proof {
        lemma_added_push(after_probe, calls@.last());
        lemma_added_trans(start, after_probe, calls@);
        assert(added(start, calls@) =~= seq![after_probe.last(), calls@.last()]);
    }
    let precheck = match answer {
        Ok(precheck) => precheck,
        Err(message) => return Err(WorkflowError::Ssh(SshRunError::Precheck(message))),
    };
    if precheck.blockers.len() > 0 {
        let listed = debug_list(&precheck.blockers);
        return Err(WorkflowError::Ssh(SshRunError::Precheck(prefixed("remote precheck remained blocked: ", &listed))));
    }
    Ok(precheck)
}

/// What `{:?}` prints for a list of texts: each text as `{:?}` prints it,
/// separated by a comma and a space, in square brackets.
pub open spec fn debug_list_text(items: Seq<String>) -> Seq<char> {
    "["@ + joined(Seq::new(items.len(), |i: int| debug_text(items[i]@)), ", "@) + "]"@
}

fn debug_list(items: &Vec<String>) -> (text: String)
    ensures
        text@ == debug_list_text(items@),
{
    let mut quoted: Vec<String> = Vec::new();
    let mut index: usize = 0;
    while index < items.len()
        invariant
            index <= items@.len(),
            quoted@.len() == index,
            forall|i: int| 0 <= i < index ==> (#[trigger] quoted@[i])@ == debug_text(items@[i]@),
        decreases items@.len() - index,
    {
        quoted.push(debug_quoted(items[index].as_str()));
        index += 1;
    }
    assert(string_views(quoted@) =~= Seq::new(items@.len(), |i: int| debug_text(items@[i]@)));
    let inner = join_lines(&quoted, ", ");
    let mut text = String::from_str("[");
    text.append(inner.as_str());
    text.append("]");
    assert(text@ =~= debug_list_text(items@));
    text
}

/// Fresh Analysis twice; the plan is confirmed only when both agree.
fn analyze_ssh_twice<B: SshRunBackend>(
    profile: &SyncProfile,
    backend: &B,
    calls: &mut Ghost<Seq<EnvCall>>,
) -> (result: Result<OneWayPlan, WorkflowError>)
    ensures
        result matches Err(error) ==> error is Analysis,
        appended(old(calls)@, final(calls)@),
        1 <= added(old(calls)@, final(calls)@).len() <= 2,
        forall|i: int| 0 <= i < added(old(calls)@, final(calls)@).len()
            ==> (#[trigger] added(old(calls)@, final(calls)@)[i]) is FreshAnalysis,
        result matches Ok(plan) ==> added(old(calls)@, final(calls)@).len() == 2
            && added(old(calls)@, final(calls)@)[0] == (EnvCall::FreshAnalysis { answer: Ok(plan) }),
{
    let ghost start = calls@;
    let first = call_ssh_analysis(backend, profile, calls);
    let ghost once = calls@;
    proof {
        lemma_added_push(start, calls@.last());
    }
    let analysis = match first {
        Ok(plan) => plan,
        Err(message) => return Err(WorkflowError::Analysis(message)),
    };
    let second = call_ssh_analysis(backend, profile, calls);
    proof {
        lemma_added_push(once, calls@.last());
        lemma_added_trans(start, once, calls@);
        assert(added(start, calls@) =~= seq![once.last(), calls@.last()]);
    }
    let refreshed = match second {
        Ok(plan) => plan,
        Err(message) => return Err(WorkflowError::Analysis(message)),
    };
    if !plans_match(&analysis, &refreshed) {
        return Err(WorkflowError::Analysis(String::from_str(
            "the remote peers changed between analyses; run Fresh Analysis again")));
    }
    Ok(analysis)
}

/// What an SSH run's calls to its backend show: the order of
/// `ssh_lifecycle_calls`; no call at all for a profile without exactly one
/// SSH peer or without a fitting permit; a call that can change a peer only
/// for a confirmed plan that is not an unauthorized Permanent Removal; and
/// none when the confirmation never agrees.
pub open spec fn ssh_run_calls<C: FnOnce(&OneWayPlan) -> bool>(
    made: Seq<EnvCall>,
    confirm: C,
    authorizations: AuthorizationSnapshot,
    profile: SyncProfile,
    permit: SshHostTrustPermit,
) -> bool {
    &&& ssh_lifecycle_calls(made)
    &&& ssh_side(profile) is None ==> made.len() == 0
    &&& (ssh_side(profile) matches Some(side) && !permit_fits(permit, ssh_of(side_peer(profile, side)))) ==> made.len() == 0
    &&& !effect_free(made) ==> exists|plan: OneWayPlan| #[trigger] call_ensures(confirm, (&plan,), true)
        && !permanent_removal_unauthorized(plan, authorizations)
    &&& never_confirms(confirm) ==> effect_free(made)
}

/// An SSH run that reached its confirmed plan: its host check and remote
/// precheck, two Fresh Analyses, and a second host check and remote
/// precheck that found no blocker.
pub open spec fn ssh_reached_execution(calls: Seq<EnvCall>) -> bool {
    &&& calls.len() >= 6
    &&& calls[2] matches EnvCall::FreshAnalysis { answer: Ok(_) }
    &&& calls[5] matches EnvCall::RemotePrecheck { answer: Ok(found) } && found.blockers@.len() == 0
}

/// The plan of an SSH run's first Fresh Analysis, the one put to the
/// confirmation.
pub open spec fn analysed_plan(calls: Seq<EnvCall>) -> OneWayPlan {
    calls[2]->FreshAnalysis_answer->Ok_0
}

/// An SSH run asks for a remote precheck twice at most: as its second call,
/// right after the host check, and as its sixth, after the host is checked
/// again once the plan is confirmed.
pub open spec fn remote_prechecks_bounded(calls: Seq<EnvCall>) -> bool {
    forall|i: int| 0 <= i < calls.len() && (#[trigger] calls[i]) is RemotePrecheck ==> i == 1 || i == 5
}

/// The calls of one host check and remote precheck.
pub open spec fn host_check_calls(calls: Seq<EnvCall>) -> bool {
    &&& calls.len() <= 2
    &&& forall|i: int| 0 <= i < calls.len() ==> (#[trigger] calls[i]) is ProbeHost || calls[i] is RemotePrecheck
    &&& calls.len() >= 1 ==> calls[0] is ProbeHost
}

proof fn lemma_remote_prechecks(r1: Seq<EnvCall>, a: Seq<EnvCall>, r2: Seq<EnvCall>, rest: Seq<EnvCall>)
    requires
        host_check_calls(r1),
        a.len() > 0 ==> r1.len() == 2,
        a.len() <= 2,
        forall|i: int| 0 <= i < a.len() ==> (#[trigger] a[i]) is FreshAnalysis,
        host_check_calls(r2),
        r2.len() > 0 ==> a.len() == 2,
        rest.len() > 0 ==> r2.len() == 2,
        execution_only(rest),
    ensures
        remote_prechecks_bounded(r1 + a + r2 + rest),
{
    let c = r1 + a + r2 + rest;
    assert forall|i: int| 0 <= i < c.len() && (#[trigger] c[i]) is RemotePrecheck implies i == 1 || i == 5 by {
        if i < r1.len() {
            assert(c[i] == r1[i]);
        } else if i < r1.len() + a.len() {
            assert(c[i] == a[i - r1.len()]);
        } else if i < r1.len() + a.len() + r2.len() {
            assert(c[i] == r2[i - r1.len() - a.len()]);
        } else {
            assert(c[i] == rest[i - r1.len() - a.len() - r2.len()]);
            assert(execution_call(rest[i - r1.len() - a.len() - r2.len()]));
        }
    }
}

/// A remote precheck that answered with blockers.
pub open spec fn blocked_remote(call: EnvCall) -> bool {
    call matches EnvCall::RemotePrecheck { answer: Ok(found) } && found.blockers@.len() > 0
}

/// The refusal of a remote precheck that answered with blockers.
pub open spec fn blocked_remote_text(call: EnvCall) -> Seq<char> {
    "remote precheck remained blocked: "@ + debug_list_text(call->RemotePrecheck_answer->Ok_0.blockers@)
}

/// Call `i` is a passed remote precheck with no blockers, made after a
/// Fresh Analysis.
pub open spec fn remote_rechecked_at(calls: Seq<EnvCall>, i: int) -> bool {
    &&& 0 < i < calls.len()
    &&& calls[i] matches EnvCall::RemotePrecheck { answer: Ok(found) } && found.blockers@.len() == 0
    &&& exists|k: int| 0 <= k < i && (#[trigger] calls[k]) is FreshAnalysis
}

/// The calls of an SSH run: every call that can change a peer comes after
/// a passed remote precheck that follows a Fresh Analysis, and every move
/// to the remote Trash is made right after its journaled start.
pub open spec fn ssh_lifecycle_calls(calls: Seq<EnvCall>) -> bool {
    &&& forall|j: int| 0 <= j < calls.len() && has_effect(#[trigger] calls[j]) ==> exists|i: int| i < j && remote_rechecked_at(calls, i)
    &&& removals_follow_start(calls)
}

pub(crate) proof fn lemma_ssh_lifecycle_without_effects(calls: Seq<EnvCall>)
    requires
        effect_free(calls),
    ensures
        ssh_lifecycle_calls(calls),
{
    assert forall|i: int| 0 <= i < calls.len() implies removal_started(#[trigger] calls[i]) by {
        assert(!has_effect(calls[i]));
    }
}

proof fn lemma_ssh_lifecycle_after_recheck(head: Seq<EnvCall>, rest: Seq<EnvCall>)
    requires
        effect_free(head),
        remote_rechecked_at(head, head.len() - 1),
        execution_only(rest),
        removals_follow_start(rest),
    ensures
        ssh_lifecycle_calls(head + rest),
{
    let c = head + rest;
    let r = head.len() - 1;
    assert forall|i: int| 0 <= i < head.len() implies #[trigger] c[i] == head[i] by {}
    let k = choose|k: int| 0 <= k < r && (#[trigger] head[k]) is FreshAnalysis;
    assert(c[k] == head[k]);
    assert(remote_rechecked_at(c, r));
    assert forall|j: int| 0 <= j < c.len() && has_effect(#[trigger] c[j]) implies exists|i: int| i < j && remote_rechecked_at(c, i) by {
        if j < head.len() {
            assert(c[j] == head[j]);
            assert(!has_effect(head[j]));
        }
    }
    assert forall|i: int| 0 <= i < c.len() implies removal_started(#[trigger] c[i]) by {
        if i >= head.len() {
            assert(c[i] == rest[i - head.len()]);
        } else {
            assert(!has_effect(head[i]));
        }
    }
}

/// What an SSH run promises whatever the backend returned: the workflow's
/// settings are kept and its locks released; nothing is recorded before the
/// plan is confirmed and revalidated; a returned report is the store's
/// record of a run that settled every planned action and moved removed
/// sources to the Trash only.
pub open spec fn ssh_lifecycle_outcome(
    before: RunWorkflow,
    after: RunWorkflow,
    store_before: RunEvidenceStore,
    store_after: RunEvidenceStore,
    run_id: RunId,
    profile: SyncProfile,
    authorizations: AuthorizationSnapshot,
    result: Result<RunReport, WorkflowError>,
) -> bool {
    &&& after.recovery_method == before.recovery_method
    &&& after.supervisor == before.supervisor
    &&& locks_released(before.scope_locks, after.scope_locks, run_id)
    &&& store_after.consistent()
    &&& (scope_held_elsewhere(before.scope_locks, run_id, profile) ==> result is Err && store_after.unchanged_from(store_before))
    &&& (ssh_side(profile) is None ==> (result matches Err(error) && error is InvalidRun) && store_after.unchanged_from(store_before))
    &&& (result matches Err(error) && !(error is InvalidRun || error is Storage) ==> store_after.unchanged_from(store_before))
    &&& (result matches Ok(report) ==> {
        &&& executed_run(store_before, store_after, run_id, profile, authorizations, None, None)
        &&& all_removals_trash(store_after.journal(run_id))
        &&& report_of(report, store_after, run_id)
    })
}

impl RunWorkflow {
    /// Executes a Sync Run with exactly one SSH peer and no unattended
    /// authorization.
    pub fn execute_ssh<B: SshRunBackend, C: FnOnce(&OneWayPlan) -> bool, F: Fn() -> bool>(
        &mut self,
        run_id: RunId,
        profile: &SyncProfile,
        permit: &SshHostTrustPermit,
        backend: &B,
        confirm: C,
        store: &mut RunEvidenceStore,
        should_cancel: F,
    ) -> (result: Result<RunReport, WorkflowError>)
        requires
            old(self).scope_locks.exclusive(),
            old(store).consistent(),
            forall|plan: &OneWayPlan| #[trigger] call_requires(confirm, (plan,)),
            forall|| #[trigger] call_requires(should_cancel, ()),
        ensures
            ssh_lifecycle_outcome(*old(self), *final(self), *old(store), *final(store), run_id, *profile,
                AuthorizationSnapshot::none_spec(), result),
            result is Ok ==> exists|plan: OneWayPlan| #[trigger] call_ensures(confirm, (&plan,), true)
                && planned_ids(final(store).journal(run_id)) == action_ids(plan.actions@)
                && !permanent_removal_unauthorized(plan, AuthorizationSnapshot::none_spec()),
            result matches Err(WorkflowError::ConfirmationRequired)
                ==> exists|plan: OneWayPlan| #[trigger] call_ensures(confirm, (&plan,), false),
            journaled_new_run(*old(store), *final(store), run_id)
                ==> exists|plan: OneWayPlan| #[trigger] call_ensures(confirm, (&plan,), true)
                    && !permanent_removal_unauthorized(plan, AuthorizationSnapshot::none_spec()),
            result matches Ok(report) ==> (always_cancels(should_cancel) ==> cancelled_run(report.journal@, report.status)),
            never_confirms(confirm) ==> result is Err && final(store).unchanged_from(*old(store)),
            appended(old(self).calls@, final(self).calls@),
            ssh_run_calls(added(old(self).calls@, final(self).calls@), confirm, AuthorizationSnapshot::none_spec(), *profile, *permit),
            scope_held_elsewhere(old(self).scope_locks, run_id, *profile) ==> final(self).calls@ == old(self).calls@,
            added(old(self).calls@, final(self).calls@).len() >= 2 && blocked_remote(added(old(self).calls@, final(self).calls@)[1])
                ==> (result matches Err(WorkflowError::Ssh(SshRunError::Precheck(message)))
                    && message@ == blocked_remote_text(added(old(self).calls@, final(self).calls@)[1]))
                    && added(old(self).calls@, final(self).calls@).len() == 2,
            !scope_held_elsewhere(old(self).scope_locks, run_id, *profile) && ssh_side(*profile) is None
                ==> (result matches Err(WorkflowError::InvalidRun(message)) && message@ == ssh_peer_refusal_text(*profile)),
            !scope_held_elsewhere(old(self).scope_locks, run_id, *profile)
                && (ssh_side(*profile) matches Some(side) && !permit_fits(*permit, ssh_of(side_peer(*profile, side))))
                ==> (result matches Err(WorkflowError::InvalidRun(message))
                    && message@ == "SSH precheck permit is invalid: it was granted for another server"@),
            ssh_reached_execution(added(old(self).calls@, final(self).calls@))
                && executable_plan(analysed_plan(added(old(self).calls@, final(self).calls@)))
                && permanent_removal_unauthorized(analysed_plan(added(old(self).calls@, final(self).calls@)), AuthorizationSnapshot::none_spec())
                ==> (result matches Err(WorkflowError::InvalidRun(message)) && message@ == permanent_refusal_text())
                    && added(old(self).calls@, final(self).calls@).len() == 6
                    && final(store).unchanged_from(*old(store)),
            remote_prechecks_bounded(added(old(self).calls@, final(self).calls@)),
            ssh_reached_execution(added(old(self).calls@, final(self).calls@))
                ==> call_ensures(confirm, (&analysed_plan(added(old(self).calls@, final(self).calls@)),), true),
            result matches Err(WorkflowError::ConfirmationRequired) ==> added(old(self).calls@, final(self).calls@).len() == 4
                && call_ensures(confirm, (&analysed_plan(added(old(self).calls@, final(self).calls@)),), false),
    {
        self.execute_ssh_with_authorizations(run_id, profile, permit, AuthorizationSnapshot::none(), backend, confirm, store, should_cancel)
    }

    /// Executes an SSH run with the authorization snapshot selected for it:
    /// the Peer Scope Lock, the permit check, a host-verified remote
    /// precheck, two agreeing Fresh Analyses, explicit Execution
    /// Confirmation, a second precheck, then journaled execution.
    pub fn execute_ssh_with_authorizations<B: SshRunBackend, C: FnOnce(&OneWayPlan) -> bool, F: Fn() -> bool>(
        &mut self,
        run_id: RunId,
        profile: &SyncProfile,
        permit: &SshHostTrustPermit,
        authorizations: AuthorizationSnapshot,
        backend: &B,
        confirm: C,
        store: &mut RunEvidenceStore,
        should_cancel: F,
    ) -> (result: Result<RunReport, WorkflowError>)
        requires
            old(self).scope_locks.exclusive(),
            old(store).consistent(),
            forall|plan: &OneWayPlan| #[trigger] call_requires(confirm, (plan,)),
            forall|| #[trigger] call_requires(should_cancel, ()),
        ensures
            ssh_lifecycle_outcome(*old(self), *final(self), *old(store), *final(store), run_id, *profile, authorizations, result),
            result is Ok ==> exists|plan: OneWayPlan| #[trigger] call_ensures(confirm, (&plan,), true)
                && planned_ids(final(store).journal(run_id)) == action_ids(plan.actions@)
                && !permanent_removal_unauthorized(plan, authorizations),
            result matches Err(WorkflowError::ConfirmationRequired)
                ==> exists|plan: OneWayPlan| #[trigger] call_ensures(confirm, (&plan,), false),
            journaled_new_run(*old(store), *final(store), run_id)
                ==> exists|plan: OneWayPlan| #[trigger] call_ensures(confirm, (&plan,), true)
                    && !permanent_removal_unauthorized(plan, authorizations),
            result matches Ok(report) ==> (always_cancels(should_cancel) ==> cancelled_run(report.journal@, report.status)),
            never_confirms(confirm) ==> result is Err && final(store).unchanged_from(*old(store)),
            appended(old(self).calls@, final(self).calls@),
            ssh_run_calls(added(old(self).calls@, final(self).calls@), confirm, authorizations, *profile, *permit),
            scope_held_elsewhere(old(self).scope_locks, run_id, *profile) ==> final(self).calls@ == old(self).calls@,
            added(old(self).calls@, final(self).calls@).len() >= 2 && blocked_remote(added(old(self).calls@, final(self).calls@)[1])
                ==> (result matches Err(WorkflowError::Ssh(SshRunError::Precheck(message)))
                    && message@ == blocked_remote_text(added(old(self).calls@, final(self).calls@)[1]))
                    && added(old(self).calls@, final(self).calls@).len() == 2,
            !scope_held_elsewhere(old(self).scope_locks, run_id, *profile) && ssh_side(*profile) is None
                ==> (result matches Err(WorkflowError::InvalidRun(message)) && message@ == ssh_peer_refusal_text(*profile)),
            !scope_held_elsewhere(old(self).scope_locks, run_id, *profile)
                && (ssh_side(*profile) matches Some(side) && !permit_fits(*permit, ssh_of(side_peer(*profile, side))))
                ==> (result matches Err(WorkflowError::InvalidRun(message))
                    && message@ == "SSH precheck permit is invalid: it was granted for another server"@),
            ssh_reached_execution(added(old(self).calls@, final(self).calls@))
                && executable_plan(analysed_plan(added(old(self).calls@, final(self).calls@)))
                && permanent_removal_unauthorized(analysed_plan(added(old(self).calls@, final(self).calls@)), authorizations)
                ==> (result matches Err(WorkflowError::InvalidRun(message)) && message@ == permanent_refusal_text())
                    && added(old(self).calls@, final(self).calls@).len() == 6
                    && final(store).unchanged_from(*old(store)),
            remote_prechecks_bounded(added(old(self).calls@, final(self).calls@)),
            ssh_reached_execution(added(old(self).calls@, final(self).calls@))
                ==> call_ensures(confirm, (&analysed_plan(added(old(self).calls@, final(self).calls@)),), true),
            result matches Err(WorkflowError::ConfirmationRequired) ==> added(old(self).calls@, final(self).calls@).len() == 4
                && call_ensures(confirm, (&analysed_plan(added(old(self).calls@, final(self).calls@)),), false),
    {
        let ghost call_start = self.calls@;
        proof {
            lemma_added_refl(call_start);
        }
        let scopes = profile_peer_scopes(profile);
        let owner = ScopeLockOwner { profile_name: profile.name.clone(), run_id };
        let ghost registry_before = self.scope_locks;
        if !self.scope_locks.acquire(&owner, &scopes) {
            self.scope_locks.release(run_id);
            proof {
                lemma_ssh_lifecycle_without_effects(Seq::empty());
                let (k, i) = choose|k: int, i: int| 0 <= k < scopes@.len() && 0 <= i < registry_before.held_scopes().len()
                    && (#[trigger] registry_before.held_scopes()[i]).owner.run_id != run_id
                    && scopes_overlap(registry_before.held_scopes()[i].scope.root@, (#[trigger] scopes@[k]).root@);
                assert(scopes@[k].root@ == profile_scopes(*profile)[k]);
                assert(scope_held_elsewhere(registry_before, run_id, *profile));
            }
            return Err(WorkflowError::InvalidRun(String::from_str("could not acquire peer scope lock")));
        }
        let ghost registry_locked = self.scope_locks;
        proof {
            assert(!scope_held_elsewhere(registry_before, run_id, *profile)) by {
                if scope_held_elsewhere(registry_before, run_id, *profile) {
                    let (i, k) = choose|i: int, k: int| 0 <= i < registry_before.held_scopes().len() && 0 <= k < 2
                        && (#[trigger] registry_before.held_scopes()[i]).owner.run_id != run_id
                        && scopes_overlap(registry_before.held_scopes()[i].scope.root@, #[trigger] profile_scopes(*profile)[k]);
                    assert(scopes@[k].root@ == profile_scopes(*profile)[k]);
                }
            }
        }
        let mut calls = self.calls;
        let outcome = self.run_ssh_lifecycle(run_id, profile, permit, authorizations, backend, confirm, store, &should_cancel, &mut calls);
        self.calls = calls;
        self.scope_locks.release(run_id);
        proof {
            lemma_acquire_then_release(registry_before, registry_locked, self.scope_locks, owner, scopes@);
        }
        outcome
    }

    /// The part of an SSH run that happens while its scopes are locked.
    pub(crate) fn run_ssh_lifecycle<B: SshRunBackend, C: FnOnce(&OneWayPlan) -> bool, F: Fn() -> bool>(
        &self,
        run_id: RunId,
        profile: &SyncProfile,
        permit: &SshHostTrustPermit,
        authorizations: AuthorizationSnapshot,
        backend: &B,
        confirm: C,
        store: &mut RunEvidenceStore,
        should_cancel: &F,
        calls: &mut Ghost<Seq<EnvCall>>,
    ) -> (result: Result<RunReport, WorkflowError>)
        requires
            old(store).consistent(),
            forall|plan: &OneWayPlan| #[trigger] call_requires(confirm, (plan,)),
            forall|| #[trigger] call_requires(*should_cancel, ()),
        ensures
            final(store).consistent(),
            final(store).others_unchanged(*old(store), run_id),
            ssh_side(*profile) is None ==> (result matches Err(error) && error is InvalidRun) && final(store).unchanged_from(*old(store)),
            ssh_side(*profile) matches Some(side) && !permit_fits(*permit, ssh_of(side_peer(*profile, side)))
                ==> (result matches Err(error) && error is InvalidRun) && final(store).unchanged_from(*old(store)),
            result matches Err(error) && !(error is InvalidRun || error is Storage) ==> final(store).unchanged_from(*old(store)),
            result matches Err(WorkflowError::ConfirmationRequired)
                ==> exists|plan: OneWayPlan| #[trigger] call_ensures(confirm, (&plan,), false),
            result matches Ok(report) ==> {
                &&& executed_run(*old(store), *final(store), run_id, *profile, authorizations, None, None)
                &&& all_removals_trash(final(store).journal(run_id))
                &&& report_of(report, *final(store), run_id)
            },
            result is Ok ==> exists|plan: OneWayPlan| #[trigger] call_ensures(confirm, (&plan,), true)
                && planned_ids(final(store).journal(run_id)) == action_ids(plan.actions@)
                && !permanent_removal_unauthorized(plan, authorizations),
            journaled_new_run(*old(store), *final(store), run_id)
                ==> exists|plan: OneWayPlan| #[trigger] call_ensures(confirm, (&plan,), true)
                    && !permanent_removal_unauthorized(plan, authorizations),
            result matches Ok(report) ==> (always_cancels(*should_cancel) ==> cancelled_run(report.journal@, report.status)),
            never_confirms(confirm) ==> result is Err && final(store).unchanged_from(*old(store)),
            appended(old(calls)@, final(calls)@),
            ssh_lifecycle_calls(added(old(calls)@, final(calls)@)),
            ssh_side(*profile) is None ==> final(calls)@ == old(calls)@,
            ssh_side(*profile) matches Some(side) && !permit_fits(*permit, ssh_of(side_peer(*profile, side)))
                ==> final(calls)@ == old(calls)@,
            !effect_free(added(old(calls)@, final(calls)@)) ==> exists|plan: OneWayPlan| #[trigger] call_ensures(confirm, (&plan,), true)
                && !permanent_removal_unauthorized(plan, authorizations),
            never_confirms(confirm) ==> effect_free(added(old(calls)@, final(calls)@)),
            added(old(calls)@, final(calls)@).len() >= 2 && blocked_remote(added(old(calls)@, final(calls)@)[1])
                ==> (result matches Err(WorkflowError::Ssh(SshRunError::Precheck(message)))
                    && message@ == blocked_remote_text(added(old(calls)@, final(calls)@)[1]))
                    && added(old(calls)@, final(calls)@).len() == 2,
            ssh_side(*profile) is None ==> (result matches Err(WorkflowError::InvalidRun(message))
                && message@ == ssh_peer_refusal_text(*profile)),
            ssh_side(*profile) matches Some(side) && !permit_fits(*permit, ssh_of(side_peer(*profile, side)))
                ==> (result matches Err(WorkflowError::InvalidRun(message))
                    && message@ == "SSH precheck permit is invalid: it was granted for another server"@),
            remote_prechecks_bounded(added(old(calls)@, final(calls)@)),
            ssh_reached_execution(added(old(calls)@, final(calls)@))
                ==> call_ensures(confirm, (&analysed_plan(added(old(calls)@, final(calls)@)),), true),
            result matches Err(WorkflowError::ConfirmationRequired) ==> added(old(calls)@, final(calls)@).len() == 4
                && call_ensures(confirm, (&analysed_plan(added(old(calls)@, final(calls)@)),), false),
            ssh_reached_execution(added(old(calls)@, final(calls)@))
                && executable_plan(analysed_plan(added(old(calls)@, final(calls)@)))
                && permanent_removal_unauthorized(analysed_plan(added(old(calls)@, final(calls)@)), authorizations)
                ==> (result matches Err(WorkflowError::InvalidRun(message)) && message@ == permanent_refusal_text())
                    && added(old(calls)@, final(calls)@).len() == 6
                    && final(store).unchanged_from(*old(store)),
    {
        let ghost call_start = calls@;
        proof {
            lemma_added_refl(call_start);
        }
        let (_, peer) = ssh_peer_for_profile(profile)?;
        validate_ssh_permits(peer, permit)?;
        let first = refresh_ssh_precheck(profile, permit, backend, calls);
        let ghost c1 = calls@;
        proof {
            assert(effect_free(added(call_start, c1)));
            let r1 = added(call_start, c1);
            let none = Seq::<EnvCall>::empty();
            lemma_remote_prechecks(r1, none, none, none);
            assert(r1 + none + none + none =~= r1);
        }
        let _initial = first?;
        let analysis = analyze_ssh_twice(profile, backend, calls);
        let ghost c2 = calls@;
        proof {
            lemma_added_trans(call_start, c1, c2);
            assert(effect_free(added(c1, c2)));
            lemma_calls_concat(added(call_start, c1), added(c1, c2));
            assert(added(call_start, c2) =~= added(call_start, c1) + added(c1, c2));
            let none = Seq::<EnvCall>::empty();
            lemma_remote_prechecks(added(call_start, c1), added(c1, c2), none, none);
            assert(added(call_start, c1) + added(c1, c2) + none + none =~= added(call_start, c2));
        }
        let plan = analysis?;
        proof {
            assert(added(call_start, c2)[2] == added(c1, c2)[0]);
            assert(analysed_plan(added(call_start, c2)) == plan);
        }
        if !confirm(&plan) {
            assert(call_ensures(confirm, (&plan,), false));
            return Err(WorkflowError::ConfirmationRequired);
        }
        assert(call_ensures(confirm, (&plan,), true));
        let second = refresh_ssh_precheck(profile, permit, backend, calls);
        let ghost c3 = calls@;
        proof {
            lemma_added_trans(call_start, c2, c3);
            assert(effect_free(added(c2, c3)));
            lemma_calls_concat(added(call_start, c2), added(c2, c3));
            assert(added(call_start, c3) =~= added(call_start, c2) + added(c2, c3));
            let none = Seq::<EnvCall>::empty();
            lemma_remote_prechecks(added(call_start, c1), added(c1, c2), added(c2, c3), none);
            assert(added(call_start, c1) + added(c1, c2) + added(c2, c3) + none =~= added(call_start, c3));
        }
        proof {
            let head = added(call_start, c3);
            if head.len() >= 6 {
                assert(head[5] == added(c2, c3)[1]);
            }
        }
        let precheck = second?;
        proof {
            let head = added(call_start, c3);
            let fa = added(call_start, c1).len();
            assert(head[fa as int] == added(c1, c2)[0]);
            assert(head[head.len() - 1] == added(c2, c3)[1]);
            assert(remote_rechecked_at(head, head.len() - 1));
            assert(head.len() == 6);
            assert(head[2] == added(c1, c2)[0]);
            assert(analysed_plan(head) == plan);
        }
        let outcome = self.execute_ssh_confirmed(run_id, profile, &plan, authorizations, backend, &precheck, store, should_cancel, calls);
        proof {
            lemma_added_trans(call_start, c3, calls@);
            lemma_ssh_lifecycle_after_recheck(added(call_start, c3), added(c3, calls@));
            assert(added(call_start, calls@) =~= added(call_start, c3) + added(c3, calls@));
            let made = added(call_start, calls@);
            lemma_remote_prechecks(added(call_start, c1), added(c1, c2), added(c2, c3), added(c3, calls@));
            assert(added(call_start, c1) + added(c1, c2) + added(c2, c3) + added(c3, calls@) =~= made);
            assert(made[2] == added(call_start, c3)[2]);
            assert(made[5] == added(call_start, c3)[5]);
            assert(analysed_plan(made) == plan);
        }
        outcome
    }
}

} // verus!
