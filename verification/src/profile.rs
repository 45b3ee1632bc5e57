//! Sync Profiles: the two peers, the sync mode and the typed options of a run.
use vstd::prelude::*;

use crate::model::{DeletionMethod, OneWaySource, PartialTransferPolicy, PeerSide, SyncMode, opposite_side, source_side};

verus! {

/// How an SSH peer authenticates.
#[derive(Debug, Clone, PartialEq, Eq)]
pub enum SshAuthentication {
    Key,
    Agent,
    InteractivePassword,
    /// A reference to a password kept in the desktop keyring; never the secret.
    SavedPassword(String),
}

#[derive(Debug, Clone, PartialEq, Eq)]
pub struct SshPeer {
    pub server: String,
    pub username: String,
    pub port: u16,
    pub identity: Option<String>,
    pub authentication: SshAuthentication,
    pub remote_path: String,
}

#[derive(Debug, Clone, PartialEq, Eq)]
pub enum PeerEndpoint {
    Local { root: String },
    Ssh(SshPeer),
}

/// One named side of a Sync Profile.
#[derive(Debug, Clone, PartialEq, Eq)]
pub struct Peer {
    pub name: String,
    pub endpoint: PeerEndpoint,
}

pub open spec fn peer_root(peer: Peer) -> Seq<char> {
    match peer.endpoint {
        PeerEndpoint::Local { root } => root@,
        PeerEndpoint::Ssh(ssh) => ssh.remote_path@,
    }
}

pub open spec fn peer_is_ssh(peer: Peer) -> bool {
    peer.endpoint is Ssh
}

impl Peer {
    pub fn root(&self) -> (root: &str)
        ensures
            root@ == peer_root(*self),
    {
        match &self.endpoint {
            PeerEndpoint::Local { root } => root.as_str(),
            PeerEndpoint::Ssh(ssh) => ssh.remote_path.as_str(),
        }
    }

    pub fn is_ssh(&self) -> (ssh: bool)
        ensures
            ssh == peer_is_ssh(*self),
    {
        match &self.endpoint {
            PeerEndpoint::Local { .. } => false,
            PeerEndpoint::Ssh(_) => true,
        }
    }
}

/// Bounded retry of transient transfer failures.
#[derive(Debug, Clone, Copy, PartialEq, Eq, Structural)]
pub struct RetryPolicy {
    pub max_attempts: u8,
    pub initial_delay_millis: u64,
}

pub const RETRY_MAX_ATTEMPTS: u8 = 10;

/// The metadata a run must carry over and verify.
#[derive(Debug, Clone, Copy, PartialEq, Eq, Structural)]
pub struct MetadataRequirements {
    pub empty_directories: bool,
    pub symlinks: bool,
    pub executable_bits: bool,
    pub timestamps: bool,
    pub ownership: bool,
    pub access_control_lists: bool,
    pub extended_attributes: bool,
}

/// Typed options of a Sync Profile.
#[derive(Debug, Clone, Copy, PartialEq, Eq, Structural)]
pub struct SyncOptions {
    pub metadata: MetadataRequirements,
    pub safe_delete: bool,
    pub destination_cleanup: bool,
    pub deletion_method: Option<DeletionMethod>,
    pub partial_transfer_policy: PartialTransferPolicy,
    pub retry_policy: RetryPolicy,
}

/// Unattended authorization recorded with a profile and frozen into every run.
#[derive(Debug, Clone, Copy, PartialEq, Eq, Structural)]
pub struct AuthorizationSnapshot {
    pub allow_unattended_destructive: bool,
    pub allow_unattended_permanent_removal: bool,
}

impl AuthorizationSnapshot {
    pub open spec fn none_spec() -> AuthorizationSnapshot {
        AuthorizationSnapshot { allow_unattended_destructive: false, allow_unattended_permanent_removal: false }
    }

    /// No unattended authority at all.
    pub fn none() -> (snapshot: AuthorizationSnapshot)
        ensures
            snapshot == AuthorizationSnapshot::none_spec(),
    {
        AuthorizationSnapshot { allow_unattended_destructive: false, allow_unattended_permanent_removal: false }
    }
}

#[derive(Debug, Clone, PartialEq, Eq)]
pub struct SyncProfile {
    pub name: String,
    pub peer_a: Peer,
    pub peer_b: Peer,
    pub mode: SyncMode,
    pub source: OneWaySource,
    pub options: SyncOptions,
    pub exclusions: Vec<String>,
}

pub open spec fn side_peer(profile: SyncProfile, side: PeerSide) -> Peer {
    match side {
        PeerSide::PeerA => profile.peer_a,
        PeerSide::PeerB => profile.peer_b,
    }
}

pub fn peer_for_side(profile: &SyncProfile, side: PeerSide) -> (peer: &Peer)
    ensures
        *peer == side_peer(*profile, side),
{
    match side {
        PeerSide::PeerA => &profile.peer_a,
        PeerSide::PeerB => &profile.peer_b,
    }
}

/// The side a run reads from: Peer A for Mirror, the chosen source for One-Way.
pub open spec fn analysis_source_side(profile: SyncProfile) -> PeerSide {
    if profile.mode == SyncMode::Mirror {
        PeerSide::PeerA
    } else {
        source_side(profile.source)
    }
}

/// The (source, destination) peers of a profile as the user reads its mapping.
pub open spec fn mapped_peer_sides(profile: SyncProfile) -> (PeerSide, PeerSide) {
    (analysis_source_side(profile), opposite_side(analysis_source_side(profile)))
}

pub fn mapped_peers(profile: &SyncProfile) -> (peers: (&Peer, &Peer))
    ensures
        *peers.0 == side_peer(*profile, mapped_peer_sides(*profile).0),
        *peers.1 == side_peer(*profile, mapped_peer_sides(*profile).1),
{
    match profile.mode {
        SyncMode::OneWay => match profile.source {
            OneWaySource::PeerA => (&profile.peer_a, &profile.peer_b),
            OneWaySource::PeerB => (&profile.peer_b, &profile.peer_a),
        },
        SyncMode::Mirror => (&profile.peer_a, &profile.peer_b),
    }
}

/// The destination root of a One-Way run.
pub open spec fn one_way_destination_root(profile: SyncProfile) -> Seq<char> {
    match profile.source {
        OneWaySource::PeerA => peer_root(profile.peer_b),
        OneWaySource::PeerB => peer_root(profile.peer_a),
    }
}

pub fn destination_root(profile: &SyncProfile) -> (root: &str)
    ensures
        root@ == one_way_destination_root(*profile),
{
    match profile.source {
        OneWaySource::PeerA => profile.peer_b.root(),
        OneWaySource::PeerB => profile.peer_a.root(),
    }
}

/// Roots that may hold retained partial transfers: both peers for Mirror,
/// only the destination for One-Way.
pub open spec fn cleanup_roots(profile: SyncProfile) -> Seq<Seq<char>> {
    if profile.mode == SyncMode::Mirror {
        seq![peer_root(profile.peer_a), peer_root(profile.peer_b)]
    } else {
        seq![one_way_destination_root(profile)]
    }
}

pub fn partial_cleanup_roots(profile: &SyncProfile) -> (roots: Vec<&str>)
    ensures
        roots@.len() == cleanup_roots(*profile).len(),
        forall|i: int| 0 <= i < roots@.len() ==> (#[trigger] roots@[i])@ == cleanup_roots(*profile)[i],
{
    let mut roots: Vec<&str> = Vec::new();
    if profile.mode == SyncMode::Mirror {
        roots.push(profile.peer_a.root());
        roots.push(profile.peer_b.root());
    } else {
        roots.push(destination_root(profile));
    }
    roots
}

/// Volume identities measured for (source, destination), re-expressed as
/// (Peer A, Peer B).
pub open spec fn oriented_volumes(
    profile: SyncProfile,
    source_volume: Option<u64>,
    destination_volume: Option<u64>,
) -> (Option<u64>, Option<u64>) {
    if profile.mode == SyncMode::Mirror {
        (source_volume, destination_volume)
    } else {
        match profile.source {
            OneWaySource::PeerA => (source_volume, destination_volume),
            OneWaySource::PeerB => (destination_volume, source_volume),
        }
    }
}

pub fn orient_volume_identities(
    profile: &SyncProfile,
    source_volume: Option<u64>,
    destination_volume: Option<u64>,
) -> (oriented: (Option<u64>, Option<u64>))
    ensures
        oriented == oriented_volumes(*profile, source_volume, destination_volume),
{
    if profile.mode == SyncMode::Mirror {
        return (source_volume, destination_volume);
    }
    match profile.source {
        OneWaySource::PeerA => (source_volume, destination_volume),
        OneWaySource::PeerB => (destination_volume, source_volume),
    }
}

/// Orienting volumes to peers and reading them back by the run's source
/// side gives the measured identities back: the source volume is recorded
/// on the source peer and the destination volume on the other peer.
pub proof fn oriented_volumes_follow_the_source_side(
    profile: SyncProfile,
    source_volume: Option<u64>,
    destination_volume: Option<u64>,
)
    ensures
        ({
            let (a, b) = oriented_volumes(profile, source_volume, destination_volume);
            let by_side = |side: PeerSide| if side == PeerSide::PeerA { a } else { b };
            by_side(analysis_source_side(profile)) == source_volume
                && by_side(opposite_side(analysis_source_side(profile))) == destination_volume
        }),
{
}

/// An exact copy of a list of strings.
pub fn copy_strings(values: &Vec<String>) -> (copy: Vec<String>)
    ensures
        copy@ == values@,
{
    let mut copy: Vec<String> = Vec::new();
    let mut index: usize = 0;
    while index < values.len()
        invariant
            index <= values@.len(),
            copy@ == values@.subrange(0, index as int),
        decreases values@.len() - index,
    {
        copy.push(values[index].clone());
        index += 1;
        assert(copy@ =~= values@.subrange(0, index as int));
    }
    assert(values@.subrange(0, index as int) =~= values@);
    copy
}

pub fn copy_optional_string(value: &Option<String>) -> (copy: Option<String>)
    ensures
        copy == *value,
{
    match value {
        Some(text) => Some(text.clone()),
        None => None,
    }
}

impl SshAuthentication {
    pub fn duplicate(&self) -> (copy: SshAuthentication)
        ensures
            copy == *self,
    {
        match self {
            SshAuthentication::Key => SshAuthentication::Key,
            SshAuthentication::Agent => SshAuthentication::Agent,
            SshAuthentication::InteractivePassword => SshAuthentication::InteractivePassword,
            SshAuthentication::SavedPassword(reference) => SshAuthentication::SavedPassword(reference.clone()),
        }
    }
}

impl SshPeer {
    pub fn duplicate(&self) -> (copy: SshPeer)
        ensures
            copy == *self,
    {
        SshPeer {
            server: self.server.clone(),
            username: self.username.clone(),
            port: self.port,
            identity: copy_optional_string(&self.identity),
            authentication: self.authentication.duplicate(),
            remote_path: self.remote_path.clone(),
        }
    }
}

impl Peer {
    pub fn duplicate(&self) -> (copy: Peer)
        ensures
            copy == *self,
    {
        let endpoint = match &self.endpoint {
            PeerEndpoint::Local { root } => PeerEndpoint::Local { root: root.clone() },
            PeerEndpoint::Ssh(ssh) => PeerEndpoint::Ssh(ssh.duplicate()),
        };
        Peer { name: self.name.clone(), endpoint }
    }
}

/// Two profiles hold the same values.
pub open spec fn same_profile(a: SyncProfile, b: SyncProfile) -> bool {
    &&& a.name == b.name
    &&& a.peer_a == b.peer_a
    &&& a.peer_b == b.peer_b
    &&& a.mode == b.mode
    &&& a.source == b.source
    &&& a.options == b.options
    &&& a.exclusions@ == b.exclusions@
}

impl SyncProfile {
    pub fn duplicate(&self) -> (copy: SyncProfile)
        ensures
            same_profile(copy, *self),
    {
        SyncProfile {
            name: self.name.clone(),
            peer_a: self.peer_a.duplicate(),
            peer_b: self.peer_b.duplicate(),
            mode: self.mode,
            source: self.source,
            options: self.options,
            exclusions: copy_strings(&self.exclusions),
        }
    }
}

} // verus!
