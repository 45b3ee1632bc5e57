//! One-line diagnostics that name the profile, peer, account, scope,
//! reason and next safe action of a refused or blocked request.
use vstd::prelude::*;

use crate::profile::{mapped_peer_sides, peer_is_ssh, peer_root, side_peer, mapped_peers, Peer, PeerEndpoint, SyncProfile};
use crate::model::SyncMode;
use crate::scope_lock::{ancestor_exec, is_ancestor};
use crate::text::{chars_of, same_text, decimal, decimal_text, one_line, single_line};
use crate::workflow::{join_lines, joined, string_views, PrecheckFailure};

verus! {

/// The peer a path belongs to: Peer B when the path is its root or lies
/// below it, otherwise Peer A.
pub open spec fn path_peer(profile: SyncProfile, path: Seq<char>) -> Peer {
    if path == peer_root(profile.peer_b) || is_ancestor(peer_root(profile.peer_b), path) {
        profile.peer_b
    } else {
        profile.peer_a
    }
}

pub fn peer_for_path<'a>(profile: &'a SyncProfile, path: &str) -> (peer: &'a Peer)
    ensures
        *peer == path_peer(*profile, path@),
{
    let root = chars_of(profile.peer_b.root());
    let target = chars_of(path);
    if same_text(profile.peer_b.root(), path) {
        return &profile.peer_b;
    }
    if ancestor_exec(&root, &target) {
        &profile.peer_b
    } else {
        &profile.peer_a
    }
}

/// The peer a diagnostic is about: the one holding `path`, otherwise the
/// SSH peer, otherwise the source of the mapping.
pub open spec fn diagnostic_peer(profile: SyncProfile, path: Option<Seq<char>>) -> Peer {
    match path {
        Some(path) => path_peer(profile, path),
        None => if peer_is_ssh(profile.peer_a) {
            profile.peer_a
        } else if peer_is_ssh(profile.peer_b) {
            profile.peer_b
        } else {
            side_peer(profile, mapped_peer_sides(profile).0)
        },
    }
}

/// How a diagnostic names a peer: local, or with its SSH account.
pub open spec fn peer_label(peer: Peer) -> Seq<char> {
    match peer.endpoint {
        PeerEndpoint::Local { .. } => one_line(peer.name@) + " (local)"@,
        PeerEndpoint::Ssh(ssh) => one_line(peer.name@) + " (account "@ + one_line(ssh.username@) + "@"@
            + one_line(ssh.server@) + ":"@ + decimal(ssh.port as nat) + ")"@,
    }
}

pub fn peer_diagnostic_label(peer: &Peer) -> (label: String)
    ensures
        label@ == peer_label(*peer),
{
    let mut label = single_line(peer.name.as_str());
    match &peer.endpoint {
        PeerEndpoint::Local { .. } => {
            label.append(" (local)");
        },
        PeerEndpoint::Ssh(ssh) => {
            label.append(" (account ");
            label.append(single_line(ssh.username.as_str()).as_str());
            label.append("@");
            label.append(single_line(ssh.server.as_str()).as_str());
            label.append(":");
            label.append(decimal_text(ssh.port as u64).as_str());
            label.append(")");
        },
    }
    label
}

/// The scope of a profile: source to destination for One-Way Sync, both
/// peers for Mirror Sync.
pub open spec fn scope_text(profile: SyncProfile) -> Seq<char> {
    if profile.mode == SyncMode::OneWay {
        peer_root(side_peer(profile, mapped_peer_sides(profile).0)) + " -> "@
            + peer_root(side_peer(profile, mapped_peer_sides(profile).1))
    } else {
        "Peer A "@ + peer_root(profile.peer_a) + " <-> Peer B "@ + peer_root(profile.peer_b)
    }
}

pub fn profile_scope(profile: &SyncProfile) -> (scope: String)
    ensures
        scope@ == scope_text(*profile),
{
    if profile.mode == SyncMode::OneWay {
        let (source, destination) = mapped_peers(profile);
        let mut scope = String::from_str(source.root());
        scope.append(" -> ");
        scope.append(destination.root());
        scope
    } else {
        let mut scope = String::from_str("Peer A ");
        scope.append(profile.peer_a.root());
        scope.append(" <-> Peer B ");
        scope.append(profile.peer_b.root());
        scope
    }
}

pub open spec fn account_text(peer: Peer) -> Seq<char> {
    match peer.endpoint {
        PeerEndpoint::Ssh(ssh) => one_line(ssh.username@),
        _ => "not applicable (local peer)"@,
    }
}

/// The one-line diagnostic of a profile-level problem.
pub open spec fn profile_diagnostic(
    profile: SyncProfile,
    path: Option<Seq<char>>,
    reason: Seq<char>,
    next_action: Seq<char>,
) -> Seq<char> {
    let peer = diagnostic_peer(profile, path);
    let scope = match path { Some(path) => path, None => scope_text(profile) };
    "Profile: "@ + one_line(profile.name@) + " | Peer: "@ + peer_label(peer) + " | Account: "@ + account_text(peer)
        + " | Scope: "@ + one_line(scope) + " | Reason: "@ + one_line(reason) + " | Next action: "@ + one_line(next_action)
}

pub fn format_profile_diagnostic(profile: &SyncProfile, path: Option<&str>, reason: &str, next_action: &str) -> (text: String)
    ensures
        text@ == profile_diagnostic(*profile, match path { Some(path) => Some(path@), None => None }, reason@, next_action@),
{
    let peer = match path {
        Some(path) => peer_for_path(profile, path),
        None => if profile.peer_a.is_ssh() {
            &profile.peer_a
        } else if profile.peer_b.is_ssh() {
            &profile.peer_b
        } else {
            mapped_peers(profile).0
        },
    };
    let account = match &peer.endpoint {
        PeerEndpoint::Ssh(ssh) => single_line(ssh.username.as_str()),
        _ => String::from_str("not applicable (local peer)"),
    };
    let scope = match path {
        Some(path) => String::from_str(path),
        None => profile_scope(profile),
    };
    let mut text = String::from_str("Profile: ");
    text.append(single_line(profile.name.as_str()).as_str());
    text.append(" | Peer: ");
    text.append(peer_diagnostic_label(peer).as_str());
    text.append(" | Account: ");
    text.append(account.as_str());
    text.append(" | Scope: ");
    text.append(single_line(scope.as_str()).as_str());
    text.append(" | Reason: ");
    text.append(single_line(reason).as_str());
    text.append(" | Next action: ");
    text.append(single_line(next_action).as_str());
    text
}

/// The diagnostic of a precheck that did not pass.
pub fn format_precheck_error(profile: &SyncProfile, error: &PrecheckFailure) -> (text: String)
    ensures
        match error {
            PrecheckFailure::InvalidSpecification(message) => text@ == profile_diagnostic(*profile, None,
                "invalid profile: "@ + message@, "Correct the typed profile fields and run Fresh Analysis again."@),
            PrecheckFailure::Probe(message) => text@ == profile_diagnostic(*profile, None,
                message@, "Correct the named precheck requirement and run Fresh Analysis again."@),
            PrecheckFailure::Blocked(blocked) => text@ == profile_diagnostic(*profile, None,
                joined(string_views(blocked.blockers@), "; "@),
                "Follow the displayed remediation and run the fresh precheck again; do not bypass the blocker."@),
            PrecheckFailure::ScopeLocked(message) => text@ == profile_diagnostic(*profile, None,
                message@, "Wait for the other Sync Run to finish, then run the fresh precheck again."@),
        },
{
    match error {
        PrecheckFailure::InvalidSpecification(message) => {
            let mut reason = String::from_str("invalid profile: ");
            reason.append(message.as_str());
            format_profile_diagnostic(profile, None, reason.as_str(), "Correct the typed profile fields and run Fresh Analysis again.")
        },
        PrecheckFailure::Probe(message) => format_profile_diagnostic(profile, None, message.as_str(),
            "Correct the named precheck requirement and run Fresh Analysis again."),
        PrecheckFailure::Blocked(blocked) => {
            let reason = join_lines(&blocked.blockers, "; ");
            format_profile_diagnostic(profile, None, reason.as_str(),
                "Follow the displayed remediation and run the fresh precheck again; do not bypass the blocker.")
        },
        PrecheckFailure::ScopeLocked(message) => format_profile_diagnostic(profile, None, message.as_str(),
            "Wait for the other Sync Run to finish, then run the fresh precheck again."),
    }
}

} // verus!
