//! The in-application Help catalog and the rules that pick a Help topic
//! for a surface, a Run Report status, or an error message.
use vstd::prelude::*;

use crate::status::RunReportStatus;
use crate::text::{contains_ci, contains_ignoring_ascii_case};

verus! {

#[derive(Debug, Clone, Copy, PartialEq, Eq, Structural)]
pub enum HelpTopic {
    GettingStarted,
    Modes,
    OneWaySync,
    SafeDelete,
    MirrorSync,
    ConflictReview,
    Exclusions,
    SshAuthentication,
    Recovery,
    RunReports,
    DestructiveActions,
    PlanAndConfirmation,
    ProgressAndCancellation,
    Diagnostics,
    PrecheckBlockers,
    ExecutionFailures,
    CloneProfile,
}

/// One Help article: what a feature is, why it exists, how and when to use
/// it, its consequences and limitations, and the next safe action.
#[derive(Debug, Clone, Copy, PartialEq, Eq)]
pub struct HelpEntry {
    pub topic: HelpTopic,
    pub title: &'static str,
    pub what: &'static str,
    pub why: &'static str,
    pub how: &'static str,
    pub when: &'static str,
    pub consequences: &'static str,
    pub limitations: &'static str,
    pub next_action: &'static str,
}

pub open spec fn help_title(topic: HelpTopic) -> Seq<char> {
    match topic {
        HelpTopic::GettingStarted => "Getting started"@,
        HelpTopic::Modes => "Simple and Advanced Mode"@,
        HelpTopic::OneWaySync => "One-Way Sync"@,
        HelpTopic::SafeDelete => "One-Way Safe-Delete Sync"@,
        HelpTopic::MirrorSync => "Mirror Sync"@,
        HelpTopic::ConflictReview => "Conflict Review"@,
        HelpTopic::Exclusions => "Exclusions"@,
        HelpTopic::SshAuthentication => "SSH authentication"@,
        HelpTopic::Recovery => "Recovery Review"@,
        HelpTopic::RunReports => "Run Reports"@,
        HelpTopic::DestructiveActions => "Destructive actions"@,
        HelpTopic::PlanAndConfirmation => "Plan and confirmation"@,
        HelpTopic::ProgressAndCancellation => "Progress and cancellation"@,
        HelpTopic::Diagnostics => "Technical diagnostics"@,
        HelpTopic::PrecheckBlockers => "Precheck blockers and review states"@,
        HelpTopic::ExecutionFailures => "Execution failures and verification review"@,
        HelpTopic::CloneProfile => "Clone Profile safeguards"@,
    }
}

pub open spec fn help_what(topic: HelpTopic) -> Seq<char> {
    match topic {
        HelpTopic::GettingStarted => "SyncPlus moves files through a named Sync Profile with a visible source, destination, reviewable plan, and explicit confirmation step."@,
        HelpTopic::Modes => "Simple Mode provides the calm default workflow. Advanced Mode reveals named safety, recovery, metadata, retry, and unattended controls."@,
        HelpTopic::OneWaySync => "One-Way Sync copies the selected source into the selected destination; the source is authoritative for differing paths."@,
        HelpTopic::SafeDelete => "Safe Delete removes an approved source item only after independent SHA-256 and size checks, source-stability checks, destination verification, and a durable journal boundary."@,
        HelpTopic::MirrorSync => "Mirror Sync compares two peers and proposes an approved result without assuming either peer is authoritative."@,
        HelpTopic::ConflictReview => "Conflict Review is a read-only, whole-file comparison showing safe metadata, classifications, and available hashes for competing peers."@,
        HelpTopic::Exclusions => "Exclusion rules keep matching items outside the Approved Sync Scope."@,
        HelpTopic::SshAuthentication => "SSH peers use structured server, account, port, path, and selected key, agent, interactive password, or Saved Secret authentication fields."@,
        HelpTopic::Recovery => "Recovery Review preserves source or destination state after interruption, failed verification, disconnect, crash, or an ambiguous filesystem boundary."@,
        HelpTopic::RunReports => "A Run Report retains the Profile Snapshot, plan, action outcomes, warnings, reconciliation, verification, and recovery evidence for one Sync Run."@,
        HelpTopic::DestructiveActions => "Safe Delete, Destination Cleanup, and Permanent Removal are named, separately reviewed actions that can remove user data."@,
        HelpTopic::PlanAndConfirmation => "Fresh Analysis and Execution Confirmation show the exact typed mapping, approved scope, actions, warnings, and consequences before mutation."@,
        HelpTopic::ProgressAndCancellation => "Progress shows the current Explainable Action, phase, bytes, warnings, and cancellation state for an active Sync Run."@,
        HelpTopic::Diagnostics => "Diagnostics identify the Sync Profile, peer, account when remote, exact scope, safety requirement, reason, and next safe action."@,
        HelpTopic::PrecheckBlockers => "A blocker or review state explains why a Sync Run cannot safely continue or be treated as complete."@,
        HelpTopic::ExecutionFailures => "An execution failure records the action boundary, reason, and preserved state when a transfer, replacement, verification, process, or recovery step does not settle safely."@,
        HelpTopic::CloneProfile => "Clone Profile creates an editable configuration copy while clearing saved credentials and requiring an endpoint change."@,
    }
}

pub open spec fn help_why(topic: HelpTopic) -> Seq<char> {
    match topic {
        HelpTopic::GettingStarted => "The first run should teach you what will happen before it changes anything. Saving a profile never starts a Sync Run."@,
        HelpTopic::Modes => "The default should make safe, non-destructive choices easy while keeping higher-risk decisions deliberate."@,
        HelpTopic::OneWaySync => "A single authority makes ordinary backup-style synchronization understandable and avoids inventing a winner for two changed peers."@,
        HelpTopic::SafeDelete => "A successful transfer alone cannot prove that the exact source item was safely installed and recoverable."@,
        HelpTopic::MirrorSync => "Two peers can both contain unique or changed data, so absence is not deletion evidence and no implicit winner is safe."@,
        HelpTopic::ConflictReview => "Review keeps both versions protected until you make an explicit decision."@,
        HelpTopic::Exclusions => "An excluded item must not be synchronized or deleted accidentally."@,
        HelpTopic::SshAuthentication => "Typed authentication keeps remote commands controlled and prevents hidden prompts or credential fallback."@,
        HelpTopic::Recovery => "SQLite records evidence but cannot make a database commit and filesystem mutation one atomic transaction."@,
        HelpTopic::RunReports => "History must remain inspectable so a completed or unresolved result can be understood after restart."@,
        HelpTopic::DestructiveActions => "Deletion needs stronger intent and proof than copying, and Permanent Removal is irreversible."@,
        HelpTopic::PlanAndConfirmation => "A user should know what will change and why immediately before SyncPlus changes data."@,
        HelpTopic::ProgressAndCancellation => "A stopped or partial action must not look like a completed transfer."@,
        HelpTopic::Diagnostics => "A useful failure explanation should tell you what to inspect or fix without exposing sensitive material."@,
        HelpTopic::PrecheckBlockers => "Prechecks protect user data by stopping before mutation when a required peer, permission, identity, capability, scope, or recovery condition is not proven."@,
        HelpTopic::ExecutionFailures => "A failed action must remain distinguishable from a completed action so SyncPlus never claims that an unverified destination or removal is safe."@,
        HelpTopic::CloneProfile => "A clone must not accidentally share secrets, identity, or unattended deletion authority with its source profile."@,
    }
}

pub open spec fn help_how(topic: HelpTopic) -> Seq<char> {
    match topic {
        HelpTopic::GettingStarted => "Create a profile, choose the sync type, select the source and destination folders, review the saved profile, then open the Sync workspace for Fresh Analysis and confirmation."@,
        HelpTopic::Modes => "Choose the mode in the top bar. Both modes use the same validated core workflow and never accept arbitrary rsync or shell arguments."@,
        HelpTopic::OneWaySync => "Select named source and destination endpoints, review the Fresh Analysis, then confirm the exact mapping and actions."@,
        HelpTopic::SafeDelete => "Choose a recoverable Trash method where possible, inspect each planned removal, and confirm only after the fresh precheck and analysis pass."@,
        HelpTopic::MirrorSync => "Run Fresh Analysis for both peers, inspect Conflict Review and baseline evidence, choose whole-file decisions, and confirm the reviewed scope."@,
        HelpTopic::ConflictReview => "Choose Keep Peer A, Keep Peer B, Preserve Both, Rename/Preserve for Review, or Defer for each entry, then start a fresh Resolution Run."@,
        HelpTopic::Exclusions => "Enter one validated pattern per line and inspect the excluded inventory in Fresh Analysis."@,
        HelpTopic::SshAuthentication => "Choose the approved authentication method, review host identity and remote capability prechecks, and keep saved passwords in the desktop keyring."@,
        HelpTopic::Recovery => "Open the Run Report, perform Fresh Analysis where the workflow provides it, and inspect Recovery Review and provenance before taking any explicit metadata action."@,
        HelpTopic::RunReports => "Select a report to inspect its status and explainable actions. Remove completed metadata or discard unresolved metadata only through the separate explicit actions."@,
        HelpTopic::DestructiveActions => "Enable destructive options only in Advanced Mode, select the recovery method, review the exact scope, and provide the required authorization and confirmation."@,
        HelpTopic::PlanAndConfirmation => "Analyze, inspect the plan and precheck, resolve conflicts or blockers, then confirm the same fresh reviewed scope."@,
        HelpTopic::ProgressAndCancellation => "Watch the active report, cancel to stop launching new actions, and inspect the durable journal before resuming."@,
        HelpTopic::Diagnostics => "Read the structured blocker or warning and follow its remediation; inspect the linked Help topic for the underlying safety rule."@,
        HelpTopic::PrecheckBlockers => "Read the named peer, account when remote, exact scope, requirement, reason, and next action; fix the requirement and run Fresh Analysis again."@,
        HelpTopic::ExecutionFailures => "Inspect the Run Report, the affected peer and scope, the durable phase, and any reconciliation or recovery evidence before deciding what to do next."@,
        HelpTopic::CloneProfile => "Review both endpoint forms, configure authentication intentionally, choose whether eligible unattended authorization is copied, and confirm that choice."@,
    }
}

pub open spec fn help_when(topic: HelpTopic) -> Seq<char> {
    match topic {
        HelpTopic::GettingStarted => "Start here when SyncPlus is new to you or when you want a quick reminder of the safe workflow."@,
        HelpTopic::Modes => "Use Simple Mode for ordinary One-Way Sync. Use Advanced Mode when you understand and need Safe Delete, Mirror review, metadata, or unattended authorization."@,
        HelpTopic::OneWaySync => "Use it when one peer is the intended source of truth and the destination should follow it."@,
        HelpTopic::SafeDelete => "Use it only when the source should be drained and you have reviewed the recovery method and expected consequences."@,
        HelpTopic::MirrorSync => "Use it when both peers matter and you want explicit reconciliation rather than source-to-destination copying."@,
        HelpTopic::ConflictReview => "Use it whenever Mirror Sync finds same-path differences, naming conflicts, or possible duplicate/rename candidates."@,
        HelpTopic::Exclusions => "Use exclusions for caches, generated data, or other content that must remain outside this Sync Run."@,
        HelpTopic::SshAuthentication => "Use SSH for one local-to-SSH or SSH-to-local peer in V1; unattended runs require a noninteractive credential."@,
        HelpTopic::Recovery => "Use it whenever a run is Interrupted, Recovery Review, pending review, or a recovery item needs restoration."@,
        HelpTopic::RunReports => "Review reports after every manual or unattended run, especially when the status is failed, cancelled, interrupted, blocked, or pending review."@,
        HelpTopic::DestructiveActions => "Use destructive actions only after checking the source authority, recovery capacity, path warnings, and Run Report consequences."@,
        HelpTopic::PlanAndConfirmation => "Run it before every file-changing action and again after profile, endpoint, filesystem, or review evidence changes."@,
        HelpTopic::ProgressAndCancellation => "Use it during a long run or whenever a disconnect, drive removal, process stop, or cancellation occurs."@,
        HelpTopic::Diagnostics => "Use diagnostics for precheck blockers, identity or credential failures, permissions, capability failures, naming conflicts, and review states."@,
        HelpTopic::PrecheckBlockers => "Use this guidance for unavailable peers, unreadable sources, unwritable destinations, permission failures, identity changes, naming conflicts, stale reviews, and unresolved items."@,
        HelpTopic::ExecutionFailures => "Use this guidance for failed transfers, verification mismatches, disconnects, unavailable peers, process errors, and actions that remain unresolved after cancellation."@,
        HelpTopic::CloneProfile => "Use cloning when a new profile is related to an existing one but should be independently reviewed and persisted."@,
    }
}

pub open spec fn help_consequences(topic: HelpTopic) -> Seq<char> {
    match topic {
        HelpTopic::GettingStarted => "A new profile defaults to Simple Mode and non-destructive One-Way Sync. Nothing changes until the exact reviewed plan is explicitly confirmed."@,
        HelpTopic::Modes => "Advanced controls can change more data or run without you present, so they add explicit authorization and review requirements."@,
        HelpTopic::OneWaySync => "The destination may receive copies or verified replacements. Safe Delete and Destination Cleanup are separate opt-in actions."@,
        HelpTopic::SafeDelete => "A verified source item is moved to recovery or removed at the proof boundary. Any uncertainty preserves the source and requires review."@,
        HelpTopic::MirrorSync => "Keep, preserve, rename, or defer decisions remain visible in the Run Report; deferred or unresolved work keeps the run open."@,
        HelpTopic::ConflictReview => "Keep decisions create reviewed whole-file actions. Preserve Both, rename, and defer choices retain data and keep review open."@,
        HelpTopic::Exclusions => "Excluded items remain where they are and are listed as outside scope; they do not count as successfully synchronized."@,
        HelpTopic::SshAuthentication => "Missing credentials, changed fingerprints, unavailable remote hashing, permissions, or recovery block the affected run and preserve source data."@,
        HelpTopic::Recovery => "Uncertainty keeps the run open and preserves user files; no uncertain deletion or replacement is treated as complete."@,
        HelpTopic::RunReports => "Removing metadata does not touch source or destination files. Discarding unresolved metadata loses the report's recovery evidence."@,
        HelpTopic::DestructiveActions => "Trash is recoverable only when verified. Permanent Removal cannot be undone and requires separate explicit authorization for unattended use."@,
        HelpTopic::PlanAndConfirmation => "A stale analysis, required review, failed verification, or precheck blocker disables confirmation and preserves data."@,
        HelpTopic::ProgressAndCancellation => "Cancellation preserves the source and records a Cancelled Action; an unsettled boundary may require Recovery Review."@,
        HelpTopic::Diagnostics => "A diagnostic is evidence of why execution is blocked or review-required; it is never permission to bypass the blocker."@,
        HelpTopic::PrecheckBlockers => "Confirmation remains unavailable and affected source data stays preserved until the blocker or review item is resolved."@,
        HelpTopic::ExecutionFailures => "The affected source is preserved whenever proof is incomplete, and the run remains open for review rather than being silently retried or cleared."@,
        HelpTopic::CloneProfile => "Permanent Removal authorization is never copied. Changing the clone affects future runs only; active runs keep their Profile Snapshot."@,
    }
}

pub open spec fn help_limitations(topic: HelpTopic) -> Seq<char> {
    match topic {
        HelpTopic::GettingStarted => "SyncPlus does not accept arbitrary shell or rsync commands, silently resolve conflicts, or treat transfer counts as proof of completion."@,
        HelpTopic::Modes => "Advanced Mode does not bypass prechecks, Fresh Analysis, verification, host-identity review, confirmation, or Recovery Review."@,
        HelpTopic::OneWaySync => "A stale plan, changed source, failed verification, excluded item, or unresolved item keeps the affected work from being treated as complete."@,
        HelpTopic::SafeDelete => "There is no silent fallback from Trash to Permanent Removal. Excluded, changed, unavailable, or ambiguous items remain at the source."@,
        HelpTopic::MirrorSync => "SyncPlus does not merge file contents, infer deletion from first-run absence, or silently choose a winner."@,
        HelpTopic::ConflictReview => "File contents are not edited or automatically merged; equal hashes at different paths do not authorize a move or deletion."@,
        HelpTopic::Exclusions => "Excluded Item Cleanup is a separate reviewed action. Exclusions do not authorize any deletion."@,
        HelpTopic::SshAuthentication => "SSH-to-SSH and arbitrary remote commands are outside V1. Passwords, passphrases, private keys, and file contents are never report data."@,
        HelpTopic::Recovery => "Recovery evidence may prove only what was observed. SyncPlus never guesses completion or repeats uncertain deletion, and this surface does not provide an automatic recovery action."@,
        HelpTopic::RunReports => "Reports contain operational metadata and safe evidence, never passwords, private-key material, or file contents."@,
        HelpTopic::DestructiveActions => "No safety gate can be bypassed. Unavailable Trash never falls back silently, and uncertain or changed items remain preserved."@,
        HelpTopic::PlanAndConfirmation => "The technical preview is diagnostic evidence generated from typed options; it is not an editable command interface."@,
        HelpTopic::ProgressAndCancellation => "Progress counts are not proof of completion. Only verified journal evidence and Completion Reconciliation can settle a run."@,
        HelpTopic::Diagnostics => "Diagnostics omit passwords, passphrases, private keys, secret values, and file contents. Paths and safe metadata may still be shown."@,
        HelpTopic::PrecheckBlockers => "A blocker is not permission to bypass verification, host-identity review, confirmation, or Recovery Review. Progress or transfer counts do not override it."@,
        HelpTopic::ExecutionFailures => "Progress, rsync exit status, transfer counts, size, mtime, or a single hash do not prove Safe Delete or completion. Uncertain filesystem boundaries require Recovery Review."@,
        HelpTopic::CloneProfile => "Cloning does not bypass validation, Advanced Mode, authorization, precheck, Fresh Analysis, or Execution Confirmation."@,
    }
}

pub open spec fn help_next_action(topic: HelpTopic) -> Seq<char> {
    match topic {
        HelpTopic::GettingStarted => "Create your first Sync Profile, then follow the four-step wizard through sync method, source, destination, and review."@,
        HelpTopic::Modes => "Start in Simple Mode, create a Sync Profile, and open the related topic before enabling any destructive option."@,
        HelpTopic::OneWaySync => "Review the mapping and approved scope, then run Fresh Analysis immediately before confirmation."@,
        HelpTopic::SafeDelete => "Keep Safe Delete off unless the source authority, recovery method, and final Run Report are understood."@,
        HelpTopic::MirrorSync => "Open Conflict Review for every proposed conflict and defer the run if the evidence is not clear."@,
        HelpTopic::ConflictReview => "Review the peer evidence and choose one typed whole-file decision, or choose Defer when evidence is insufficient."@,
        HelpTopic::Exclusions => "Check the excluded inventory and make sure every excluded path is intentionally outside this run."@,
        HelpTopic::SshAuthentication => "Approve a new fingerprint only after independent review; reject changed identity and fix the reported precheck blocker."@,
        HelpTopic::Recovery => "Read the preserved-state evidence, keep unresolved metadata available for review, and use only the explicit metadata action currently shown when appropriate."@,
        HelpTopic::RunReports => "Resolve every review item before marking Review Cleared; retain unresolved reports until their evidence is no longer needed."@,
        HelpTopic::DestructiveActions => "Prefer recoverable Trash and leave destructive options disabled until the complete plan and proof boundary are understood."@,
        HelpTopic::PlanAndConfirmation => "Fix every blocker, inspect the consequences, and confirm only the exact scope that was freshly analyzed."@,
        HelpTopic::ProgressAndCancellation => "Read the latest durable phase and open Recovery Review instead of retrying an uncertain action blindly."@,
        HelpTopic::Diagnostics => "Correct the named requirement or open Recovery Review; do not paste diagnostic text into an arbitrary command."@,
        HelpTopic::PrecheckBlockers => "Follow the displayed remediation, re-run the fresh precheck and analysis, or leave the run open for Recovery Review when the state is uncertain."@,
        HelpTopic::ExecutionFailures => "Keep the affected item preserved, inspect its evidence and exact scope, then perform Fresh Analysis or the explicit review action supported by the report."@,
        HelpTopic::CloneProfile => "Change at least one endpoint, reconfigure the intended credential, and review the clone's authorization warning before saving."@,
    }
}

/// The field-by-field content of the article for `topic`.
pub open spec fn is_help_entry_for(entry: HelpEntry, topic: HelpTopic) -> bool {
    &&& entry.topic == topic
    &&& entry.title@ == help_title(topic)
    &&& entry.what@ == help_what(topic)
    &&& entry.why@ == help_why(topic)
    &&& entry.how@ == help_how(topic)
    &&& entry.when@ == help_when(topic)
    &&& entry.consequences@ == help_consequences(topic)
    &&& entry.limitations@ == help_limitations(topic)
    &&& entry.next_action@ == help_next_action(topic)
}

pub fn help_entry(topic: HelpTopic) -> (entry: HelpEntry)
    ensures
        is_help_entry_for(entry, topic),
{
    match topic {
        HelpTopic::GettingStarted => HelpEntry {
            topic,
            title: "Getting started",
            what: "SyncPlus moves files through a named Sync Profile with a visible source, destination, reviewable plan, and explicit confirmation step.",
            why: "The first run should teach you what will happen before it changes anything. Saving a profile never starts a Sync Run.",
            how: "Create a profile, choose the sync type, select the source and destination folders, review the saved profile, then open the Sync workspace for Fresh Analysis and confirmation.",
            when: "Start here when SyncPlus is new to you or when you want a quick reminder of the safe workflow.",
            consequences: "A new profile defaults to Simple Mode and non-destructive One-Way Sync. Nothing changes until the exact reviewed plan is explicitly confirmed.",
            limitations: "SyncPlus does not accept arbitrary shell or rsync commands, silently resolve conflicts, or treat transfer counts as proof of completion.",
            next_action: "Create your first Sync Profile, then follow the four-step wizard through sync method, source, destination, and review.",
        },
        HelpTopic::Modes => HelpEntry {
            topic,
            title: "Simple and Advanced Mode",
            what: "Simple Mode provides the calm default workflow. Advanced Mode reveals named safety, recovery, metadata, retry, and unattended controls.",
            why: "The default should make safe, non-destructive choices easy while keeping higher-risk decisions deliberate.",
            how: "Choose the mode in the top bar. Both modes use the same validated core workflow and never accept arbitrary rsync or shell arguments.",
            when: "Use Simple Mode for ordinary One-Way Sync. Use Advanced Mode when you understand and need Safe Delete, Mirror review, metadata, or unattended authorization.",
            consequences: "Advanced controls can change more data or run without you present, so they add explicit authorization and review requirements.",
            limitations: "Advanced Mode does not bypass prechecks, Fresh Analysis, verification, host-identity review, confirmation, or Recovery Review.",
            next_action: "Start in Simple Mode, create a Sync Profile, and open the related topic before enabling any destructive option.",
        },
        HelpTopic::OneWaySync => HelpEntry {
            topic,
            title: "One-Way Sync",
            what: "One-Way Sync copies the selected source into the selected destination; the source is authoritative for differing paths.",
            why: "A single authority makes ordinary backup-style synchronization understandable and avoids inventing a winner for two changed peers.",
            how: "Select named source and destination endpoints, review the Fresh Analysis, then confirm the exact mapping and actions.",
            when: "Use it when one peer is the intended source of truth and the destination should follow it.",
            consequences: "The destination may receive copies or verified replacements. Safe Delete and Destination Cleanup are separate opt-in actions.",
            limitations: "A stale plan, changed source, failed verification, excluded item, or unresolved item keeps the affected work from being treated as complete.",
            next_action: "Review the mapping and approved scope, then run Fresh Analysis immediately before confirmation.",
        },
        HelpTopic::SafeDelete => HelpEntry {
            topic,
            title: "One-Way Safe-Delete Sync",
            what: "Safe Delete removes an approved source item only after independent SHA-256 and size checks, source-stability checks, destination verification, and a durable journal boundary.",
            why: "A successful transfer alone cannot prove that the exact source item was safely installed and recoverable.",
            how: "Choose a recoverable Trash method where possible, inspect each planned removal, and confirm only after the fresh precheck and analysis pass.",
            when: "Use it only when the source should be drained and you have reviewed the recovery method and expected consequences.",
            consequences: "A verified source item is moved to recovery or removed at the proof boundary. Any uncertainty preserves the source and requires review.",
            limitations: "There is no silent fallback from Trash to Permanent Removal. Excluded, changed, unavailable, or ambiguous items remain at the source.",
            next_action: "Keep Safe Delete off unless the source authority, recovery method, and final Run Report are understood.",
        },
        HelpTopic::MirrorSync => HelpEntry {
            topic,
            title: "Mirror Sync",
            what: "Mirror Sync compares two peers and proposes an approved result without assuming either peer is authoritative.",
            why: "Two peers can both contain unique or changed data, so absence is not deletion evidence and no implicit winner is safe.",
            how: "Run Fresh Analysis for both peers, inspect Conflict Review and baseline evidence, choose whole-file decisions, and confirm the reviewed scope.",
            when: "Use it when both peers matter and you want explicit reconciliation rather than source-to-destination copying.",
            consequences: "Keep, preserve, rename, or defer decisions remain visible in the Run Report; deferred or unresolved work keeps the run open.",
            limitations: "SyncPlus does not merge file contents, infer deletion from first-run absence, or silently choose a winner.",
            next_action: "Open Conflict Review for every proposed conflict and defer the run if the evidence is not clear.",
        },
        HelpTopic::ConflictReview => HelpEntry {
            topic,
            title: "Conflict Review",
            what: "Conflict Review is a read-only, whole-file comparison showing safe metadata, classifications, and available hashes for competing peers.",
            why: "Review keeps both versions protected until you make an explicit decision.",
            how: "Choose Keep Peer A, Keep Peer B, Preserve Both, Rename/Preserve for Review, or Defer for each entry, then start a fresh Resolution Run.",
            when: "Use it whenever Mirror Sync finds same-path differences, naming conflicts, or possible duplicate/rename candidates.",
            consequences: "Keep decisions create reviewed whole-file actions. Preserve Both, rename, and defer choices retain data and keep review open.",
            limitations: "File contents are not edited or automatically merged; equal hashes at different paths do not authorize a move or deletion.",
            next_action: "Review the peer evidence and choose one typed whole-file decision, or choose Defer when evidence is insufficient.",
        },
        HelpTopic::Exclusions => HelpEntry {
            topic,
            title: "Exclusions",
            what: "Exclusion rules keep matching items outside the Approved Sync Scope.",
            why: "An excluded item must not be synchronized or deleted accidentally.",
            how: "Enter one validated pattern per line and inspect the excluded inventory in Fresh Analysis.",
            when: "Use exclusions for caches, generated data, or other content that must remain outside this Sync Run.",
            consequences: "Excluded items remain where they are and are listed as outside scope; they do not count as successfully synchronized.",
            limitations: "Excluded Item Cleanup is a separate reviewed action. Exclusions do not authorize any deletion.",
            next_action: "Check the excluded inventory and make sure every excluded path is intentionally outside this run.",
        },
        HelpTopic::SshAuthentication => HelpEntry {
            topic,
            title: "SSH authentication",
            what: "SSH peers use structured server, account, port, path, and selected key, agent, interactive password, or Saved Secret authentication fields.",
            why: "Typed authentication keeps remote commands controlled and prevents hidden prompts or credential fallback.",
            how: "Choose the approved authentication method, review host identity and remote capability prechecks, and keep saved passwords in the desktop keyring.",
            when: "Use SSH for one local-to-SSH or SSH-to-local peer in V1; unattended runs require a noninteractive credential.",
            consequences: "Missing credentials, changed fingerprints, unavailable remote hashing, permissions, or recovery block the affected run and preserve source data.",
            limitations: "SSH-to-SSH and arbitrary remote commands are outside V1. Passwords, passphrases, private keys, and file contents are never report data.",
            next_action: "Approve a new fingerprint only after independent review; reject changed identity and fix the reported precheck blocker.",
        },
        HelpTopic::Recovery => HelpEntry {
            topic,
            title: "Recovery Review",
            what: "Recovery Review preserves source or destination state after interruption, failed verification, disconnect, crash, or an ambiguous filesystem boundary.",
            why: "SQLite records evidence but cannot make a database commit and filesystem mutation one atomic transaction.",
            how: "Open the Run Report, perform Fresh Analysis where the workflow provides it, and inspect Recovery Review and provenance before taking any explicit metadata action.",
            when: "Use it whenever a run is Interrupted, Recovery Review, pending review, or a recovery item needs restoration.",
            consequences: "Uncertainty keeps the run open and preserves user files; no uncertain deletion or replacement is treated as complete.",
            limitations: "Recovery evidence may prove only what was observed. SyncPlus never guesses completion or repeats uncertain deletion, and this surface does not provide an automatic recovery action.",
            next_action: "Read the preserved-state evidence, keep unresolved metadata available for review, and use only the explicit metadata action currently shown when appropriate.",
        },
        HelpTopic::RunReports => HelpEntry {
            topic,
            title: "Run Reports",
            what: "A Run Report retains the Profile Snapshot, plan, action outcomes, warnings, reconciliation, verification, and recovery evidence for one Sync Run.",
            why: "History must remain inspectable so a completed or unresolved result can be understood after restart.",
            how: "Select a report to inspect its status and explainable actions. Remove completed metadata or discard unresolved metadata only through the separate explicit actions.",
            when: "Review reports after every manual or unattended run, especially when the status is failed, cancelled, interrupted, blocked, or pending review.",
            consequences: "Removing metadata does not touch source or destination files. Discarding unresolved metadata loses the report's recovery evidence.",
            limitations: "Reports contain operational metadata and safe evidence, never passwords, private-key material, or file contents.",
            next_action: "Resolve every review item before marking Review Cleared; retain unresolved reports until their evidence is no longer needed.",
        },
        HelpTopic::DestructiveActions => HelpEntry {
            topic,
            title: "Destructive actions",
            what: "Safe Delete, Destination Cleanup, and Permanent Removal are named, separately reviewed actions that can remove user data.",
            why: "Deletion needs stronger intent and proof than copying, and Permanent Removal is irreversible.",
            how: "Enable destructive options only in Advanced Mode, select the recovery method, review the exact scope, and provide the required authorization and confirmation.",
            when: "Use destructive actions only after checking the source authority, recovery capacity, path warnings, and Run Report consequences.",
            consequences: "Trash is recoverable only when verified. Permanent Removal cannot be undone and requires separate explicit authorization for unattended use.",
            limitations: "No safety gate can be bypassed. Unavailable Trash never falls back silently, and uncertain or changed items remain preserved.",
            next_action: "Prefer recoverable Trash and leave destructive options disabled until the complete plan and proof boundary are understood.",
        },
        HelpTopic::PlanAndConfirmation => HelpEntry {
            topic,
            title: "Plan and confirmation",
            what: "Fresh Analysis and Execution Confirmation show the exact typed mapping, approved scope, actions, warnings, and consequences before mutation.",
            why: "A user should know what will change and why immediately before SyncPlus changes data.",
            how: "Analyze, inspect the plan and precheck, resolve conflicts or blockers, then confirm the same fresh reviewed scope.",
            when: "Run it before every file-changing action and again after profile, endpoint, filesystem, or review evidence changes.",
            consequences: "A stale analysis, required review, failed verification, or precheck blocker disables confirmation and preserves data.",
            limitations: "The technical preview is diagnostic evidence generated from typed options; it is not an editable command interface.",
            next_action: "Fix every blocker, inspect the consequences, and confirm only the exact scope that was freshly analyzed.",
        },
        HelpTopic::ProgressAndCancellation => HelpEntry {
            topic,
            title: "Progress and cancellation",
            what: "Progress shows the current Explainable Action, phase, bytes, warnings, and cancellation state for an active Sync Run.",
            why: "A stopped or partial action must not look like a completed transfer.",
            how: "Watch the active report, cancel to stop launching new actions, and inspect the durable journal before resuming.",
            when: "Use it during a long run or whenever a disconnect, drive removal, process stop, or cancellation occurs.",
            consequences: "Cancellation preserves the source and records a Cancelled Action; an unsettled boundary may require Recovery Review.",
            limitations: "Progress counts are not proof of completion. Only verified journal evidence and Completion Reconciliation can settle a run.",
            next_action: "Read the latest durable phase and open Recovery Review instead of retrying an uncertain action blindly.",
        },
        HelpTopic::Diagnostics => HelpEntry {
            topic,
            title: "Technical diagnostics",
            what: "Diagnostics identify the Sync Profile, peer, account when remote, exact scope, safety requirement, reason, and next safe action.",
            why: "A useful failure explanation should tell you what to inspect or fix without exposing sensitive material.",
            how: "Read the structured blocker or warning and follow its remediation; inspect the linked Help topic for the underlying safety rule.",
            when: "Use diagnostics for precheck blockers, identity or credential failures, permissions, capability failures, naming conflicts, and review states.",
            consequences: "A diagnostic is evidence of why execution is blocked or review-required; it is never permission to bypass the blocker.",
            limitations: "Diagnostics omit passwords, passphrases, private keys, secret values, and file contents. Paths and safe metadata may still be shown.",
            next_action: "Correct the named requirement or open Recovery Review; do not paste diagnostic text into an arbitrary command.",
        },
        HelpTopic::PrecheckBlockers => HelpEntry {
            topic,
            title: "Precheck blockers and review states",
            what: "A blocker or review state explains why a Sync Run cannot safely continue or be treated as complete.",
            why: "Prechecks protect user data by stopping before mutation when a required peer, permission, identity, capability, scope, or recovery condition is not proven.",
            how: "Read the named peer, account when remote, exact scope, requirement, reason, and next action; fix the requirement and run Fresh Analysis again.",
            when: "Use this guidance for unavailable peers, unreadable sources, unwritable destinations, permission failures, identity changes, naming conflicts, stale reviews, and unresolved items.",
            consequences: "Confirmation remains unavailable and affected source data stays preserved until the blocker or review item is resolved.",
            limitations: "A blocker is not permission to bypass verification, host-identity review, confirmation, or Recovery Review. Progress or transfer counts do not override it.",
            next_action: "Follow the displayed remediation, re-run the fresh precheck and analysis, or leave the run open for Recovery Review when the state is uncertain.",
        },
        HelpTopic::ExecutionFailures => HelpEntry {
            topic,
            title: "Execution failures and verification review",
            what: "An execution failure records the action boundary, reason, and preserved state when a transfer, replacement, verification, process, or recovery step does not settle safely.",
            why: "A failed action must remain distinguishable from a completed action so SyncPlus never claims that an unverified destination or removal is safe.",
            how: "Inspect the Run Report, the affected peer and scope, the durable phase, and any reconciliation or recovery evidence before deciding what to do next.",
            when: "Use this guidance for failed transfers, verification mismatches, disconnects, unavailable peers, process errors, and actions that remain unresolved after cancellation.",
            consequences: "The affected source is preserved whenever proof is incomplete, and the run remains open for review rather than being silently retried or cleared.",
            limitations: "Progress, rsync exit status, transfer counts, size, mtime, or a single hash do not prove Safe Delete or completion. Uncertain filesystem boundaries require Recovery Review.",
            next_action: "Keep the affected item preserved, inspect its evidence and exact scope, then perform Fresh Analysis or the explicit review action supported by the report.",
        },
        HelpTopic::CloneProfile => HelpEntry {
            topic,
            title: "Clone Profile safeguards",
            what: "Clone Profile creates an editable configuration copy while clearing saved credentials and requiring an endpoint change.",
            why: "A clone must not accidentally share secrets, identity, or unattended deletion authority with its source profile.",
            how: "Review both endpoint forms, configure authentication intentionally, choose whether eligible unattended authorization is copied, and confirm that choice.",
            when: "Use cloning when a new profile is related to an existing one but should be independently reviewed and persisted.",
            consequences: "Permanent Removal authorization is never copied. Changing the clone affects future runs only; active runs keep their Profile Snapshot.",
            limitations: "Cloning does not bypass validation, Advanced Mode, authorization, precheck, Fresh Analysis, or Execution Confirmation.",
            next_action: "Change at least one endpoint, reconfigure the intended credential, and review the clone's authorization warning before saving.",
        },
    }
}

impl HelpTopic {
    pub fn label(self) -> (label: &'static str)
        ensures
            label@ == help_title(self),
    {
        help_entry(self).title
    }
}

/// The catalog order of the Help topics.
pub open spec fn catalog_topic(index: int) -> HelpTopic {
    if index == 0 {
        HelpTopic::GettingStarted
    } else if index == 1 {
        HelpTopic::Modes
    } else if index == 2 {
        HelpTopic::OneWaySync
    } else if index == 3 {
        HelpTopic::SafeDelete
    } else if index == 4 {
        HelpTopic::MirrorSync
    } else if index == 5 {
        HelpTopic::ConflictReview
    } else if index == 6 {
        HelpTopic::Exclusions
    } else if index == 7 {
        HelpTopic::SshAuthentication
    } else if index == 8 {
        HelpTopic::Recovery
    } else if index == 9 {
        HelpTopic::RunReports
    } else if index == 10 {
        HelpTopic::DestructiveActions
    } else if index == 11 {
        HelpTopic::PlanAndConfirmation
    } else if index == 12 {
        HelpTopic::ProgressAndCancellation
    } else if index == 13 {
        HelpTopic::Diagnostics
    } else if index == 14 {
        HelpTopic::PrecheckBlockers
    } else if index == 15 {
        HelpTopic::ExecutionFailures
    } else {
        HelpTopic::CloneProfile
    }
}

pub fn help_topics() -> (topics: Vec<HelpTopic>)
    ensures
        topics@.len() == 17,
        forall|i: int| 0 <= i < 17 ==> #[trigger] topics@[i] == catalog_topic(i),
{
    let mut topics: Vec<HelpTopic> = Vec::new();
    topics.push(HelpTopic::GettingStarted);
    topics.push(HelpTopic::Modes);
    topics.push(HelpTopic::OneWaySync);
    topics.push(HelpTopic::SafeDelete);
    topics.push(HelpTopic::MirrorSync);
    topics.push(HelpTopic::ConflictReview);
    topics.push(HelpTopic::Exclusions);
    topics.push(HelpTopic::SshAuthentication);
    topics.push(HelpTopic::Recovery);
    topics.push(HelpTopic::RunReports);
    topics.push(HelpTopic::DestructiveActions);
    topics.push(HelpTopic::PlanAndConfirmation);
    topics.push(HelpTopic::ProgressAndCancellation);
    topics.push(HelpTopic::Diagnostics);
    topics.push(HelpTopic::PrecheckBlockers);
    topics.push(HelpTopic::ExecutionFailures);
    topics.push(HelpTopic::CloneProfile);
    topics
}

/// The catalog lists every Help topic exactly once.
pub proof fn help_catalog_lists_every_topic_once(topic: HelpTopic)
    ensures
        exists|i: int| 0 <= i < 17 && catalog_topic(i) == topic,
        forall|i: int, j: int|
            0 <= i < 17 && 0 <= j < 17 && catalog_topic(i) == catalog_topic(j) ==> i == j,
{
    let witness: int = match topic {
        HelpTopic::GettingStarted => 0,
        HelpTopic::Modes => 1,
        HelpTopic::OneWaySync => 2,
        HelpTopic::SafeDelete => 3,
        HelpTopic::MirrorSync => 4,
        HelpTopic::ConflictReview => 5,
        HelpTopic::Exclusions => 6,
        HelpTopic::SshAuthentication => 7,
        HelpTopic::Recovery => 8,
        HelpTopic::RunReports => 9,
        HelpTopic::DestructiveActions => 10,
        HelpTopic::PlanAndConfirmation => 11,
        HelpTopic::ProgressAndCancellation => 12,
        HelpTopic::Diagnostics => 13,
        HelpTopic::PrecheckBlockers => 14,
        HelpTopic::ExecutionFailures => 15,
        HelpTopic::CloneProfile => 16,
    };
    assert(catalog_topic(witness) == topic);
}

/// The surfaces that link to contextual Help.
#[derive(Debug, Clone, Copy, PartialEq, Eq, Structural)]
pub enum HelpSurface {
    Profile,
    Plan,
    ConflictReview,
    Progress,
    Report,
    Recovery,
    Clone,
}

pub open spec fn surface_topic(surface: HelpSurface) -> HelpTopic {
    match surface {
        HelpSurface::Profile => HelpTopic::Modes,
        HelpSurface::Plan => HelpTopic::PlanAndConfirmation,
        HelpSurface::ConflictReview => HelpTopic::ConflictReview,
        HelpSurface::Progress => HelpTopic::ProgressAndCancellation,
        HelpSurface::Report => HelpTopic::RunReports,
        HelpSurface::Recovery => HelpTopic::Recovery,
        HelpSurface::Clone => HelpTopic::CloneProfile,
    }
}

pub fn help_topic_for_surface(surface: HelpSurface) -> (topic: HelpTopic)
    ensures
        topic == surface_topic(surface),
{
    match surface {
        HelpSurface::Profile => HelpTopic::Modes,
        HelpSurface::Plan => HelpTopic::PlanAndConfirmation,
        HelpSurface::ConflictReview => HelpTopic::ConflictReview,
        HelpSurface::Progress => HelpTopic::ProgressAndCancellation,
        HelpSurface::Report => HelpTopic::RunReports,
        HelpSurface::Recovery => HelpTopic::Recovery,
        HelpSurface::Clone => HelpTopic::CloneProfile,
    }
}

pub open spec fn status_topic(status: RunReportStatus) -> HelpTopic {
    match status {
        RunReportStatus::InProgress => HelpTopic::ProgressAndCancellation,
        RunReportStatus::Failed => HelpTopic::ExecutionFailures,
        RunReportStatus::Blocked => HelpTopic::PrecheckBlockers,
        RunReportStatus::Cancelled
        | RunReportStatus::Interrupted
        | RunReportStatus::RecoveryReview
        | RunReportStatus::CompletedWithReviewRequired => surface_topic(HelpSurface::Recovery),
        RunReportStatus::Completed | RunReportStatus::ReviewCleared => surface_topic(HelpSurface::Report),
    }
}

pub fn help_topic_for_report_status(status: RunReportStatus) -> (topic: HelpTopic)
    ensures
        topic == status_topic(status),
{
    match status {
        RunReportStatus::InProgress => HelpTopic::ProgressAndCancellation,
        RunReportStatus::Failed => HelpTopic::ExecutionFailures,
        RunReportStatus::Blocked => HelpTopic::PrecheckBlockers,
        RunReportStatus::Cancelled
        | RunReportStatus::Interrupted
        | RunReportStatus::RecoveryReview
        | RunReportStatus::CompletedWithReviewRequired => help_topic_for_surface(HelpSurface::Recovery),
        RunReportStatus::Completed | RunReportStatus::ReviewCleared => help_topic_for_surface(HelpSurface::Report),
    }
}

/// The Help topic for an error message, chosen by the first keyword family
/// it mentions (ASCII case ignored).
pub open spec fn error_topic(error: Seq<char>) -> HelpTopic {
    if contains_ci(error, "ssh"@) {
        HelpTopic::SshAuthentication
    } else if contains_ci(error, "resolution"@) || contains_ci(error, "conflict"@) {
        HelpTopic::ConflictReview
    } else if contains_ci(error, "stale"@) || contains_ci(error, "changed"@) || contains_ci(error, "analysis"@) {
        HelpTopic::PlanAndConfirmation
    } else if contains_ci(error, "precheck"@) || contains_ci(error, "blocker"@) {
        HelpTopic::PrecheckBlockers
    } else {
        HelpTopic::Diagnostics
    }
}

pub fn help_topic_for_error(error: &str) -> (topic: HelpTopic)
    ensures
        topic == error_topic(error@),
{
    if contains_ignoring_ascii_case(error, "ssh") {
        HelpTopic::SshAuthentication
    } else if contains_ignoring_ascii_case(error, "resolution") || contains_ignoring_ascii_case(error, "conflict") {
        HelpTopic::ConflictReview
    } else if contains_ignoring_ascii_case(error, "stale") || contains_ignoring_ascii_case(error, "changed")
        || contains_ignoring_ascii_case(error, "analysis") {
        HelpTopic::PlanAndConfirmation
    } else if contains_ignoring_ascii_case(error, "precheck") || contains_ignoring_ascii_case(error, "blocker") {
        HelpTopic::PrecheckBlockers
    } else {
        HelpTopic::Diagnostics
    }
}

pub open spec fn topic_next_action(topic: HelpTopic) -> Seq<char> {
    match topic {
        HelpTopic::ConflictReview => "Review every whole-file conflict decision and start a fresh Resolution Run."@,
        HelpTopic::PlanAndConfirmation => "Run Fresh Analysis again, inspect the exact scope, and confirm only after it is current."@,
        HelpTopic::SshAuthentication => "Review the selected SSH method, host identity, account, and remote capabilities before confirmation."@,
        HelpTopic::PrecheckBlockers => "Follow the displayed remediation and run the fresh precheck again; do not bypass the blocker."@,
        HelpTopic::ExecutionFailures | HelpTopic::Recovery => "Keep the affected state preserved and inspect the Run Report and Recovery Review evidence."@,
        _ => "Read the linked Help guidance and follow its safe next action."@,
    }
}

/// The short next-action line shown beside an error that links to `topic`.
pub fn next_action_for_help_topic(topic: HelpTopic) -> (next_action: &'static str)
    ensures
        next_action@ == topic_next_action(topic),
{
    match topic {
        HelpTopic::ConflictReview => "Review every whole-file conflict decision and start a fresh Resolution Run.",
        HelpTopic::PlanAndConfirmation => "Run Fresh Analysis again, inspect the exact scope, and confirm only after it is current.",
        HelpTopic::SshAuthentication => "Review the selected SSH method, host identity, account, and remote capabilities before confirmation.",
        HelpTopic::PrecheckBlockers => "Follow the displayed remediation and run the fresh precheck again; do not bypass the blocker.",
        HelpTopic::ExecutionFailures | HelpTopic::Recovery => "Keep the affected state preserved and inspect the Run Report and Recovery Review evidence.",
        _ => "Read the linked Help guidance and follow its safe next action.",
    }
}

} // verus!
