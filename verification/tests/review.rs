use syncplus::conflict_review::{ConflictEntry, ConflictReviewState};
use syncplus::forms::UiValidationError;
use syncplus::model::{ConflictKind, ConflictResolution, OneWaySource, PartialTransferPolicy, SyncMode};
use syncplus::profile::{
    MetadataRequirements, Peer, PeerEndpoint, RetryPolicy, SyncOptions, SyncProfile,
};
use syncplus::resolution::ConflictResolutionAction;
use syncplus::review::{
    confirm_review, format_naming_conflict_diagnostic, format_precheck_diagnostic, format_warning_diagnostic,
    stronger_confirmation_satisfied, NamingConflict, PathRiskWarning, PrecheckBlocker, ReviewPrecheck,
};
use syncplus::text::format_hash;

fn local(name: &str, root: &str) -> Peer {
    Peer { name: name.to_owned(), endpoint: PeerEndpoint::Local { root: root.to_owned() } }
}

fn profile() -> SyncProfile {
    SyncProfile {
        name: "Documents backup".to_owned(),
        peer_a: local("Laptop", "/home/user/Documents"),
        peer_b: local("Backup disk", "/mnt/backup/Documents"),
        mode: SyncMode::OneWay,
        source: OneWaySource::PeerA,
        options: SyncOptions {
            metadata: MetadataRequirements {
                empty_directories: true,
                symlinks: true,
                executable_bits: true,
                timestamps: false,
                ownership: false,
                access_control_lists: false,
                extended_attributes: false,
            },
            safe_delete: true,
            destination_cleanup: false,
            deletion_method: None,
            partial_transfer_policy: PartialTransferPolicy::Cleanup,
            retry_policy: RetryPolicy { max_attempts: 3, initial_delay_millis: 1000 },
        },
        exclusions: Vec::new(),
    }
}

fn risky(source: &str, stronger: bool) -> PathRiskWarning {
    PathRiskWarning {
        source: source.to_owned(),
        explanation: "source is a home directory".to_owned(),
        requires_stronger_confirmation: stronger,
    }
}

fn clean_precheck() -> ReviewPrecheck {
    ReviewPrecheck { blockers: Vec::new(), warnings: vec![risky("/home/user", true), risky("/tmp", false)] }
}

#[test]
fn precheck_diagnostics_name_path_requirement_and_remediation() {
    let blocker = PrecheckBlocker {
        path: "/mnt/backup/Documents".to_owned(),
        reason: "destination is unavailable".to_owned(),
        requirement: "mounted volume".to_owned(),
        remediation: "Mount the backup disk and run Fresh Analysis again.".to_owned(),
    };
    assert_eq!(
        format_precheck_diagnostic(&profile(), &blocker),
        "Profile: Documents backup | Peer: Backup disk (local) | Account: not applicable (local peer) | Scope: /mnt/backup/Documents | Reason: destination is unavailable (requirement: mounted volume) | Next action: Mount the backup disk and run Fresh Analysis again."
    );
    let warning = format_warning_diagnostic(&profile(), &risky("/home/user/Documents", true));
    assert!(warning.contains("Reason: source is a home directory"));
    assert!(warning.ends_with("Next action: Type the exact displayed source path as stronger confirmation, or disable Safe Delete."));
    let conflict = NamingConflict { destination_path: "/mnt/backup/Documents/a:b".to_owned(), rule: "WindowsReservedCharacter".to_owned() };
    let text = format_naming_conflict_diagnostic(&profile(), &conflict);
    assert!(text.contains("Reason: destination naming rule WindowsReservedCharacter prevents a safe mapping"));
}

#[test]
fn high_risk_warnings_need_the_exact_typed_path() {
    let warnings = clean_precheck().warnings;
    assert!(stronger_confirmation_satisfied("  /home/user ", &warnings));
    assert!(!stronger_confirmation_satisfied("/home/user/", &warnings));
    assert!(!stronger_confirmation_satisfied("", &warnings));
    assert!(stronger_confirmation_satisfied("", &vec![risky("/tmp", false)]));
}

#[test]
fn execution_confirmation_is_refused_at_the_first_failed_check() {
    let ok_analysis = Some(Ok(()));
    assert_eq!(
        confirm_review(false, Ok(profile()), Ok(clean_precheck()), false, "/home/user", ok_analysis.clone()),
        Err(UiValidationError::ReviewNotReady)
    );
    assert_eq!(
        confirm_review(true, Err(UiValidationError::EmptyProfileName), Ok(clean_precheck()), false, "/home/user", ok_analysis.clone()),
        Err(UiValidationError::EmptyProfileName)
    );
    assert_eq!(
        confirm_review(true, Ok(profile()), Err("probe failed".to_owned()), false, "/home/user", ok_analysis.clone()),
        Err(UiValidationError::Core("probe failed".to_owned()))
    );
    let blocked = ReviewPrecheck {
        blockers: vec![PrecheckBlocker {
            path: "/".to_owned(),
            reason: "unavailable source".to_owned(),
            requirement: "readable".to_owned(),
            remediation: "Mount it.".to_owned(),
        }],
        warnings: Vec::new(),
    };
    assert_eq!(
        confirm_review(true, Ok(profile()), Ok(blocked), false, "", ok_analysis.clone()),
        Err(UiValidationError::PrecheckBlocked)
    );
    assert_eq!(
        confirm_review(true, Ok(profile()), Ok(clean_precheck()), true, "/home/user", ok_analysis.clone()),
        Err(UiValidationError::UnresolvedItems)
    );
    assert_eq!(
        confirm_review(true, Ok(profile()), Ok(clean_precheck()), false, "/home", ok_analysis.clone()),
        Err(UiValidationError::StrongerConfirmationRequired)
    );
    assert_eq!(
        confirm_review(true, Ok(profile()), Ok(clean_precheck()), false, "/home/user", Some(Err("plan is stale".to_owned()))),
        Err(UiValidationError::Analysis("plan is stale".to_owned()))
    );
    assert_eq!(
        confirm_review(true, Ok(profile()), Ok(clean_precheck()), false, "/home/user", None),
        Err(UiValidationError::ReviewNotReady)
    );
    assert_eq!(confirm_review(true, Ok(profile()), Ok(clean_precheck()), false, "/home/user", ok_analysis), Ok(()));
}

#[test]
fn hashes_read_as_lowercase_hex() {
    let mut hash = [0u8; 32];
    hash[0] = 0xab;
    hash[1] = 0x05;
    hash[31] = 0xff;
    let text = format_hash(&hash);
    assert_eq!(text.len(), 64);
    assert!(text.starts_with("ab0500"));
    assert!(text.ends_with("00ff"));
}

fn entry(key: u64, path: &str, available: Vec<ConflictResolution>) -> ConflictEntry {
    ConflictEntry { key, relative_path: path.to_owned(), kind: ConflictKind::SamePath, available_resolutions: available }
}

fn review() -> ConflictReviewState {
    ConflictReviewState::new(vec![
        entry(7, "keep.txt", vec![ConflictResolution::KeepPeerA, ConflictResolution::KeepPeerB, ConflictResolution::Defer]),
        entry(8, "notes.txt", vec![ConflictResolution::PreserveBoth, ConflictResolution::Defer]),
        entry(9, "notes.txt", vec![ConflictResolution::Defer]),
        entry(10, "read-only.txt", Vec::new()),
    ])
}

fn run() -> Vec<ConflictResolutionAction> {
    vec![ConflictResolutionAction {
        relative_path: "keep.txt".to_owned(),
        resolution: ConflictResolution::KeepPeerA,
        source_side: None,
        target_side: None,
    }]
}

#[test]
fn conflict_review_needs_an_explicit_decision_for_every_entry() {
    let mut state = review();
    assert!(!state.has_all_decisions());
    assert_eq!(state.entry_resolution(7), None);
    state.set_resolution_for_path("keep.txt", ConflictResolution::KeepPeerA).expect("whole-file decision");
    assert_eq!(state.entry_resolution(7), Some(ConflictResolution::KeepPeerA));
    assert_eq!(state.resolution_for_path("keep.txt"), Some(ConflictResolution::KeepPeerA));
    assert_eq!(
        state.set_resolution_for_path("notes.txt", ConflictResolution::Defer),
        Err(UiValidationError::Resolution(
            "multiple reviewed conflicts use notes.txt; select the typed conflict row".to_owned()
        ))
    );
    assert_eq!(
        state.set_resolution_for_path("missing.txt", ConflictResolution::Defer),
        Err(UiValidationError::Resolution("no reviewed conflict exists for missing.txt".to_owned()))
    );
    assert_eq!(
        state.set_entry_resolution(9, ConflictResolution::KeepPeerA),
        Err(UiValidationError::Resolution(
            "Keep Peer A whole file is not a safe decision for a same path differs conflict; preserve or defer it for review"
                .to_owned()
        ))
    );
    assert!(matches!(state.set_entry_resolution(42, ConflictResolution::Defer), Err(UiValidationError::Resolution(_))));
    state.set_entry_resolution(8, ConflictResolution::PreserveBoth).expect("offered");
    assert!(!state.has_all_decisions());
    state.set_entry_resolution(9, ConflictResolution::Defer).expect("offered");
    assert!(state.has_all_decisions());
    assert_eq!(state.resolution_for_path("notes.txt"), None);
}

#[test]
fn a_resolution_run_is_confirmed_only_after_a_fresh_check_and_any_new_decision_withdraws_it() {
    let mut state = review();
    assert_eq!(state.confirm_resolution_run(Ok(())), Err(UiValidationError::ConflictReviewNotReady));
    assert!(!state.resolution_is_confirmed());
    state.start_resolution_run(run());
    assert!(!state.resolution_is_confirmed());
    assert_eq!(
        state.confirm_resolution_run(Err("keep.txt changed".to_owned())),
        Err(UiValidationError::Resolution("keep.txt changed".to_owned()))
    );
    assert!(!state.resolution_is_confirmed());
    state.confirm_resolution_run(Ok(())).expect("fresh");
    assert!(state.resolution_is_confirmed());
    state.reject_stale("keep.txt changed after review".to_owned());
    assert!(!state.resolution_is_confirmed());
    state.confirm_resolution_run(Ok(())).expect("fresh again");
    state.set_entry_resolution(7, ConflictResolution::KeepPeerB).expect("offered");
    assert!(!state.resolution_is_confirmed());
    assert_eq!(state.confirm_resolution_run(Ok(())), Err(UiValidationError::ConflictReviewNotReady));
}
