use syncplus::desktop::ProfileWizardStep;
use syncplus::forms::{
    clone_form, endpoint_summary, format_form_validation_diagnostic, next_clone_name, parse_exclusions,
    prepare_profile_save, saved_secret_references, secret_reference_valid, validate_clone, wizard_step_validation,
    AuthenticationForm, CloneAuthorizationChoice, CloneState, EndpointForm, EndpointKind, ProfileForm,
    ScheduleDefinition, UiValidationError, safety_deletion_method, normalize_profile_authorizations,
    clone_choice_authorizations,
};
use syncplus::model::{ApplicationMode, DeletionMethod, OneWaySource, PartialTransferPolicy, SyncMode};
use syncplus::profile::{AuthorizationSnapshot, PeerEndpoint, SshAuthentication};
use syncplus::text::{parse_unsigned, trim_text};

fn endpoint(name: &str, path: &str) -> EndpointForm {
    EndpointForm {
        name: name.to_owned(),
        kind: EndpointKind::Local,
        local_path: path.to_owned(),
        server: String::new(),
        username: String::new(),
        port: "22".to_owned(),
        identity: String::new(),
        secret_reference: String::new(),
        remote_path: String::new(),
        authentication: AuthenticationForm::Key,
    }
}

fn valid_form() -> ProfileForm {
    ProfileForm {
        name: "Documents backup".to_owned(),
        peer_a: endpoint("Laptop", "/home/user/Documents"),
        peer_b: endpoint("Backup disk", "/mnt/backup/Documents"),
        mode: SyncMode::OneWay,
        source: OneWaySource::PeerA,
        safe_delete: false,
        deletion_method: None,
        destination_cleanup: false,
        exclusions: String::new(),
        timestamps: false,
        ownership: false,
        access_control_lists: false,
        extended_attributes: false,
        partial_transfer_policy: PartialTransferPolicy::Cleanup,
        retry_attempts: "3".to_owned(),
        retry_delay_millis: "1000".to_owned(),
        schedule_enabled: false,
        schedule_interval_minutes: "60".to_owned(),
        schedule_timezone: "UTC".to_owned(),
    }
}

#[test]
fn saved_password_form_accepts_only_a_keyring_reference() {
    let mut form = valid_form();
    form.peer_b.kind = EndpointKind::Ssh;
    form.peer_b.server = "backup.example.com".to_owned();
    form.peer_b.username = "sync-user".to_owned();
    form.peer_b.remote_path = "/srv/backup".to_owned();
    form.peer_b.authentication = AuthenticationForm::SavedPassword;
    form.peer_b.secret_reference = "backup-password".to_owned();
    let profile = form.build().expect("reference is valid");
    let ssh = match &profile.peer_b.endpoint {
        PeerEndpoint::Ssh(ssh) => ssh,
        PeerEndpoint::Local { .. } => panic!("ssh"),
    };
    assert!(matches!(ssh.authentication, SshAuthentication::SavedPassword(_)));
    form.peer_b.secret_reference = "top secret password".to_owned();
    assert_eq!(form.build().expect_err("secret-like invalid reference"), UiValidationError::InvalidSavedSecretReference);
}

#[test]
fn advanced_options_are_typed_and_round_trip_without_command_editing() {
    let mut form = valid_form();
    form.timestamps = true;
    form.ownership = true;
    form.access_control_lists = true;
    form.extended_attributes = true;
    form.partial_transfer_policy = PartialTransferPolicy::KeepPartialForResume;
    form.retry_attempts = "5".to_owned();
    form.retry_delay_millis = "250".to_owned();

    let profile = form.build().expect("typed advanced options");
    let options = profile.options;
    assert!(options.metadata.timestamps);
    assert!(options.metadata.ownership);
    assert!(options.metadata.access_control_lists);
    assert!(options.metadata.extended_attributes);
    assert_eq!(options.partial_transfer_policy, PartialTransferPolicy::KeepPartialForResume);
    assert_eq!(options.retry_policy.max_attempts, 5);
    assert_eq!(options.retry_policy.initial_delay_millis, 250);

    form.retry_attempts = "11".to_owned();
    assert_eq!(form.build(), Err(UiValidationError::InvalidRetryAttempts));
    form.retry_attempts = "5".to_owned();
    form.retry_delay_millis = "3600001".to_owned();
    assert_eq!(form.build(), Err(UiValidationError::InvalidRetryDelay));
}

#[test]
fn the_first_wrong_field_is_named() {
    let mut form = valid_form();
    form.name = "   ".to_owned();
    assert_eq!(form.build(), Err(UiValidationError::EmptyProfileName));
    let mut form = valid_form();
    form.peer_a.name = "\t".to_owned();
    assert_eq!(form.build(), Err(UiValidationError::EmptyPeerName { peer: "Source" }));
    let mut form = valid_form();
    form.peer_b.local_path = " ".to_owned();
    assert_eq!(form.build(), Err(UiValidationError::EmptyLocalPath { peer: "Destination" }));
    let mut form = valid_form();
    form.peer_b.kind = EndpointKind::Ssh;
    form.peer_b.server = "host".to_owned();
    form.peer_b.username = "user".to_owned();
    form.peer_b.remote_path = "/srv".to_owned();
    form.peer_b.port = "0".to_owned();
    assert_eq!(form.build(), Err(UiValidationError::InvalidSshPort));
    form.peer_b.port = "65536".to_owned();
    assert_eq!(form.build(), Err(UiValidationError::InvalidSshPort));
    form.peer_b.port = "2222".to_owned();
    assert_eq!(form.build(), Err(UiValidationError::MissingIdentity));
    form.peer_b.identity = " ~/.ssh/id_ed25519 ".to_owned();
    let profile = form.build().expect("key authentication");
    match &profile.peer_b.endpoint {
        PeerEndpoint::Ssh(ssh) => {
            assert_eq!(ssh.port, 2222);
            assert_eq!(ssh.identity.as_deref(), Some("~/.ssh/id_ed25519"));
        }
        PeerEndpoint::Local { .. } => panic!("ssh"),
    }
    form.peer_b.authentication = AuthenticationForm::NeedsConfiguration;
    assert_eq!(form.build(), Err(UiValidationError::SshAuthenticationRequired));
}

#[test]
fn safe_delete_defaults_to_the_trash_and_exclusions_are_trimmed_lines() {
    let mut form = valid_form();
    form.safe_delete = true;
    form.exclusions = "  *.tmp \n\n cache/\r\n".to_owned();
    let profile = form.build().expect("valid");
    assert_eq!(profile.options.deletion_method, Some(DeletionMethod::Trash));
    assert_eq!(profile.exclusions, vec!["*.tmp".to_owned(), "cache/".to_owned()]);
    assert_eq!(profile.name, "Documents backup");
    assert_eq!(parse_exclusions("a\nb"), vec!["a".to_owned(), "b".to_owned()]);
    assert!(parse_exclusions(" \n ").is_empty());
}

#[test]
fn unsigned_text_parses_like_rust() {
    assert_eq!(parse_unsigned("250", u64::MAX), Some(250));
    assert_eq!(parse_unsigned("+7", 255), Some(7));
    assert_eq!(parse_unsigned("256", 255), None);
    assert_eq!(parse_unsigned("", 255), None);
    assert_eq!(parse_unsigned("+", 255), None);
    assert_eq!(parse_unsigned(" 5", 255), None);
    assert_eq!(parse_unsigned("-1", 255), None);
    assert_eq!(parse_unsigned("18446744073709551615", u64::MAX), Some(u64::MAX));
    assert_eq!(parse_unsigned("18446744073709551616", u64::MAX), None);
    assert_eq!(trim_text("\u{3000} a b \n"), "a b");
}

#[test]
fn keyring_references_hold_no_spaces() {
    assert!(secret_reference_valid("backup-password"));
    assert!(secret_reference_valid("sync.user_1"));
    assert!(!secret_reference_valid("top secret password"));
    assert!(!secret_reference_valid(""));
    assert!(!secret_reference_valid(&"a".repeat(129)));
}

#[test]
fn schedules_take_an_interval_up_to_a_week_and_a_short_timezone() {
    let mut form = valid_form();
    let schedule = form.build_schedule().expect("valid schedule");
    assert_eq!(schedule.interval_minutes, 60);
    assert_eq!(schedule.timezone, "UTC");
    form.schedule_interval_minutes = "10081".to_owned();
    assert_eq!(form.build_schedule(), Err(UiValidationError::InvalidScheduleInterval));
    form.schedule_interval_minutes = "10080".to_owned();
    form.schedule_timezone = "Europe/\0Paris".to_owned();
    assert_eq!(form.build_schedule(), Err(UiValidationError::InvalidScheduleTimezone));
    form.schedule_timezone = "é".repeat(129);
    assert_eq!(form.build_schedule(), Err(UiValidationError::InvalidScheduleTimezone));
    form.schedule_timezone = "é".repeat(128);
    assert!(form.build_schedule().is_ok());
    form.schedule_timezone = "é".repeat(100);
    assert!(form.build_schedule().is_ok());
    form.schedule_timezone = "   ".to_owned();
    assert_eq!(form.build_schedule(), Err(UiValidationError::InvalidScheduleTimezone));
}

#[test]
fn a_quarter_hour_schedule_in_auckland_is_accepted() {
    let mut form = valid_form();
    form.schedule_interval_minutes = "15".to_owned();
    form.schedule_timezone = " Pacific/Auckland ".to_owned();
    let schedule = form.build_schedule().expect("valid schedule");
    assert_eq!(schedule.interval_minutes, 15);
    assert_eq!(schedule.timezone, "Pacific/Auckland");
    form.schedule_interval_minutes = "0".to_owned();
    assert_eq!(form.build_schedule(), Err(UiValidationError::InvalidScheduleInterval));
}

#[test]
fn turning_safe_delete_on_chooses_trash_until_a_method_is_picked() {
    assert_eq!(safety_deletion_method(false, true, Some(DeletionMethod::Trash)), None);
    assert_eq!(safety_deletion_method(true, true, None), Some(DeletionMethod::Trash));
    assert_eq!(safety_deletion_method(true, false, None), None);
    assert_eq!(
        safety_deletion_method(true, true, Some(DeletionMethod::PermanentRemoval)),
        Some(DeletionMethod::PermanentRemoval)
    );
}

#[test]
fn unattended_authority_is_cleared_when_its_option_is_off() {
    let both = AuthorizationSnapshot { allow_unattended_destructive: true, allow_unattended_permanent_removal: true };
    let none = AuthorizationSnapshot { allow_unattended_destructive: false, allow_unattended_permanent_removal: false };
    assert_eq!(normalize_profile_authorizations(false, false, None, both), none);
    assert_eq!(
        normalize_profile_authorizations(true, false, Some(DeletionMethod::Trash), both),
        AuthorizationSnapshot { allow_unattended_destructive: true, allow_unattended_permanent_removal: false }
    );
    assert_eq!(
        normalize_profile_authorizations(false, true, Some(DeletionMethod::PermanentRemoval), both),
        both
    );
    assert_eq!(normalize_profile_authorizations(true, true, Some(DeletionMethod::PermanentRemoval), none), none);
}

#[test]
fn a_clone_copies_unattended_destructive_authority_only_when_asked() {
    let source = AuthorizationSnapshot { allow_unattended_destructive: true, allow_unattended_permanent_removal: true };
    let profile = AuthorizationSnapshot { allow_unattended_destructive: true, allow_unattended_permanent_removal: false };
    assert_eq!(
        clone_choice_authorizations(CloneAuthorizationChoice::Reset, source, profile),
        AuthorizationSnapshot { allow_unattended_destructive: false, allow_unattended_permanent_removal: false }
    );
    assert_eq!(
        clone_choice_authorizations(CloneAuthorizationChoice::CopyUnattendedDestructive, source, profile),
        AuthorizationSnapshot { allow_unattended_destructive: true, allow_unattended_permanent_removal: false }
    );
}

#[test]
fn endpoint_summaries_read_as_the_user_typed_them() {
    let mut endpoint = endpoint("Laptop", "  /home/user  ");
    assert_eq!(endpoint_summary(&endpoint), "/home/user");
    endpoint.local_path = String::new();
    assert_eq!(endpoint_summary(&endpoint), "Not selected");
    endpoint.kind = EndpointKind::Ssh;
    assert_eq!(endpoint_summary(&endpoint), "SSH peer not fully configured");
    endpoint.server = "host".to_owned();
    endpoint.username = "me".to_owned();
    endpoint.remote_path = "/srv".to_owned();
    assert_eq!(endpoint_summary(&endpoint), "me@host:22/srv");
}

#[test]
fn form_diagnostics_name_profile_peer_scope_and_next_action() {
    let mut form = valid_form();
    form.peer_b.local_path = String::new();
    let error = form.build().unwrap_err();
    let text = format_form_validation_diagnostic(&form, &error);
    assert_eq!(
        text,
        "Profile: Documents backup | Peer: Destination | Account: not applicable (local peer) | Scope: /home/user/Documents ->  \
         | Reason: Destination folder is required. | Next action: correct the named typed field and validate the profile again."
    );
    assert_eq!(UiValidationError::Analysis("disk gone".to_owned()).message(), "Fresh Analysis could not be completed: disk gone");
}

#[test]
fn permanent_removal_needs_advanced_mode_and_its_authorization() {
    let mut form = valid_form();
    form.safe_delete = true;
    form.deletion_method = Some(DeletionMethod::PermanentRemoval);
    let none = AuthorizationSnapshot::none();
    assert_eq!(
        wizard_step_validation(ProfileWizardStep::ReviewAndSave, &form, &None, none, ApplicationMode::Simple),
        Err(UiValidationError::PermanentRemovalRequiresAdvanced)
    );
    assert_eq!(
        wizard_step_validation(ProfileWizardStep::ReviewAndSave, &form, &None, none, ApplicationMode::Advanced),
        Err(UiValidationError::PermanentRemovalAuthorizationRequired)
    );
    let authorized = AuthorizationSnapshot { allow_unattended_destructive: false, allow_unattended_permanent_removal: true };
    assert_eq!(
        wizard_step_validation(ProfileWizardStep::ReviewAndSave, &form, &None, authorized, ApplicationMode::Advanced),
        Ok(())
    );
    assert_eq!(
        wizard_step_validation(ProfileWizardStep::SyncMethod, &valid_form(), &None, none, ApplicationMode::Simple),
        Ok(())
    );
}

#[test]
fn clones_must_change_an_endpoint_and_confirm_copied_authority() {
    let form = valid_form();
    let profile = form.build().unwrap();
    let source = (profile.peer_a.clone(), profile.peer_b.clone());
    let authority = AuthorizationSnapshot { allow_unattended_destructive: true, allow_unattended_permanent_removal: false };
    let mut clone = CloneState {
        source_endpoints: Some(source),
        source_authorizations: authority,
        choice: CloneAuthorizationChoice::CopyUnattendedDestructive,
        confirmed: false,
    };
    let none = AuthorizationSnapshot::none();
    assert_eq!(
        validate_clone(&Some(clone.clone()), &profile, none, ApplicationMode::Advanced),
        Err(UiValidationError::CloneEndpointsUnchanged)
    );
    let mut moved = form.clone();
    moved.peer_b.local_path = "/mnt/other".to_owned();
    let moved_profile = moved.build().unwrap();
    assert_eq!(
        validate_clone(&Some(clone.clone()), &moved_profile, none, ApplicationMode::Advanced),
        Err(UiValidationError::CloneAuthorizationConfirmationRequired)
    );
    clone.confirmed = true;
    assert_eq!(
        validate_clone(&Some(clone.clone()), &moved_profile, none, ApplicationMode::Simple),
        Err(UiValidationError::CloneAuthorizationConfirmationRequired)
    );
    assert_eq!(validate_clone(&Some(clone.clone()), &moved_profile, none, ApplicationMode::Advanced), Ok(authority));
    clone.choice = CloneAuthorizationChoice::Reset;
    assert_eq!(validate_clone(&Some(clone), &moved_profile, none, ApplicationMode::Simple), Ok(none));
    assert_eq!(validate_clone(&None, &moved_profile, authority, ApplicationMode::Simple), Ok(authority));
}

fn ssh_saved_password_form() -> ProfileForm {
    let mut form = valid_form();
    form.peer_b.kind = EndpointKind::Ssh;
    form.peer_b.server = " backup.example.com ".to_owned();
    form.peer_b.username = "sync-user".to_owned();
    form.peer_b.port = "2222".to_owned();
    form.peer_b.remote_path = "/srv/backup".to_owned();
    form.peer_b.authentication = AuthenticationForm::SavedPassword;
    form.peer_b.secret_reference = "backup-password".to_owned();
    form
}

#[test]
fn fresh_endpoint_forms_are_local_on_port_22_with_key_authentication() {
    let source = EndpointForm::source_defaults();
    assert_eq!(source, endpoint("Source", ""));
    let destination = EndpointForm::destination_defaults();
    assert_eq!(destination, endpoint("Destination", ""));
}

#[test]
fn a_saved_peer_is_shown_as_typed_and_rebuilds_unchanged() {
    let form = ssh_saved_password_form();
    let profile = form.build().expect("valid profile");
    let shown = EndpointForm::from_peer(&profile.peer_b);
    assert_eq!(shown.kind, EndpointKind::Ssh);
    assert_eq!(shown.server, "backup.example.com");
    assert_eq!(shown.port, "2222");
    assert_eq!(shown.secret_reference, "backup-password");
    assert_eq!(shown.authentication, AuthenticationForm::SavedPassword);
    assert_eq!(shown.local_path, "");
    assert_eq!(shown.build("Destination").expect("rebuilds"), profile.peer_b);
    let local = EndpointForm::from_peer(&profile.peer_a);
    assert_eq!(local, endpoint("Laptop", "/home/user/Documents"));
}

#[test]
fn dropping_saved_credentials_asks_for_a_new_authentication() {
    let form = ssh_saved_password_form();
    let stripped = form.peer_b.clone().without_saved_credentials();
    assert_eq!(stripped.authentication, AuthenticationForm::NeedsConfiguration);
    assert_eq!(stripped.secret_reference, "");
    assert_eq!(stripped.server, form.peer_b.server);
    assert_eq!(stripped.build("Destination").expect_err("needs a choice"), UiValidationError::SshAuthenticationRequired);
    let local = endpoint("Laptop", "/home/user/Documents");
    assert_eq!(local.clone().without_saved_credentials(), local);
}

#[test]
fn opening_a_saved_profile_and_saving_it_unchanged_changes_nothing() {
    let mut form = ssh_saved_password_form();
    form.exclusions = "  *.tmp \n\ncache/\r\n".to_owned();
    form.safe_delete = true;
    form.retry_attempts = " 5".to_owned();
    form.retry_delay_millis = "250".to_owned();
    form.timestamps = true;
    let profile = form.build().expect("valid profile");
    let schedule = ScheduleDefinition { interval_minutes: 90, timezone: "Europe/Berlin".to_owned(), enabled: true };
    let shown = ProfileForm::from_profile(&profile, &Some(schedule.clone()));
    assert_eq!(shown.exclusions, "*.tmp\ncache/");
    assert_eq!(shown.retry_attempts, "5");
    assert_eq!(shown.retry_delay_millis, "250");
    assert_eq!(shown.deletion_method, Some(DeletionMethod::Trash));
    assert_eq!(shown.schedule_interval_minutes, "90");
    assert!(shown.schedule_enabled);
    assert_eq!(shown.build().expect("rebuilds"), profile);
    assert_eq!(shown.build_schedule().expect("schedule rebuilds"), schedule);
    let unscheduled = ProfileForm::from_profile(&profile, &None);
    assert_eq!(unscheduled.schedule_interval_minutes, "60");
    assert_eq!(unscheduled.schedule_timezone, "UTC");
    assert!(!unscheduled.schedule_enabled);
}

#[test]
fn copies_take_the_first_free_name() {
    let names = vec!["Documents backup".to_owned()];
    assert_eq!(next_clone_name(&names, "Documents backup"), "Documents backup copy");
    let names = vec!["Documents backup copy".to_owned(), "Documents backup copy 2".to_owned()];
    assert_eq!(next_clone_name(&names, "Documents backup"), "Documents backup copy 3");
    let names = vec!["Documents backup copy".to_owned(), "Documents backup copy 3".to_owned()];
    assert_eq!(next_clone_name(&names, "Documents backup"), "Documents backup copy 2");
}

fn saved_password_form() -> ProfileForm {
    let mut form = valid_form();
    form.peer_b.kind = EndpointKind::Ssh;
    form.peer_b.server = "backup.example.com".to_owned();
    form.peer_b.username = "sync-user".to_owned();
    form.peer_b.remote_path = "/srv/backup".to_owned();
    form.peer_b.authentication = AuthenticationForm::SavedPassword;
    form.peer_b.secret_reference = "backup-password".to_owned();
    form
}

#[test]
fn cloning_clears_saved_credentials_and_requires_a_real_endpoint_change() {
    let source = saved_password_form().build().expect("source profile");
    let names = vec![source.name.clone()];
    let (mut form, clone) = clone_form(&source, &None, AuthorizationSnapshot::none(), &names);
    let clone = Some(clone);
    assert_eq!(form.peer_b.secret_reference, "");
    assert_eq!(form.peer_b.authentication, AuthenticationForm::NeedsConfiguration);
    form.peer_b.name = "renamed destination label".to_owned();
    let none = AuthorizationSnapshot::none();
    assert_eq!(
        prepare_profile_save(&form, &clone, none, ApplicationMode::Simple, true),
        Err(UiValidationError::SshAuthenticationRequired)
    );

    form.peer_b.authentication = AuthenticationForm::Agent;
    assert_eq!(
        prepare_profile_save(&form, &clone, none, ApplicationMode::Simple, true),
        Err(UiValidationError::CloneEndpointsUnchanged)
    );
    form.peer_b.remote_path = "/srv/backup-copy".to_owned();
    let saved = prepare_profile_save(&form, &clone, none, ApplicationMode::Simple, true).expect("changed endpoint clone");
    assert_eq!(saved.profile.peer_b.root(), "/srv/backup-copy");
    assert!(!saved.authorizations.allow_unattended_destructive);
    assert!(!saved.authorizations.allow_unattended_permanent_removal);
}

#[test]
fn cloning_requires_authorization_choice_and_never_copies_permanent_removal() {
    let mut source_form = valid_form();
    source_form.safe_delete = true;
    source_form.deletion_method = Some(DeletionMethod::PermanentRemoval);
    let source = source_form.build().expect("source profile");
    let authorized = AuthorizationSnapshot { allow_unattended_destructive: true, allow_unattended_permanent_removal: true };
    let (mut form, mut clone) = clone_form(&source, &None, authorized, &vec![source.name.clone()]);
    assert_eq!(form.deletion_method, Some(DeletionMethod::Trash));
    form.peer_a.local_path = "/home/user/other-documents".to_owned();
    let none = AuthorizationSnapshot::none();
    assert_eq!(
        prepare_profile_save(&form, &Some(clone.clone()), none, ApplicationMode::Simple, true),
        Err(UiValidationError::CloneAuthorizationConfirmationRequired)
    );

    clone.confirmed = true;
    let saved = prepare_profile_save(&form, &Some(clone), none, ApplicationMode::Simple, true).expect("explicitly confirmed clone");
    assert_eq!(saved.profile.options.deletion_method, Some(DeletionMethod::Trash));
    assert!(!saved.authorizations.allow_unattended_destructive);
    assert!(!saved.authorizations.allow_unattended_permanent_removal);
}

#[test]
fn clone_copy_authorization_is_explicit_advanced_only_and_excludes_permanent_removal() {
    let mut source_form = valid_form();
    source_form.safe_delete = true;
    source_form.deletion_method = Some(DeletionMethod::PermanentRemoval);
    let source = source_form.build().expect("source profile");
    let authorized = AuthorizationSnapshot { allow_unattended_destructive: true, allow_unattended_permanent_removal: true };
    let (mut form, mut clone) = clone_form(&source, &None, authorized, &vec![source.name.clone()]);
    form.peer_b.local_path = "/home/user/other-backup".to_owned();
    clone.choice = CloneAuthorizationChoice::CopyUnattendedDestructive;
    clone.confirmed = true;
    let clone = Some(clone);
    let none = AuthorizationSnapshot::none();
    assert_eq!(
        prepare_profile_save(&form, &clone, none, ApplicationMode::Simple, true),
        Err(UiValidationError::CloneAuthorizationConfirmationRequired)
    );

    let saved = prepare_profile_save(&form, &clone, none, ApplicationMode::Advanced, true).expect("advanced explicit copy");
    assert!(saved.authorizations.allow_unattended_destructive);
    assert!(!saved.authorizations.allow_unattended_permanent_removal);
}

#[test]
fn invalid_schedule_fields_are_rejected_before_profile_save() {
    let mut form = valid_form();
    form.schedule_interval_minutes = "0".to_owned();
    assert_eq!(
        prepare_profile_save(&form, &None, AuthorizationSnapshot::none(), ApplicationMode::Advanced, true),
        Err(UiValidationError::InvalidScheduleInterval)
    );
}

#[test]
fn invalid_endpoints_are_rejected_before_save() {
    let mut form = valid_form();
    form.peer_b.local_path.clear();
    let error = prepare_profile_save(&form, &None, AuthorizationSnapshot::none(), ApplicationMode::Simple, true)
        .expect_err("empty path must block");
    assert_eq!(error, UiValidationError::EmptyLocalPath { peer: "Destination" });
}

#[test]
fn saved_password_profiles_require_an_available_keyring_entry() {
    let form = saved_password_form();
    let saved = prepare_profile_save(&form, &None, AuthorizationSnapshot::none(), ApplicationMode::Simple, true)
        .expect("keyring entry is available");
    match &saved.profile.peer_b.endpoint {
        PeerEndpoint::Ssh(ssh) => assert!(matches!(ssh.authentication, SshAuthentication::SavedPassword(_))),
        PeerEndpoint::Local { .. } => panic!("ssh"),
    }
}

#[test]
fn a_missing_keyring_entry_blocks_the_save_after_the_form_checks() {
    let form = saved_password_form();
    let profile = form.build().expect("valid form");
    assert_eq!(saved_secret_references(&profile), vec!["backup-password".to_owned()]);
    assert_eq!(
        prepare_profile_save(&form, &None, AuthorizationSnapshot::none(), ApplicationMode::Simple, false),
        Err(UiValidationError::SavedSecretUnavailable)
    );
    let mut broken = form.clone();
    broken.name = " ".to_owned();
    assert_eq!(
        prepare_profile_save(&broken, &None, AuthorizationSnapshot::none(), ApplicationMode::Simple, false),
        Err(UiValidationError::EmptyProfileName)
    );
    assert!(saved_secret_references(&valid_form().build().unwrap()).is_empty());
}

#[test]
fn wizard_requires_current_step_fields_before_advancing() {
    let mut form = valid_form();
    form.name = String::new();
    form.peer_a = EndpointForm::source_defaults();
    form.peer_b = EndpointForm::destination_defaults();
    let none = AuthorizationSnapshot::none();
    assert_eq!(
        wizard_step_validation(ProfileWizardStep::SyncMethod, &form, &None, none, ApplicationMode::Simple),
        Err(UiValidationError::EmptyProfileName)
    );
    form.name = "Documents backup".to_owned();
    assert!(wizard_step_validation(ProfileWizardStep::SyncMethod, &form, &None, none, ApplicationMode::Simple).is_ok());
    assert_eq!(ProfileWizardStep::SyncMethod.next(), Some(ProfileWizardStep::SourceEndpoint));
    assert_eq!(
        wizard_step_validation(ProfileWizardStep::SourceEndpoint, &form, &None, none, ApplicationMode::Simple),
        Err(UiValidationError::EmptyLocalPath { peer: "Source" })
    );
}

#[test]
fn copies_get_a_free_name_and_start_unconfirmed_only_with_authority_to_copy() {
    let source = saved_password_form().build().expect("source profile");
    let names = vec![source.name.clone(), "Documents backup copy".to_owned()];
    let (form, clone) = clone_form(&source, &None, AuthorizationSnapshot::none(), &names);
    assert_eq!(form.name, "Documents backup copy 2");
    assert!(clone.confirmed);
    assert_eq!(clone.source_endpoints, Some((source.peer_a.clone(), source.peer_b.clone())));
}
