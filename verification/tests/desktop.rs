use syncplus::desktop::{
    quit_decision, window_close_decision, ProfileWizardStep, QuitDecision, WindowCloseDecision,
    MISSED_SCHEDULE_NOT_NOW_LABEL, MISSED_SCHEDULE_RUN_NOW_LABEL, PATH_RISK_WARNING_LABEL,
};
use syncplus::folder_dialog::PendingFolderPick;
use syncplus::fonts::{candidate_is_regular_weight, first_available, preferred_regular_sans_path, regular_sans_candidates};

#[test]
fn missed_schedule_notice_exposes_exactly_the_two_catch_up_choices() {
    assert_eq!(MISSED_SCHEDULE_RUN_NOW_LABEL, "Yes, Run Now");
    assert_eq!(MISSED_SCHEDULE_NOT_NOW_LABEL, "No, Not Now");
    assert_ne!(MISSED_SCHEDULE_RUN_NOW_LABEL, MISSED_SCHEDULE_NOT_NOW_LABEL);
}

#[test]
fn window_close_hides_to_tray_without_stopping_work() {
    assert_eq!(window_close_decision(true), WindowCloseDecision::HideToTray);
    assert_eq!(window_close_decision(false), WindowCloseDecision::KeepVisible);
}

#[test]
fn quit_requires_a_choice_only_for_an_active_manual_run() {
    assert_eq!(quit_decision(false), QuitDecision::Exit);
    assert_eq!(quit_decision(true), QuitDecision::AskBeforeStopping);
}

#[test]
fn path_risk_warning_keeps_its_label() {
    assert_eq!(PATH_RISK_WARNING_LABEL, "Path Risk Warning");
}

#[test]
fn wizard_steps_walk_forward_and_back_in_order() {
    let mut step = ProfileWizardStep::SyncMethod;
    let mut seen = vec![step];
    while let Some(next) = step.next() {
        assert_eq!(next.previous(), Some(step));
        assert_eq!(next.number(), step.number() + 1);
        step = next;
        seen.push(step);
    }
    assert_eq!(seen.len(), 4);
    assert_eq!(seen[0].number(), 1);
    assert_eq!(ProfileWizardStep::SyncMethod.previous(), None);
    for step in seen {
        assert!(!step.title().is_empty());
    }
}

#[test]
fn wizard_and_workspace_browse_name_the_same_saved_folders() {
    let source = PendingFolderPick::source(false);
    let destination = PendingFolderPick::destination(true);
    assert!(source.peer_a);
    assert!(!destination.peer_a);
    assert!(!source.check_folders);
    assert!(destination.check_folders);
    assert_eq!(source.title, "Select source folder");
    assert_eq!(destination.title, "Select destination folder");
    assert!(!source.title.to_ascii_lowercase().contains("shell"));
}

#[test]
fn proportional_font_candidates_are_regular_weight_not_light() {
    for candidate in regular_sans_candidates() {
        assert!(
            candidate_is_regular_weight(candidate),
            "{candidate} must be a regular-weight face, not Light"
        );
    }
    if let Some(path) = preferred_regular_sans_path() {
        assert!(candidate_is_regular_weight(&path));
    }
}

#[test]
fn light_and_thin_faces_are_not_regular_weight() {
    assert!(!candidate_is_regular_weight("/usr/share/fonts/Inter-Light.ttf"));
    assert!(!candidate_is_regular_weight("/fonts/NotoSans-THIN.ttf"));
    assert!(candidate_is_regular_weight("/fonts/lightbox/NotoSans-Regular.ttf"));
}

#[test]
fn the_first_available_candidate_wins() {
    assert_eq!(first_available(&[false, true, true]), Some(1));
    assert_eq!(first_available(&[false, false]), None);
    assert_eq!(first_available(&[]), None);
}
