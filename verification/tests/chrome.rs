use syncplus::chrome::{
    empty_overview, last_run_label, populated_overview, recovery_review_is_pending, recovery_review_notice,
    report_review_is_pending, reports_badge, sidebar_items, status_requires_recovery_review,
    status_requires_report_review, wizard_step_caption, ChromeAccent, ChromeSurface, OverviewAction,
    EMPTY_OVERVIEW_EYEBROW, EMPTY_OVERVIEW_PRIMARY, EMPTY_OVERVIEW_TITLE, NEXT_ACTION_RECOVERY_REVIEW,
    NEXT_ACTION_REVIEW_PLAN, NO_SYNC_RUN_YET, POPULATED_OVERVIEW_EYEBROW, RECOVERY_REVIEW_NOTICE,
    REPORTS_REVIEW_BADGE,
};
use syncplus::status::RunReportStatus;

const MARKETING_PHRASES: [&str; 3] = ["in rhythm.", "A calmer way to", "WELCOME TO SYNCPLUS"];

fn copy_avoids_marketing(text: &str) -> bool {
    MARKETING_PHRASES
        .iter()
        .all(|phrase| !text.to_ascii_lowercase().contains(&phrase.to_ascii_lowercase()))
}

#[test]
fn unselected_sidebar_items_share_muted_ink_and_selected_uses_copper() {
    let items = sidebar_items(ChromeSurface::Profiles);
    let labels: Vec<_> = items.iter().map(|item| item.label).collect();
    assert_eq!(
        labels,
        ["Overview", "Profiles", "Sync workspace", "Run Reports", "Settings", "Help & Support"]
    );
    assert!(items.iter().all(|item| item.label != "Recovery Review"));
    for item in &items {
        if item.selected {
            assert_eq!(item.surface, ChromeSurface::Profiles);
            assert_eq!(item.accent, ChromeAccent::Copper);
        } else {
            assert_eq!(item.accent, ChromeAccent::Muted);
        }
    }
    assert_eq!(items.iter().filter(|item| item.selected).count(), 1);
}

#[test]
fn settings_is_a_main_chrome_destination() {
    let items = sidebar_items(ChromeSurface::Settings);
    let settings = items
        .iter()
        .find(|item| item.surface == ChromeSurface::Settings)
        .expect("Settings");
    assert_eq!(settings.label, "Settings");
    assert!(settings.selected);
    assert_eq!(settings.accent, ChromeAccent::Copper);
}

#[test]
fn recovery_review_surfaces_as_notice_not_permanent_nav() {
    let items = sidebar_items(ChromeSurface::Reports);
    assert!(items.iter().all(|item| item.label != "Recovery Review"));
    assert_eq!(recovery_review_notice(false), None);
    assert_eq!(recovery_review_notice(true), Some(RECOVERY_REVIEW_NOTICE));
    assert_eq!(reports_badge(false), None);
    assert_eq!(reports_badge(true), Some(REPORTS_REVIEW_BADGE));
    assert!(recovery_review_is_pending(&[RunReportStatus::Completed, RunReportStatus::RecoveryReview]));
    assert!(!recovery_review_is_pending(&[RunReportStatus::Completed, RunReportStatus::ReviewCleared]));
    assert!(status_requires_recovery_review(RunReportStatus::Interrupted));
    assert!(!status_requires_recovery_review(RunReportStatus::CompletedWithReviewRequired));
    assert!(status_requires_report_review(RunReportStatus::CompletedWithReviewRequired));
    assert!(report_review_is_pending(&[RunReportStatus::CompletedWithReviewRequired]));
}

#[test]
fn empty_overview_is_calm_first_run_with_one_primary_action() {
    let overview = empty_overview();
    assert_eq!(overview.eyebrow, EMPTY_OVERVIEW_EYEBROW);
    assert_eq!(overview.title, EMPTY_OVERVIEW_TITLE);
    assert_eq!(overview.primary_action, OverviewAction::CreateProfile);
    assert_eq!(overview.primary_action.label(), EMPTY_OVERVIEW_PRIMARY);
    assert_eq!(overview.last_run, NO_SYNC_RUN_YET);
    assert!(overview.body.contains("confirmation"));
    assert!(copy_avoids_marketing(&overview.title));
    assert!(copy_avoids_marketing(&overview.body));
    assert!(copy_avoids_marketing(overview.primary_action.label()));
}

#[test]
fn populated_overview_shows_profile_last_run_and_next_safe_action() {
    let overview = populated_overview("Documents backup", "One-Way Sync", Some(RunReportStatus::Completed), false);
    assert_eq!(overview.eyebrow, POPULATED_OVERVIEW_EYEBROW);
    assert_eq!(overview.title, "Documents backup");
    assert!(overview.body.contains("One-Way Sync"));
    assert!(overview.body.contains("Last Sync Run · Completed"));
    assert_eq!(overview.last_run, "Last Sync Run · Completed");
    assert_eq!(overview.next_safe_action, NEXT_ACTION_REVIEW_PLAN);
    assert_eq!(overview.primary_action, OverviewAction::Synchronise);
    assert!(overview.recovery_notice.is_none());
    assert!(copy_avoids_marketing(&overview.title));
    assert!(copy_avoids_marketing(&overview.body));

    let recovery =
        populated_overview("Documents backup", "One-Way Sync", Some(RunReportStatus::RecoveryReview), true);
    assert_eq!(recovery.next_safe_action, NEXT_ACTION_RECOVERY_REVIEW);
    assert_eq!(recovery.primary_action, OverviewAction::OpenRecoveryReview);
    assert_eq!(recovery.recovery_notice, Some(RECOVERY_REVIEW_NOTICE));
    assert_eq!(recovery.last_run, "Last Sync Run · Recovery Review required");
    assert_eq!(last_run_label(None), NO_SYNC_RUN_YET);
}

#[test]
fn wizard_upcoming_steps_are_not_warnings() {
    assert_eq!(wizard_step_caption(true, false), "Current step");
    assert_eq!(wizard_step_caption(false, true), "Complete");
    assert_eq!(wizard_step_caption(false, false), "Upcoming");
    assert_ne!(wizard_step_caption(false, false), "Required");
}

#[test]
fn sidebar_selects_exactly_one_item_for_every_surface() {
    for surface in [
        ChromeSurface::Overview,
        ChromeSurface::Profiles,
        ChromeSurface::SyncWorkspace,
        ChromeSurface::Reports,
        ChromeSurface::Settings,
        ChromeSurface::Help,
    ] {
        let items = sidebar_items(surface);
        assert_eq!(items.len(), 6);
        let selected: Vec<_> = items.iter().filter(|item| item.selected).collect();
        assert_eq!(selected.len(), 1);
        assert_eq!(selected[0].surface, surface);
    }
}

#[test]
fn review_pending_on_empty_history_is_false() {
    assert!(!recovery_review_is_pending(&[]));
    assert!(!report_review_is_pending(&[]));
    assert!(report_review_is_pending(&[RunReportStatus::Interrupted]));
    assert!(!report_review_is_pending(&[RunReportStatus::Completed, RunReportStatus::Blocked]));
}
