use syncplus::help::{
    help_entry, help_topic_for_error, help_topic_for_report_status, help_topic_for_surface, help_topics,
    next_action_for_help_topic, HelpSurface, HelpTopic,
};
use syncplus::labels::{run_recovery_message, run_report_status_label};
use syncplus::model::RunId;
use syncplus::notification::{notification_for_report, notification_template_for_status};
use syncplus::status::RunReportStatus;
use syncplus::desktop::PATH_RISK_WARNING_LABEL;

#[test]
fn lifecycle_notification_copy_has_reason_and_safe_next_action() {
    for status in [
        RunReportStatus::Completed,
        RunReportStatus::Failed,
        RunReportStatus::Cancelled,
        RunReportStatus::Interrupted,
        RunReportStatus::CompletedWithReviewRequired,
        RunReportStatus::ReviewCleared,
    ] {
        let message = notification_template_for_status(status);
        assert!(!message.title.is_empty());
        assert!(!message.reason.is_empty());
        assert!(!message.next_action.is_empty());
        assert!(!message.reason.contains('/'));
        assert!(!message.next_action.contains('/'));
        assert!(!message.reason.contains("password"));
        assert!(!message.next_action.contains("password"));
    }
}

#[test]
fn report_notification_names_its_run() {
    let notification = notification_for_report(RunReportStatus::Failed, RunId::new(7));
    let template = notification_template_for_status(RunReportStatus::Failed);
    assert_eq!(notification.title(), template.title);
    assert_eq!(notification.reason(), template.reason);
    assert_eq!(notification.next_action(), template.next_action);
    assert_eq!(notification.run_id(), Some(RunId::new(7)));
}

#[test]
fn pending_review_is_not_presented_as_completed() {
    assert_eq!(run_report_status_label(RunReportStatus::CompletedWithReviewRequired), "Pending review");
    assert!(run_recovery_message(RunReportStatus::Interrupted).contains("Recovery Review"));
}

#[test]
fn help_catalog_covers_required_topics_with_complete_safe_guidance() {
    let required_topics = [
        HelpTopic::Modes,
        HelpTopic::OneWaySync,
        HelpTopic::SafeDelete,
        HelpTopic::MirrorSync,
        HelpTopic::ConflictReview,
        HelpTopic::Exclusions,
        HelpTopic::SshAuthentication,
        HelpTopic::Recovery,
        HelpTopic::RunReports,
        HelpTopic::DestructiveActions,
        HelpTopic::ExecutionFailures,
    ];

    for topic in required_topics {
        let entry = help_entry(topic);
        assert!(!entry.title.is_empty());
        assert!(!entry.what.is_empty());
        assert!(!entry.why.is_empty());
        assert!(!entry.how.is_empty());
        assert!(!entry.when.is_empty());
        assert!(!entry.consequences.is_empty());
        assert!(!entry.limitations.is_empty());
        assert!(!entry.next_action.is_empty());
        let content = format!(
            "{} {} {} {} {} {} {} {}",
            entry.title, entry.what, entry.why, entry.how, entry.when, entry.consequences, entry.limitations,
            entry.next_action
        );
        assert!(!content.contains("test-only-secret"));
        assert!(!content.contains("private-key-material"));
        assert!(!content.contains("file-content-sentinel"));
    }

    assert!(help_topics().len() >= required_topics.len());
}

#[test]
fn every_listed_topic_has_its_own_entry_once() {
    let topics = help_topics();
    for (i, topic) in topics.iter().enumerate() {
        assert_eq!(help_entry(*topic).topic, *topic);
        assert_eq!(help_entry(*topic).title, topic.label());
        assert!(!next_action_for_help_topic(*topic).is_empty());
        for other in &topics[i + 1..] {
            assert_ne!(topic, other);
        }
    }
}

#[test]
fn report_statuses_select_the_matching_help_guidance() {
    assert_eq!(help_topic_for_report_status(RunReportStatus::InProgress), HelpTopic::ProgressAndCancellation);
    assert_eq!(help_topic_for_report_status(RunReportStatus::Blocked), HelpTopic::PrecheckBlockers);
    assert_eq!(help_topic_for_report_status(RunReportStatus::Failed), HelpTopic::ExecutionFailures);
    assert_eq!(help_topic_for_report_status(RunReportStatus::RecoveryReview), HelpTopic::Recovery);
    assert_eq!(help_topic_for_report_status(RunReportStatus::Completed), HelpTopic::RunReports);
}

#[test]
fn contextual_help_maps_every_required_surface_to_text_guidance() {
    let surfaces = [
        (HelpSurface::Profile, HelpTopic::Modes),
        (HelpSurface::Plan, HelpTopic::PlanAndConfirmation),
        (HelpSurface::ConflictReview, HelpTopic::ConflictReview),
        (HelpSurface::Progress, HelpTopic::ProgressAndCancellation),
        (HelpSurface::Report, HelpTopic::RunReports),
        (HelpSurface::Recovery, HelpTopic::Recovery),
        (HelpSurface::Clone, HelpTopic::CloneProfile),
    ];

    for (surface, expected_topic) in surfaces {
        let topic = help_topic_for_surface(surface);
        assert_eq!(topic, expected_topic);
        assert!(!help_entry(topic).next_action.is_empty());
    }
}

#[test]
fn safety_copy_keeps_labels_and_does_not_rely_on_colour_alone() {
    assert_eq!(run_report_status_label(RunReportStatus::RecoveryReview), "Recovery Review required");
    assert_eq!(run_report_status_label(RunReportStatus::Completed), "Completed");
    assert_eq!(run_report_status_label(RunReportStatus::Blocked), "Blocked");
    assert!(run_recovery_message(RunReportStatus::Interrupted).contains("Recovery Review"));
    assert!(help_entry(HelpTopic::PlanAndConfirmation).what.contains("Execution Confirmation"));
    assert!(help_entry(HelpTopic::Recovery).title.contains("Recovery Review"));
    assert_eq!(PATH_RISK_WARNING_LABEL, "Path Risk Warning");
}

#[test]
fn error_text_selects_help_without_regard_to_case() {
    assert_eq!(help_topic_for_error("SSH host fingerprint changed"), HelpTopic::SshAuthentication);
    assert_eq!(help_topic_for_error("Conflict needs a decision"), HelpTopic::ConflictReview);
    assert_eq!(help_topic_for_error("the plan is STALE"), HelpTopic::PlanAndConfirmation);
    assert_eq!(help_topic_for_error("Precheck found a blocker"), HelpTopic::PrecheckBlockers);
    assert_eq!(help_topic_for_error("disk full"), HelpTopic::Diagnostics);
    assert_eq!(
        next_action_for_help_topic(HelpTopic::PrecheckBlockers),
        "Follow the displayed remediation and run the fresh precheck again; do not bypass the blocker."
    );
}
