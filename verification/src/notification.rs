//! Lifecycle notifications: the title, reason and safe next action shown
//! for a Run Report status or a scheduler event.
use vstd::prelude::*;

use crate::model::RunId;
use crate::status::RunReportStatus;

verus! {

#[derive(Debug, Clone, Copy, PartialEq, Eq)]
pub struct NotificationTemplate {
    pub title: &'static str,
    pub reason: &'static str,
    pub next_action: &'static str,
}

pub open spec fn notification_title(status: RunReportStatus) -> Seq<char> {
    match status {
        RunReportStatus::Completed => "Sync Run completed"@,
        RunReportStatus::Failed => "Sync Run failed"@,
        RunReportStatus::Cancelled => "Sync Run cancelled"@,
        RunReportStatus::Interrupted => "Sync Run interrupted"@,
        RunReportStatus::CompletedWithReviewRequired | RunReportStatus::RecoveryReview => "Sync Run needs review"@,
        RunReportStatus::ReviewCleared => "Sync Run review cleared"@,
        RunReportStatus::Blocked => "Sync Run blocked"@,
        RunReportStatus::InProgress => "Sync Run started"@,
    }
}

pub open spec fn notification_reason(status: RunReportStatus) -> Seq<char> {
    match status {
        RunReportStatus::Completed => "All approved actions passed verification and reconciliation."@,
        RunReportStatus::Failed => "At least one approved action did not complete safely."@,
        RunReportStatus::Cancelled => "The run stopped before all approved actions completed."@,
        RunReportStatus::Interrupted => "The run stopped at an unexpected process or connection boundary."@,
        RunReportStatus::CompletedWithReviewRequired | RunReportStatus::RecoveryReview => "Work remains unresolved or crossed an uncertain filesystem boundary."@,
        RunReportStatus::ReviewCleared => "The required review was explicitly completed after reconciliation."@,
        RunReportStatus::Blocked => "A safety precheck prevented filesystem mutation."@,
        RunReportStatus::InProgress => "The approved run is in progress."@,
    }
}

pub open spec fn notification_next_action(status: RunReportStatus) -> Seq<char> {
    match status {
        RunReportStatus::Completed => "Open the Run Report to review the safety evidence."@,
        RunReportStatus::Failed => "Open the Run Report and resolve the failure before retrying."@,
        RunReportStatus::Cancelled => "Open the Run Report and review unfinished actions before retrying."@,
        RunReportStatus::Interrupted => "Open Recovery Review before resuming or retrying."@,
        RunReportStatus::CompletedWithReviewRequired | RunReportStatus::RecoveryReview => "Open the Run Report and complete Recovery Review before clearing it."@,
        RunReportStatus::ReviewCleared => "Open the Run Report to review the final safety evidence."@,
        RunReportStatus::Blocked => "Open the Run Report, resolve the blocker, and analyze again."@,
        RunReportStatus::InProgress => "Keep the source protected and review the Run Report when it settles."@,
    }
}

pub fn notification_template_for_status(status: RunReportStatus) -> (template: NotificationTemplate)
    ensures
        template.title@ == notification_title(status),
        template.reason@ == notification_reason(status),
        template.next_action@ == notification_next_action(status),
{
    match status {
        RunReportStatus::Completed => NotificationTemplate {
            title: "Sync Run completed",
            reason: "All approved actions passed verification and reconciliation.",
            next_action: "Open the Run Report to review the safety evidence.",
        },
        RunReportStatus::Failed => NotificationTemplate {
            title: "Sync Run failed",
            reason: "At least one approved action did not complete safely.",
            next_action: "Open the Run Report and resolve the failure before retrying.",
        },
        RunReportStatus::Cancelled => NotificationTemplate {
            title: "Sync Run cancelled",
            reason: "The run stopped before all approved actions completed.",
            next_action: "Open the Run Report and review unfinished actions before retrying.",
        },
        RunReportStatus::Interrupted => NotificationTemplate {
            title: "Sync Run interrupted",
            reason: "The run stopped at an unexpected process or connection boundary.",
            next_action: "Open Recovery Review before resuming or retrying.",
        },
        RunReportStatus::CompletedWithReviewRequired | RunReportStatus::RecoveryReview => NotificationTemplate {
            title: "Sync Run needs review",
            reason: "Work remains unresolved or crossed an uncertain filesystem boundary.",
            next_action: "Open the Run Report and complete Recovery Review before clearing it.",
        },
        RunReportStatus::ReviewCleared => NotificationTemplate {
            title: "Sync Run review cleared",
            reason: "The required review was explicitly completed after reconciliation.",
            next_action: "Open the Run Report to review the final safety evidence.",
        },
        RunReportStatus::Blocked => NotificationTemplate {
            title: "Sync Run blocked",
            reason: "A safety precheck prevented filesystem mutation.",
            next_action: "Open the Run Report, resolve the blocker, and analyze again.",
        },
        RunReportStatus::InProgress => NotificationTemplate {
            title: "Sync Run started",
            reason: "The approved run is in progress.",
            next_action: "Keep the source protected and review the Run Report when it settles.",
        },
    }
}

/// A desktop notification about one Sync Run.
#[derive(Debug, Clone, PartialEq, Eq)]
pub struct UiNotification {
    title: String,
    reason: String,
    next_action: String,
    run_id: Option<RunId>,
}

impl UiNotification {
    pub closed spec fn title_text(&self) -> Seq<char> {
        self.title@
    }

    pub closed spec fn reason_text(&self) -> Seq<char> {
        self.reason@
    }

    pub closed spec fn next_action_text(&self) -> Seq<char> {
        self.next_action@
    }

    pub closed spec fn spec_run_id(&self) -> Option<RunId> {
        self.run_id
    }

    pub fn title(&self) -> (title: &str)
        ensures
            title@ == self.title_text(),
    {
        self.title.as_str()
    }

    pub fn reason(&self) -> (reason: &str)
        ensures
            reason@ == self.reason_text(),
    {
        self.reason.as_str()
    }

    pub fn next_action(&self) -> (next_action: &str)
        ensures
            next_action@ == self.next_action_text(),
    {
        self.next_action.as_str()
    }

    pub fn run_id(&self) -> (run_id: Option<RunId>)
        ensures
            run_id == self.spec_run_id(),
    {
        self.run_id
    }

    /// A notification carrying the given text, as a scheduler event delivers it.
    pub fn new(title: &str, reason: &str, next_action: &str, run_id: Option<RunId>) -> (notification: UiNotification)
        ensures
            notification.title_text() == title@,
            notification.reason_text() == reason@,
            notification.next_action_text() == next_action@,
            notification.spec_run_id() == run_id,
    {
        UiNotification {
            title: title.to_owned(),
            reason: reason.to_owned(),
            next_action: next_action.to_owned(),
            run_id,
        }
    }
}

/// The notification for a settled or running report.
pub fn notification_for_report(status: RunReportStatus, run_id: RunId) -> (notification: UiNotification)
    ensures
        notification.title_text() == notification_title(status),
        notification.reason_text() == notification_reason(status),
        notification.next_action_text() == notification_next_action(status),
        notification.spec_run_id() == Some(run_id),
{
    let template = notification_template_for_status(status);
    UiNotification::new(template.title, template.reason, template.next_action, Some(run_id))
}

} // verus!
