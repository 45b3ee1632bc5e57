use vstd::prelude::*;

verus! {

/// Lifecycle status of a persisted Run Report.
#[derive(Clone, Copy, Debug, PartialEq, Eq, Structural)]
pub enum RunReportStatus {
    InProgress,
    Completed,
    Failed,
    Cancelled,
    Interrupted,
    Blocked,
    CompletedWithReviewRequired,
    RecoveryReview,
    ReviewCleared,
}

/// The phrase shown for a status wherever a Run Report is summarised.
pub open spec fn status_phrase(status: RunReportStatus) -> Seq<char> {
    match status {
        RunReportStatus::InProgress => "In progress"@,
        RunReportStatus::Completed => "Completed"@,
        RunReportStatus::Failed => "Failed"@,
        RunReportStatus::Cancelled => "Cancelled"@,
        RunReportStatus::Interrupted => "Interrupted"@,
        RunReportStatus::Blocked => "Blocked"@,
        RunReportStatus::CompletedWithReviewRequired => "Pending review"@,
        RunReportStatus::RecoveryReview => "Recovery Review required"@,
        RunReportStatus::ReviewCleared => "Review cleared"@,
    }
}

pub fn run_report_status_phrase(status: RunReportStatus) -> (phrase: &'static str)
    ensures
        phrase@ == status_phrase(status),
{
    match status {
        RunReportStatus::InProgress => "In progress",
        RunReportStatus::Completed => "Completed",
        RunReportStatus::Failed => "Failed",
        RunReportStatus::Cancelled => "Cancelled",
        RunReportStatus::Interrupted => "Interrupted",
        RunReportStatus::Blocked => "Blocked",
        RunReportStatus::CompletedWithReviewRequired => "Pending review",
        RunReportStatus::RecoveryReview => "Recovery Review required",
        RunReportStatus::ReviewCleared => "Review cleared",
    }
}

} // verus!
