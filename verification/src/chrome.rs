//! Desktop chrome model: sidebar destinations, the Overview summary, and the
//! review notices derived from Run Report statuses.
use vstd::prelude::*;

use crate::status::{run_report_status_phrase, status_phrase, RunReportStatus};

verus! {

/// Desktop chrome destinations. Recovery Review is a notice, not a peer item.
#[derive(Clone, Copy, Debug, PartialEq, Eq, Structural)]
pub enum ChromeSurface {
    Overview,
    Profiles,
    SyncWorkspace,
    Reports,
    Settings,
    Help,
}

/// Selected chrome uses copper; unselected items share muted ink.
#[derive(Clone, Copy, Debug, PartialEq, Eq, Structural)]
pub enum ChromeAccent {
    Muted,
    Copper,
}

#[derive(Clone, Copy, Debug, PartialEq, Eq)]
pub struct SidebarItem {
    pub surface: ChromeSurface,
    pub label: &'static str,
    pub selected: bool,
    pub accent: ChromeAccent,
}

pub const EMPTY_OVERVIEW_EYEBROW: &'static str = "Overview";
pub const EMPTY_OVERVIEW_TITLE: &'static str = "Create a Sync Profile";
pub const EMPTY_OVERVIEW_BODY: &'static str = "SyncPlus reviews a plan and waits for confirmation before anything is overwritten or removed. Create a Sync Profile to choose the folders.";
pub const EMPTY_OVERVIEW_PRIMARY: &'static str = "Create your first profile";

pub const POPULATED_OVERVIEW_EYEBROW: &'static str = "Overview";
pub const NO_SYNC_RUN_YET: &'static str = "No Sync Run yet";
pub const NEXT_ACTION_REVIEW_PLAN: &'static str = "Review the current plan";
pub const NEXT_ACTION_RECOVERY_REVIEW: &'static str = "Open Recovery Review";
pub const PRIMARY_SYNCHRONISE: &'static str = "Synchronise";
pub const PRIMARY_OPEN_RECOVERY: &'static str = "Open Recovery Review";
pub const RECOVERY_REVIEW_NOTICE: &'static str = "Recovery Review required";
pub const REPORTS_REVIEW_BADGE: &'static str = "Review";

#[derive(Clone, Copy, Debug, PartialEq, Eq, Structural)]
pub enum OverviewAction {
    CreateProfile,
    Synchronise,
    OpenRecoveryReview,
}

pub open spec fn overview_action_label(action: OverviewAction) -> Seq<char> {
    match action {
        OverviewAction::CreateProfile => EMPTY_OVERVIEW_PRIMARY@,
        OverviewAction::Synchronise => PRIMARY_SYNCHRONISE@,
        OverviewAction::OpenRecoveryReview => PRIMARY_OPEN_RECOVERY@,
    }
}

impl OverviewAction {
    pub fn label(self) -> (label: &'static str)
        ensures
            label@ == overview_action_label(self),
    {
        match self {
            OverviewAction::CreateProfile => EMPTY_OVERVIEW_PRIMARY,
            OverviewAction::Synchronise => PRIMARY_SYNCHRONISE,
            OverviewAction::OpenRecoveryReview => PRIMARY_OPEN_RECOVERY,
        }
    }
}

#[derive(Clone, Debug, PartialEq, Eq)]
pub struct OverviewModel {
    pub eyebrow: &'static str,
    pub title: String,
    pub body: String,
    pub primary_action: OverviewAction,
    pub last_run: String,
    pub next_safe_action: &'static str,
    pub recovery_notice: Option<&'static str>,
}

/// A status that keeps a run open until Recovery Review is completed.
pub open spec fn requires_recovery_review(status: RunReportStatus) -> bool {
    status == RunReportStatus::RecoveryReview || status == RunReportStatus::Interrupted
}

/// A status whose Run Report still needs an explicit review.
pub open spec fn requires_report_review(status: RunReportStatus) -> bool {
    requires_recovery_review(status) || status == RunReportStatus::CompletedWithReviewRequired
}

pub fn status_requires_recovery_review(status: RunReportStatus) -> (pending: bool)
    ensures
        pending == requires_recovery_review(status),
{
    match status {
        RunReportStatus::RecoveryReview | RunReportStatus::Interrupted => true,
        _ => false,
    }
}

pub fn status_requires_report_review(status: RunReportStatus) -> (pending: bool)
    ensures
        pending == requires_report_review(status),
{
    status_requires_recovery_review(status) || status == RunReportStatus::CompletedWithReviewRequired
}

pub fn recovery_review_is_pending(statuses: &[RunReportStatus]) -> (pending: bool)
    ensures
        pending == exists|i: int| 0 <= i < statuses@.len() && requires_recovery_review(#[trigger] statuses@[i]),
{
    let mut index: usize = 0;
    while index < statuses.len()
        invariant
            index <= statuses@.len(),
            forall|j: int| 0 <= j < index ==> !requires_recovery_review(#[trigger] statuses@[j]),
        decreases statuses@.len() - index,
    {
        if status_requires_recovery_review(statuses[index]) {
            return true;
        }
        index += 1;
    }
    false
}

pub fn report_review_is_pending(statuses: &[RunReportStatus]) -> (pending: bool)
    ensures
        pending == exists|i: int| 0 <= i < statuses@.len() && requires_report_review(#[trigger] statuses@[i]),
{
    let mut index: usize = 0;
    while index < statuses.len()
        invariant
            index <= statuses@.len(),
            forall|j: int| 0 <= j < index ==> !requires_report_review(#[trigger] statuses@[j]),
        decreases statuses@.len() - index,
    {
        if status_requires_report_review(statuses[index]) {
            return true;
        }
        index += 1;
    }
    false
}

/// The fixed order of the six sidebar destinations.
pub open spec fn sidebar_surface(index: int) -> ChromeSurface {
    if index == 0 {
        ChromeSurface::Overview
    } else if index == 1 {
        ChromeSurface::Profiles
    } else if index == 2 {
        ChromeSurface::SyncWorkspace
    } else if index == 3 {
        ChromeSurface::Reports
    } else if index == 4 {
        ChromeSurface::Settings
    } else {
        ChromeSurface::Help
    }
}

pub open spec fn surface_label(surface: ChromeSurface) -> Seq<char> {
    match surface {
        ChromeSurface::Overview => "Overview"@,
        ChromeSurface::Profiles => "Profiles"@,
        ChromeSurface::SyncWorkspace => "Sync workspace"@,
        ChromeSurface::Reports => "Run Reports"@,
        ChromeSurface::Settings => "Settings"@,
        ChromeSurface::Help => "Help & Support"@,
    }
}

fn sidebar_item(surface: ChromeSurface, label: &'static str, current: ChromeSurface) -> (item: SidebarItem)
    ensures
        item.surface == surface,
        item.label == label,
        item.selected == (surface == current),
        item.accent == (if surface == current { ChromeAccent::Copper } else { ChromeAccent::Muted }),
{
    let selected = surface == current;
    SidebarItem {
        surface,
        label,
        selected,
        accent: if selected { ChromeAccent::Copper } else { ChromeAccent::Muted },
    }
}

pub fn sidebar_items(current: ChromeSurface) -> (items: Vec<SidebarItem>)
    ensures
        items@.len() == 6,
        forall|i: int| 0 <= i < 6 ==> {
            &&& (#[trigger] items@[i]).surface == sidebar_surface(i)
            &&& items@[i].label@ == surface_label(sidebar_surface(i))
            &&& items@[i].selected == (sidebar_surface(i) == current)
            &&& items@[i].accent == (if items@[i].selected { ChromeAccent::Copper } else { ChromeAccent::Muted })
        },
{
    let mut items: Vec<SidebarItem> = Vec::new();
    items.push(sidebar_item(ChromeSurface::Overview, "Overview", current));
    items.push(sidebar_item(ChromeSurface::Profiles, "Profiles", current));
    items.push(sidebar_item(ChromeSurface::SyncWorkspace, "Sync workspace", current));
    items.push(sidebar_item(ChromeSurface::Reports, "Run Reports", current));
    items.push(sidebar_item(ChromeSurface::Settings, "Settings", current));
    items.push(sidebar_item(ChromeSurface::Help, "Help & Support", current));
    items
}

/// Exactly one sidebar destination is selected, it is the current surface,
/// and it alone carries the copper accent; Recovery Review is never one of
/// the destinations.
pub proof fn sidebar_selects_exactly_the_current_surface(current: ChromeSurface)
    ensures
        exists|i: int| 0 <= i < 6 && sidebar_surface(i) == current,
        forall|i: int, j: int|
            0 <= i < 6 && 0 <= j < 6 && sidebar_surface(i) == current && sidebar_surface(j) == current
                ==> i == j,
        forall|i: int| 0 <= i < 6 ==> surface_label(#[trigger] sidebar_surface(i)) != "Recovery Review"@,
{
    let witness: int = match current {
        ChromeSurface::Overview => 0,
        ChromeSurface::Profiles => 1,
        ChromeSurface::SyncWorkspace => 2,
        ChromeSurface::Reports => 3,
        ChromeSurface::Settings => 4,
        ChromeSurface::Help => 5,
    };
    assert(sidebar_surface(witness) == current);
    assert forall|i: int| 0 <= i < 6 implies surface_label(#[trigger] sidebar_surface(i)) != "Recovery Review"@ by {
        reveal_strlit("Recovery Review");
        reveal_strlit("Overview");
        reveal_strlit("Profiles");
        reveal_strlit("Sync workspace");
        reveal_strlit("Run Reports");
        reveal_strlit("Settings");
        reveal_strlit("Help & Support");
        assert("Recovery Review"@.len() == 15);
    }
}

pub fn recovery_review_notice(pending: bool) -> (notice: Option<&'static str>)
    ensures
        pending ==> notice == Some(RECOVERY_REVIEW_NOTICE),
        !pending ==> notice.is_none(),
{
    if pending { Some(RECOVERY_REVIEW_NOTICE) } else { None }
}

pub fn reports_badge(pending: bool) -> (badge: Option<&'static str>)
    ensures
        pending ==> badge == Some(REPORTS_REVIEW_BADGE),
        !pending ==> badge.is_none(),
{
    if pending { Some(REPORTS_REVIEW_BADGE) } else { None }
}

pub fn empty_overview() -> (overview: OverviewModel)
    ensures
        overview.eyebrow == EMPTY_OVERVIEW_EYEBROW,
        overview.title@ == EMPTY_OVERVIEW_TITLE@,
        overview.body@ == EMPTY_OVERVIEW_BODY@,
        overview.primary_action == OverviewAction::CreateProfile,
        overview.last_run@ == NO_SYNC_RUN_YET@,
        overview.next_safe_action == EMPTY_OVERVIEW_PRIMARY,
        overview.recovery_notice.is_none(),
{
    OverviewModel {
        eyebrow: EMPTY_OVERVIEW_EYEBROW,
        title: EMPTY_OVERVIEW_TITLE.to_owned(),
        body: EMPTY_OVERVIEW_BODY.to_owned(),
        primary_action: OverviewAction::CreateProfile,
        last_run: NO_SYNC_RUN_YET.to_owned(),
        next_safe_action: EMPTY_OVERVIEW_PRIMARY,
        recovery_notice: None,
    }
}

/// The "last run" line of the Overview.
pub open spec fn last_run_text(status: Option<RunReportStatus>) -> Seq<char> {
    match status {
        None => NO_SYNC_RUN_YET@,
        Some(status) => "Last Sync Run · "@ + status_phrase(status),
    }
}

pub fn last_run_label(status: Option<RunReportStatus>) -> (label: String)
    ensures
        label@ == last_run_text(status),
{
    match status {
        None => NO_SYNC_RUN_YET.to_owned(),
        Some(status) => {
            let mut label = String::from_str("Last Sync Run · ");
            label.append(run_report_status_phrase(status));
            label
        },
    }
}

/// The Overview body: mode, last run and the next safe action.
pub open spec fn overview_body(mode_label: Seq<char>, last_run: Seq<char>, next_safe_action: Seq<char>) -> Seq<char> {
    mode_label + ". "@ + last_run + ". Next safe action: "@ + next_safe_action + "."@
}

pub fn populated_overview(
    profile_name: &str,
    mode_label: &str,
    last_run: Option<RunReportStatus>,
    recovery_pending: bool,
) -> (overview: OverviewModel)
    ensures
        overview.eyebrow == POPULATED_OVERVIEW_EYEBROW,
        overview.title@ == profile_name@,
        overview.last_run@ == last_run_text(last_run),
        recovery_pending ==> {
            &&& overview.next_safe_action == NEXT_ACTION_RECOVERY_REVIEW
            &&& overview.primary_action == OverviewAction::OpenRecoveryReview
            &&& overview.recovery_notice == Some(RECOVERY_REVIEW_NOTICE)
        },
        !recovery_pending ==> {
            &&& overview.next_safe_action == NEXT_ACTION_REVIEW_PLAN
            &&& overview.primary_action == OverviewAction::Synchronise
            &&& overview.recovery_notice.is_none()
        },
        overview.body@ == overview_body(mode_label@, last_run_text(last_run), overview.next_safe_action@),
{
    let last_run = last_run_label(last_run);
    let (next_safe_action, primary_action, recovery_notice) = if recovery_pending {
        (NEXT_ACTION_RECOVERY_REVIEW, OverviewAction::OpenRecoveryReview, Some(RECOVERY_REVIEW_NOTICE))
    } else {
        (NEXT_ACTION_REVIEW_PLAN, OverviewAction::Synchronise, None)
    };
    let mut body = String::from_str(mode_label);
    body.append(". ");
    body.append(last_run.as_str());
    body.append(". Next safe action: ");
    body.append(next_safe_action);
    body.append(".");
    OverviewModel {
        eyebrow: POPULATED_OVERVIEW_EYEBROW,
        title: profile_name.to_owned(),
        body,
        primary_action,
        last_run,
        next_safe_action,
        recovery_notice,
    }
}

pub open spec fn step_caption(selected: bool, completed: bool) -> Seq<char> {
    if selected {
        "Current step"@
    } else if completed {
        "Complete"@
    } else {
        "Upcoming"@
    }
}

pub fn wizard_step_caption(selected: bool, completed: bool) -> (caption: &'static str)
    ensures
        caption@ == step_caption(selected, completed),
{
    if selected {
        "Current step"
    } else if completed {
        "Complete"
    } else {
        "Upcoming"
    }
}

} // verus!
