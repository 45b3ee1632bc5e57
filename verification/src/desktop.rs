//! Window, tray and wizard decisions of the desktop shell.
use vstd::prelude::*;

verus! {

pub const MISSED_SCHEDULE_RUN_NOW_LABEL: &'static str = "Yes, Run Now";
pub const MISSED_SCHEDULE_NOT_NOW_LABEL: &'static str = "No, Not Now";
pub const PATH_RISK_WARNING_LABEL: &'static str = "Path Risk Warning";
pub const QUIT_ACTIVE_RUN_COPY: &'static str = "Stop and Quit requests cancellation. The core workflow records the cancellation boundary, preserves affected source data, and may leave the Run Report in Recovery Review.";
pub const QUIT_STOPPING_COPY: &'static str = "SyncPlus will quit only after the durable cancellation boundary is recorded. The Run Report remains available for Recovery Review.";

#[derive(Debug, Clone, Copy, PartialEq, Eq, Structural)]
pub enum WindowCloseDecision {
    HideToTray,
    KeepVisible,
}

/// Closing the window hides it to the tray when a tray exists; work keeps running.
pub fn window_close_decision(tray_available: bool) -> (decision: WindowCloseDecision)
    ensures
        tray_available ==> decision == WindowCloseDecision::HideToTray,
        !tray_available ==> decision == WindowCloseDecision::KeepVisible,
{
    if tray_available {
        WindowCloseDecision::HideToTray
    } else {
        WindowCloseDecision::KeepVisible
    }
}

#[derive(Debug, Clone, Copy, PartialEq, Eq, Structural)]
pub enum QuitDecision {
    Exit,
    AskBeforeStopping,
}

/// Quitting asks first only while a manual run is active.
pub fn quit_decision(manual_run_active: bool) -> (decision: QuitDecision)
    ensures
        manual_run_active ==> decision == QuitDecision::AskBeforeStopping,
        !manual_run_active ==> decision == QuitDecision::Exit,
{
    if manual_run_active {
        QuitDecision::AskBeforeStopping
    } else {
        QuitDecision::Exit
    }
}

/// The four steps of the new-profile wizard, in order.
#[derive(Debug, Clone, Copy, PartialEq, Eq, Structural)]
pub enum ProfileWizardStep {
    SyncMethod,
    SourceEndpoint,
    DestinationEndpoint,
    ReviewAndSave,
}

pub open spec fn step_number(step: ProfileWizardStep) -> int {
    match step {
        ProfileWizardStep::SyncMethod => 1,
        ProfileWizardStep::SourceEndpoint => 2,
        ProfileWizardStep::DestinationEndpoint => 3,
        ProfileWizardStep::ReviewAndSave => 4,
    }
}

pub open spec fn step_title(step: ProfileWizardStep) -> Seq<char> {
    match step {
        ProfileWizardStep::SyncMethod => "Sync method"@,
        ProfileWizardStep::SourceEndpoint => "Source folder"@,
        ProfileWizardStep::DestinationEndpoint => "Destination folder"@,
        ProfileWizardStep::ReviewAndSave => "Review & save"@,
    }
}

pub open spec fn step_previous(step: ProfileWizardStep) -> Option<ProfileWizardStep> {
    match step {
        ProfileWizardStep::SyncMethod => None,
        ProfileWizardStep::SourceEndpoint => Some(ProfileWizardStep::SyncMethod),
        ProfileWizardStep::DestinationEndpoint => Some(ProfileWizardStep::SourceEndpoint),
        ProfileWizardStep::ReviewAndSave => Some(ProfileWizardStep::DestinationEndpoint),
    }
}

pub open spec fn step_next(step: ProfileWizardStep) -> Option<ProfileWizardStep> {
    match step {
        ProfileWizardStep::SyncMethod => Some(ProfileWizardStep::SourceEndpoint),
        ProfileWizardStep::SourceEndpoint => Some(ProfileWizardStep::DestinationEndpoint),
        ProfileWizardStep::DestinationEndpoint => Some(ProfileWizardStep::ReviewAndSave),
        ProfileWizardStep::ReviewAndSave => None,
    }
}

impl ProfileWizardStep {
    pub fn number(self) -> (number: usize)
        ensures
            number == step_number(self),
    {
        match self {
            ProfileWizardStep::SyncMethod => 1,
            ProfileWizardStep::SourceEndpoint => 2,
            ProfileWizardStep::DestinationEndpoint => 3,
            ProfileWizardStep::ReviewAndSave => 4,
        }
    }

    pub fn title(self) -> (title: &'static str)
        ensures
            title@ == step_title(self),
    {
        match self {
            ProfileWizardStep::SyncMethod => "Sync method",
            ProfileWizardStep::SourceEndpoint => "Source folder",
            ProfileWizardStep::DestinationEndpoint => "Destination folder",
            ProfileWizardStep::ReviewAndSave => "Review & save",
        }
    }

    pub fn previous(self) -> (previous: Option<ProfileWizardStep>)
        ensures
            previous == step_previous(self),
    {
        match self {
            ProfileWizardStep::SyncMethod => None,
            ProfileWizardStep::SourceEndpoint => Some(ProfileWizardStep::SyncMethod),
            ProfileWizardStep::DestinationEndpoint => Some(ProfileWizardStep::SourceEndpoint),
            ProfileWizardStep::ReviewAndSave => Some(ProfileWizardStep::DestinationEndpoint),
        }
    }

    pub fn next(self) -> (next: Option<ProfileWizardStep>)
        ensures
            next == step_next(self),
    {
        match self {
            ProfileWizardStep::SyncMethod => Some(ProfileWizardStep::SourceEndpoint),
            ProfileWizardStep::SourceEndpoint => Some(ProfileWizardStep::DestinationEndpoint),
            ProfileWizardStep::DestinationEndpoint => Some(ProfileWizardStep::ReviewAndSave),
            ProfileWizardStep::ReviewAndSave => None,
        }
    }
}

/// Moving forward and then back through the wizard returns to the same
/// step, every forward move advances the step number by exactly one, and the
/// wizard starts at step 1 and ends at step 4.
pub proof fn wizard_steps_form_one_ordered_path(step: ProfileWizardStep)
    ensures
        step_next(step) matches Some(next) ==> step_previous(next) == Some(step)
            && step_number(next) == step_number(step) + 1,
        step_previous(step) matches Some(previous) ==> step_next(previous) == Some(step),
        step_previous(step).is_none() <==> step_number(step) == 1,
        step_next(step).is_none() <==> step_number(step) == 4,
{
}

} // verus!
