//! Plan review before Execution Confirmation: the diagnostics of a fresh
//! precheck, the stronger confirmation that high-risk paths ask for, and the
//! order in which a confirmation request is refused.
use vstd::prelude::*;

use crate::diagnostics::{format_profile_diagnostic, profile_diagnostic};
use crate::forms::UiValidationError;
use crate::profile::SyncProfile;
use crate::text::{same_text, trim_text, trimmed};

verus! {

/// A condition the fresh precheck found that forbids execution.
#[derive(Debug, Clone, PartialEq, Eq)]
pub struct PrecheckBlocker {
    pub path: String,
    pub reason: String,
    pub requirement: String,
    pub remediation: String,
}

/// A risk the precheck found on a source path; a high-risk one asks the user
/// to type the exact path before confirming.
#[derive(Debug, Clone, PartialEq, Eq)]
pub struct PathRiskWarning {
    pub source: String,
    pub explanation: String,
    pub requires_stronger_confirmation: bool,
}

/// A destination naming rule that forbids a safe mapping of one item.
#[derive(Debug, Clone, PartialEq, Eq)]
pub struct NamingConflict {
    pub destination_path: String,
    /// The name of the violated naming rule.
    pub rule: String,
}

/// What a fresh precheck reports to the review.
#[derive(Debug, Clone, PartialEq, Eq)]
pub struct ReviewPrecheck {
    pub blockers: Vec<PrecheckBlocker>,
    pub warnings: Vec<PathRiskWarning>,
}

pub open spec fn blocker_reason(blocker: PrecheckBlocker) -> Seq<char> {
    blocker.reason@ + " (requirement: "@ + blocker.requirement@ + ")"@
}

/// The diagnostic of one precheck blocker.
pub fn format_precheck_diagnostic(profile: &SyncProfile, blocker: &PrecheckBlocker) -> (text: String)
    ensures
        text@ == profile_diagnostic(*profile, Some(blocker.path@), blocker_reason(*blocker), blocker.remediation@),
{
    let mut reason = blocker.reason.clone();
    reason.append(" (requirement: ");
    reason.append(blocker.requirement.as_str());
    reason.append(")");
    format_profile_diagnostic(profile, Some(blocker.path.as_str()), reason.as_str(), blocker.remediation.as_str())
}

/// The diagnostic of one path risk warning.
pub fn format_warning_diagnostic(profile: &SyncProfile, warning: &PathRiskWarning) -> (text: String)
    ensures
        text@ == profile_diagnostic(*profile, Some(warning.source@), warning.explanation@,
            "Type the exact displayed source path as stronger confirmation, or disable Safe Delete."@),
{
    format_profile_diagnostic(profile, Some(warning.source.as_str()), warning.explanation.as_str(),
        "Type the exact displayed source path as stronger confirmation, or disable Safe Delete.")
}

pub open spec fn naming_conflict_reason(conflict: NamingConflict) -> Seq<char> {
    "destination naming rule "@ + conflict.rule@ + " prevents a safe mapping"@
}

/// The diagnostic of one destination naming conflict.
pub fn format_naming_conflict_diagnostic(profile: &SyncProfile, conflict: &NamingConflict) -> (text: String)
    ensures
        text@ == profile_diagnostic(*profile, Some(conflict.destination_path@), naming_conflict_reason(*conflict),
            "Rename or exclude the item, or choose compatible destination storage, then run Fresh Analysis again."@),
{
    let mut reason = String::from_str("destination naming rule ");
    reason.append(conflict.rule.as_str());
    reason.append(" prevents a safe mapping");
    format_profile_diagnostic(profile, Some(conflict.destination_path.as_str()), reason.as_str(),
        "Rename or exclude the item, or choose compatible destination storage, then run Fresh Analysis again.")
}

/// The typed path confirms every high-risk warning: it is, once trimmed,
/// exactly the warning's source path.
pub open spec fn stronger_confirmation_holds(typed_path: Seq<char>, warnings: Seq<PathRiskWarning>) -> bool {
    forall|i: int| 0 <= i < warnings.len() && (#[trigger] warnings[i]).requires_stronger_confirmation
        ==> warnings[i].source@ == trimmed(typed_path)
}

pub fn stronger_confirmation_satisfied(typed_path: &str, warnings: &Vec<PathRiskWarning>) -> (satisfied: bool)
    ensures
        satisfied == stronger_confirmation_holds(typed_path@, warnings@),
{
    let typed = trim_text(typed_path);
    let mut index: usize = 0;
    while index < warnings.len()
        invariant
            typed@ == trimmed(typed_path@),
            index <= warnings@.len(),
            forall|i: int| 0 <= i < index && (#[trigger] warnings@[i]).requires_stronger_confirmation
                ==> warnings@[i].source@ == typed@,
        decreases warnings@.len() - index,
    {
        let warning = &warnings[index];
        if warning.requires_stronger_confirmation && !same_text(warning.source.as_str(), typed.as_str()) {
            assert(warnings@[index as int].requires_stronger_confirmation);
            return false;
        }
        index += 1;
    }
    true
}

/// The answer to a request for Execution Confirmation, refused at the first
/// check that fails: a review must exist; the form must still describe a
/// valid profile; a fresh precheck must complete and find no blocker; no
/// item may be unresolved; every high-risk path must be typed exactly; and
/// the analysis must still confirm for the current profile.
pub open spec fn confirmation_outcome(
    has_review: bool,
    profile: Result<SyncProfile, UiValidationError>,
    precheck: Result<ReviewPrecheck, String>,
    unresolved: bool,
    typed_path: Seq<char>,
    analysis: Option<Result<(), String>>,
) -> Result<(), UiValidationError> {
    if !has_review {
        Err(UiValidationError::ReviewNotReady)
    } else {
        match profile {
            Err(error) => Err(error),
            Ok(_) => match precheck {
                Err(message) => Err(UiValidationError::Core(message)),
                Ok(fresh) => if fresh.blockers@.len() > 0 {
                    Err(UiValidationError::PrecheckBlocked)
                } else if unresolved {
                    Err(UiValidationError::UnresolvedItems)
                } else if !stronger_confirmation_holds(typed_path, fresh.warnings@) {
                    Err(UiValidationError::StrongerConfirmationRequired)
                } else {
                    match analysis {
                        None => Err(UiValidationError::ReviewNotReady),
                        Some(Err(message)) => Err(UiValidationError::Analysis(message)),
                        Some(Ok(())) => Ok(()),
                    }
                },
            },
        }
    }
}

/// Decides a request for Execution Confirmation from the review's state,
/// the current form, a fresh precheck and the analysis's own check.
pub fn confirm_review(
    has_review: bool,
    profile: Result<SyncProfile, UiValidationError>,
    precheck: Result<ReviewPrecheck, String>,
    unresolved: bool,
    typed_path: &str,
    analysis: Option<Result<(), String>>,
) -> (result: Result<(), UiValidationError>)
    ensures
        result == confirmation_outcome(has_review, profile, precheck, unresolved, typed_path@, analysis),
        has_review && profile is Ok && (precheck matches Ok(fresh) && fresh.blockers@.len() > 0)
            ==> result == Err::<(), UiValidationError>(UiValidationError::PrecheckBlocked),
        result is Ok ==> has_review && profile is Ok && !unresolved && (analysis matches Some(Ok(_)))
            && (precheck matches Ok(fresh) && fresh.blockers@.len() == 0
                && stronger_confirmation_holds(typed_path@, fresh.warnings@)),
{
    proof {
        blocked_precheck_refuses_confirmation(has_review, profile, precheck, unresolved, typed_path@, analysis);
        confirmed_review_passed_every_check(has_review, profile, precheck, unresolved, typed_path@, analysis);
    }
    if !has_review {
        return Err(UiValidationError::ReviewNotReady);
    }
    if let Err(error) = profile {
        return Err(error);
    }
    let fresh = match precheck {
        Err(message) => return Err(UiValidationError::Core(message)),
        Ok(fresh) => fresh,
    };
    if fresh.blockers.len() > 0 {
        return Err(UiValidationError::PrecheckBlocked);
    }
    if unresolved {
        return Err(UiValidationError::UnresolvedItems);
    }
    if !stronger_confirmation_satisfied(typed_path, &fresh.warnings) {
        return Err(UiValidationError::StrongerConfirmationRequired);
    }
    match analysis {
        None => Err(UiValidationError::ReviewNotReady),
        Some(Err(message)) => Err(UiValidationError::Analysis(message)),
        Some(Ok(())) => Ok(()),
    }
}

/// A fresh precheck that found any blocker refuses Execution Confirmation
/// of an existing review of a valid profile, whatever its warnings, the
/// typed path, the unresolved items or the analysis are.
pub proof fn blocked_precheck_refuses_confirmation(
    has_review: bool,
    profile: Result<SyncProfile, UiValidationError>,
    precheck: Result<ReviewPrecheck, String>,
    unresolved: bool,
    typed_path: Seq<char>,
    analysis: Option<Result<(), String>>,
)
    ensures
        has_review && profile is Ok && (precheck matches Ok(fresh) && fresh.blockers@.len() > 0)
            ==> confirmation_outcome(has_review, profile, precheck, unresolved, typed_path, analysis)
                == Err::<(), UiValidationError>(UiValidationError::PrecheckBlocked),
{
}

/// Execution Confirmation is granted only for an existing review of a valid
/// profile whose fresh precheck completed with no blocker, with no
/// unresolved item, every high-risk path typed exactly, and an analysis
/// that still confirms.
pub proof fn confirmed_review_passed_every_check(
    has_review: bool,
    profile: Result<SyncProfile, UiValidationError>,
    precheck: Result<ReviewPrecheck, String>,
    unresolved: bool,
    typed_path: Seq<char>,
    analysis: Option<Result<(), String>>,
)
    ensures
        confirmation_outcome(has_review, profile, precheck, unresolved, typed_path, analysis) is Ok
            ==> has_review && profile is Ok && !unresolved && (analysis matches Some(Ok(_)))
                && (precheck matches Ok(fresh) && fresh.blockers@.len() == 0
                    && stronger_confirmation_holds(typed_path, fresh.warnings@)),
{
}

} // verus!
