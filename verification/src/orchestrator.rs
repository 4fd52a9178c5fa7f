//! Top-level coordination as a step function. A run walks through
//! Resolving, Downloading, Saving and Finished; each step consumes the
//! conclusion of the work the previous step asked for and says what to do
//! next. The surrounding program performs the actions — start the indicator
//! and issue the GET, write the file, stop the indicator and report — and
//! feeds their conclusions back in as events. Stopping the indicator and
//! reporting the outcome are one action, so the stop always happens before
//! anything is printed; a failed resolution finishes the run before the
//! indicator or the network is ever touched.

use vstd::prelude::*;
use vstd::pervasive::unreached;
use vstd::string::StringExecFns;

use crate::errors::PickError;
use crate::errors::error_message_of;
use crate::fetcher::DownloadResult;
use crate::fetcher::build_url;
use crate::fetcher::request_url_of;
use crate::resolver::ResolvedTarget;
use crate::saver::join_path;
use crate::saver::saved_path_of;

verus! {

/// What the user asked for: the input path, the branch, and the destination
/// directory.
pub struct RunConfig {
    pub path: String,
    pub branch: String,
    pub dest: String,
}

/// How a run ends: the file saved, named by its locator and its local path,
/// or a failure with its description.
pub enum Outcome {
    Saved { locator: String, dest_path: String },
    Failed { message: String },
}

/// Where a run stands: waiting for the path to resolve, for the download to
/// conclude, for the write to conclude, or finished.
pub enum RunState {
    Resolving,
    Downloading { target: ResolvedTarget },
    Saving { target: ResolvedTarget, content: String },
    Finished { outcome: Outcome },
}

/// The conclusion of the work the previous step asked for.
pub enum RunEvent {
    PathResolved { result: Result<ResolvedTarget, PickError> },
    DownloadFinished { result: DownloadResult },
    WriteFinished { result: Result<(), PickError> },
}

/// What to do next. Exactly one action comes out of each step.
pub enum RunAction {
    /// Start the indicator with the status message and issue the GET for
    /// `url`; `locator` names the resource for diagnostics.
    StartIndicatorAndFetch { url: String, status_message: String, locator: String },
    /// Create the destination directory if absent and write `content` to
    /// `dest_path`, overwriting.
    WriteFile { dest_path: String, content: String },
    /// Stop and erase the indicator, then — and only then — report the
    /// outcome.
    StopIndicatorAndReport { outcome: Outcome },
    /// Report a usage error; the indicator was never started.
    ReportUsageError { message: String },
}

/// Which event a state awaits.
pub open spec fn event_fits(state: RunState, event: RunEvent) -> bool {
    match (state, event) {
        (RunState::Resolving, RunEvent::PathResolved { .. }) => true,
        (RunState::Downloading { .. }, RunEvent::DownloadFinished { .. }) => true,
        (RunState::Saving { .. }, RunEvent::WriteFinished { .. }) => true,
        _ => false,
    }
}

/// The status message shown while fetching: the word and the input path.
pub open spec fn fetching_message(path: Seq<char>) -> Seq<char> {
    "Fetching "@ + path
}

/// The confirmation printed on success: the remote locator, where the file
/// was saved, and the completion marker.
pub open spec fn success_message(locator: Seq<char>, dest_path: Seq<char>) -> Seq<char> {
    locator + " saved to "@ + dest_path + "\nDone!"@
}

/// What the step after a successful resolution yields: remember the target,
/// start the indicator, and fetch the target's URL.
pub open spec fn step_resolved_ok(
    config: RunConfig,
    target: ResolvedTarget,
    next: RunState,
    action: RunAction,
) -> bool {
    &&& next == (RunState::Downloading { target })
    &&& action matches RunAction::StartIndicatorAndFetch { url, status_message, locator }
        && url@ == request_url_of(target.remote_locator@) && status_message@ == fetching_message(
        config.path@,
    ) && locator@ == target.remote_locator@
}

/// What the step after a failed resolution yields: the run is over, and the
/// only action reports the usage error — the indicator is never started and
/// no request is issued.
pub open spec fn step_resolved_err(e: PickError, next: RunState, action: RunAction) -> bool {
    &&& next matches RunState::Finished { outcome } && outcome matches Outcome::Failed { message }
        && message@ == error_message_of(e)
    &&& action matches RunAction::ReportUsageError { message } && message@ == error_message_of(e)
}

/// What the step after a successful download yields: keep the content and
/// write it to the joined destination path.
pub open spec fn step_fetched_ok(
    config: RunConfig,
    target: ResolvedTarget,
    content: String,
    next: RunState,
    action: RunAction,
) -> bool {
    &&& next == (RunState::Saving { target, content })
    &&& action matches RunAction::WriteFile { dest_path, content: c } && dest_path@
        == saved_path_of(config.dest@, target.local_file_name@) && c@ == content@
}

/// What a failure while the indicator runs yields: the run is over, and the
/// one action stops the indicator and then reports the failure — nothing is
/// written.
pub open spec fn step_failed_while_running(e: PickError, next: RunState, action: RunAction) -> bool {
    &&& next matches RunState::Finished { outcome } && outcome matches Outcome::Failed { message }
        && message@ == error_message_of(e)
    &&& action matches RunAction::StopIndicatorAndReport { outcome } && outcome matches Outcome::Failed {
        message,
    } && message@ == error_message_of(e)
}

/// The successful outcome: the target's locator and its saved path.
pub open spec fn saved_outcome(config: RunConfig, target: ResolvedTarget, outcome: Outcome) -> bool {
    outcome matches Outcome::Saved { locator, dest_path } && locator@ == target.remote_locator@
        && dest_path@ == saved_path_of(config.dest@, target.local_file_name@)
}

/// What the step after a successful write yields: the run is over, and the
/// one action stops the indicator and then reports the saved file.
pub open spec fn step_saved_ok(
    config: RunConfig,
    target: ResolvedTarget,
    next: RunState,
    action: RunAction,
) -> bool {
    &&& next matches RunState::Finished { outcome } && saved_outcome(config, target, outcome)
    &&& action matches RunAction::StopIndicatorAndReport { outcome } && saved_outcome(
        config,
        target,
        outcome,
    )
}

/// Check, outside any contract, that an event is the one the state awaits.
/// The caller of `step` tests this first.
pub fn event_fits_check(state: &RunState, event: &RunEvent) -> (r: bool)
    ensures
        r == event_fits(*state, *event),
{
    match (state, event) {
        (RunState::Resolving, RunEvent::PathResolved { .. }) => true,
        (RunState::Downloading { .. }, RunEvent::DownloadFinished { .. }) => true,
        (RunState::Saving { .. }, RunEvent::WriteFinished { .. }) => true,
        _ => false,
    }
}

/// One step of the run: consume the event the state awaits, move to the
/// next state, and say what to do next.
pub fn step(config: &RunConfig, state: RunState, event: RunEvent) -> (r: (RunState, RunAction))
    requires
        event_fits(state, event),
    ensures
        ({
            match (state, event) {
                (RunState::Resolving, RunEvent::PathResolved { result }) => match result {
                    Ok(target) => step_resolved_ok(*config, target, r.0, r.1),
                    Err(e) => step_resolved_err(e, r.0, r.1),
                },
                (RunState::Downloading { target }, RunEvent::DownloadFinished { result }) => match result {
                    DownloadResult::Success { content } => step_fetched_ok(
                        *config,
                        target,
                        content,
                        r.0,
                        r.1,
                    ),
                    DownloadResult::Failure { error } => step_failed_while_running(error, r.0, r.1),
                },
                (RunState::Saving { target, .. }, RunEvent::WriteFinished { result }) => match result {
                    Ok(_) => step_saved_ok(*config, target, r.0, r.1),
                    Err(e) => step_failed_while_running(e, r.0, r.1),
                },
                _ => false,
            }
        }),
{
    match (state, event) {
        (RunState::Resolving, RunEvent::PathResolved { result }) => match result {
            Ok(target) => {
                let url = build_url(target.remote_locator.as_str());
                let locator = target.remote_locator.clone();
                let mut status_message = String::from_str("Fetching ");
                status_message.append(config.path.as_str());
                let action = RunAction::StartIndicatorAndFetch { url, status_message, locator };
                (RunState::Downloading { target }, action)
            },
            Err(e) => {
                let message = e.describe();
                let reported = message.clone();
                (
                    RunState::Finished { outcome: Outcome::Failed { message } },
                    RunAction::ReportUsageError { message: reported },
                )
            },
        },
        (RunState::Downloading { target }, RunEvent::DownloadFinished { result }) => match result {
            DownloadResult::Success { content } => {
                let dest_path = join_path(config.dest.as_str(), target.local_file_name.as_str());
                let written = content.clone();
                (
                    RunState::Saving { target, content },
                    RunAction::WriteFile { dest_path, content: written },
                )
            },
            DownloadResult::Failure { error } => {
                let message = error.describe();
                let reported = message.clone();
                (
                    RunState::Finished { outcome: Outcome::Failed { message } },
                    RunAction::StopIndicatorAndReport {
                        outcome: Outcome::Failed { message: reported },
                    },
                )
            },
        },
        (RunState::Saving { target, content: _ }, RunEvent::WriteFinished { result }) => match result {
            Ok(_) => {
                let dest_path = join_path(config.dest.as_str(), target.local_file_name.as_str());
                let kept_path = dest_path.clone();
                let locator = target.remote_locator.clone();
                let kept_locator = target.remote_locator;
                (
                    RunState::Finished {
                        outcome: Outcome::Saved { locator: kept_locator, dest_path: kept_path },
                    },
                    RunAction::StopIndicatorAndReport {
                        outcome: Outcome::Saved { locator, dest_path },
                    },
                )
            },
            Err(e) => {
                let message = e.describe();
                let reported = message.clone();
                (
                    RunState::Finished { outcome: Outcome::Failed { message } },
                    RunAction::StopIndicatorAndReport {
                        outcome: Outcome::Failed { message: reported },
                    },
                )
            },
        },
        _ => unreached(),
    }
}

impl Outcome {
    /// Render the final report: the confirmation line with the locator, the
    /// saved path and the completion marker on success, or the failure's
    /// description.
    pub fn render(&self) -> (s: String)
        ensures
            self matches Outcome::Saved { locator, dest_path } ==> s@ == success_message(
                locator@,
                dest_path@,
            ),
            self matches Outcome::Failed { message } ==> s@ == message@,
    {
        match self {
            Outcome::Saved { locator, dest_path } => {
                let mut s = locator.clone();
                s.append(" saved to ");
                s.append(dest_path.as_str());
                s.append("\nDone!");
                s
            },
            Outcome::Failed { message } => message.clone(),
        }
    }
}

/// A failed resolution ends the run at once: the step's action is the usage
/// report — it does not start the indicator, issue a request, or write a
/// file.
pub proof fn lemma_invalid_path_stops_run(e: PickError, next: RunState, action: RunAction)
    requires
        step_resolved_err(e, next, action),
    ensures
        next is Finished,
        !(action is StartIndicatorAndFetch),
        !(action is WriteFile),
        !(action is StopIndicatorAndReport),
{
}

/// The save runs only after a successful download: a failure while the
/// indicator runs finishes the run, writes nothing, and its one action
/// stops the indicator before the report.
pub proof fn lemma_failure_skips_save(e: PickError, next: RunState, action: RunAction)
    requires
        step_failed_while_running(e, next, action),
    ensures
        next is Finished,
        !(action is WriteFile),
        action is StopIndicatorAndReport,
{
}

} // verus!
