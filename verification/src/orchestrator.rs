//! Decides, step by step, how a build run proceeds: generate the scripts,
//! make the wrapper available, invoke it, report. The caller carries out each
//! step and reports back what happened.

use vstd::prelude::*;
use crate::bootstrap::Platform;

verus! {

/// Where a run stands.
#[derive(Debug, Clone, Copy, PartialEq, Eq, Structural)]
pub enum Stage {
    Idle,
    GeneratingScripts,
    BootstrappingEngine,
    Invoking,
    Success,
    Failure,
}

/// What can go wrong while a step is carried out.
#[derive(Debug, Clone, Copy, PartialEq, Eq, Structural)]
pub enum Fault {
    /// The manifest could not be read or parsed.
    Manifest,
    /// A directory or file could not be created or written, or the archive
    /// could not be extracted.
    Io,
    /// The wrapper could not be started.
    BuildProcess,
}

/// What the caller reports back.
#[derive(Debug, Clone, Copy, PartialEq, Eq, Structural)]
pub enum Event {
    /// The run is asked to begin.
    Start,
    /// Both scripts are written.
    ScriptsWritten,
    /// The wrapper distribution is in place; says whether the launcher is.
    EngineReady { launcher_present: bool },
    /// The wrapper ran and exited; says whether its exit status was zero.
    ProcessExited { success: bool },
    /// The current step failed.
    Failed(Fault),
}

/// Why a run ended in failure.
#[derive(Debug, Clone, Copy, PartialEq, Eq, Structural)]
pub enum Cause {
    /// A step failed.
    Fault(Fault),
    /// The launcher is missing although the distribution was installed.
    EngineMissing,
    /// The wrapper ran and exited with a status other than zero.
    BuildFailed,
    /// An event was reported that the current stage does not expect.
    UnexpectedEvent,
}

/// What the caller is to do next.
#[derive(Debug, Clone, Copy, PartialEq, Eq, Structural)]
pub enum Action {
    /// Read the manifest and write the two scripts.
    GenerateScripts,
    /// Make sure the wrapper distribution is in the cache directory.
    BootstrapEngine,
    /// Run the launcher in the project directory.
    InvokeBuild,
    /// Report that the build succeeded.
    ReportSuccess,
    /// Report that the run failed.
    ReportFailure(Cause),
    /// The run is over; nothing is left to do.
    Halt,
}

/// Whether a run that stands here is over.
pub open spec fn is_terminal(stage: Stage) -> bool {
    stage == Stage::Success || stage == Stage::Failure
}

/// How far a stage is along the run.
pub open spec fn stage_rank(stage: Stage) -> nat {
    match stage {
        Stage::Idle => 0,
        Stage::GeneratingScripts => 1,
        Stage::BootstrappingEngine => 2,
        Stage::Invoking => 3,
        Stage::Success => 4,
        Stage::Failure => 4,
    }
}

/// The stage that follows and the step to take, for each stage and event.
pub open spec fn transition(stage: Stage, event: Event) -> (Stage, Action) {
    match (stage, event) {
        (Stage::Success, _) => (Stage::Success, Action::Halt),
        (Stage::Failure, _) => (Stage::Failure, Action::Halt),
        (_, Event::Failed(fault)) => (Stage::Failure, Action::ReportFailure(Cause::Fault(fault))),
        (Stage::Idle, Event::Start) => (Stage::GeneratingScripts, Action::GenerateScripts),
        (Stage::GeneratingScripts, Event::ScriptsWritten) => (
            Stage::BootstrappingEngine,
            Action::BootstrapEngine,
        ),
        (Stage::BootstrappingEngine, Event::EngineReady { launcher_present }) => if launcher_present {
            (Stage::Invoking, Action::InvokeBuild)
        } else {
            (Stage::Failure, Action::ReportFailure(Cause::EngineMissing))
        },
        (Stage::Invoking, Event::ProcessExited { success }) => if success {
            (Stage::Success, Action::ReportSuccess)
        } else {
            (Stage::Failure, Action::ReportFailure(Cause::BuildFailed))
        },
        _ => (Stage::Failure, Action::ReportFailure(Cause::UnexpectedEvent)),
    }
}

/// Advances a run by one event.
pub fn advance(stage: Stage, event: Event) -> (r: (Stage, Action))
    ensures
        r == transition(stage, event),
{
    match stage {
        Stage::Success => (Stage::Success, Action::Halt),
        Stage::Failure => (Stage::Failure, Action::Halt),
        _ => match event {
            Event::Failed(fault) => (Stage::Failure, Action::ReportFailure(Cause::Fault(fault))),
            Event::Start => match stage {
                Stage::Idle => (Stage::GeneratingScripts, Action::GenerateScripts),
                _ => (Stage::Failure, Action::ReportFailure(Cause::UnexpectedEvent)),
            },
            Event::ScriptsWritten => match stage {
                Stage::GeneratingScripts => (Stage::BootstrappingEngine, Action::BootstrapEngine),
                _ => (Stage::Failure, Action::ReportFailure(Cause::UnexpectedEvent)),
            },
            Event::EngineReady { launcher_present } => match stage {
                Stage::BootstrappingEngine => if launcher_present {
                    (Stage::Invoking, Action::InvokeBuild)
                } else {
                    (Stage::Failure, Action::ReportFailure(Cause::EngineMissing))
                },
                _ => (Stage::Failure, Action::ReportFailure(Cause::UnexpectedEvent)),
            },
            Event::ProcessExited { success } => match stage {
                Stage::Invoking => if success {
                    (Stage::Success, Action::ReportSuccess)
                } else {
                    (Stage::Failure, Action::ReportFailure(Cause::BuildFailed))
                },
                _ => (Stage::Failure, Action::ReportFailure(Cause::UnexpectedEvent)),
            },
        },
    }
}

/// A run only moves forward: every event takes a run that is not over to a
/// later stage, so no stage is entered twice, and a run that is over stays
/// where it is with nothing left to do.
pub proof fn lemma_no_stage_reentered(stage: Stage, event: Event)
    ensures
        !is_terminal(stage) ==> stage_rank(transition(stage, event).0) > stage_rank(stage),
        is_terminal(stage) ==> transition(stage, event) == (stage, Action::Halt),
{
}

/// A failure reported at any stage of a run that is not over ends the run.
pub proof fn lemma_failure_ends_run(stage: Stage, fault: Fault)
    requires
        !is_terminal(stage),
    ensures
        transition(stage, Event::Failed(fault)) == (
            Stage::Failure,
            Action::ReportFailure(Cause::Fault(fault)),
        ),
{
}

/// The name of the launcher inside the wrapper distribution.
pub open spec fn launcher_file(platform: Platform) -> Seq<char> {
    match platform {
        Platform::Posix => "gradlew"@,
        Platform::Windows => "gradlew.bat"@,
    }
}

/// The name of the launcher for a platform.
pub fn launcher_name(platform: Platform) -> (name: &'static str)
    ensures
        name@ == launcher_file(platform),
{
    match platform {
        Platform::Posix => "gradlew",
        Platform::Windows => "gradlew.bat",
    }
}

/// The arguments the launcher is run with: a clean step, then the step that
/// produces the artifact.
pub fn build_arguments() -> (args: Vec<&'static str>)
    ensures
        args@.len() == 2,
        args@[0]@ == "clean"@,
        args@[1]@ == "build"@,
{
    let mut args: Vec<&'static str> = Vec::new();
    args.push("clean");
    args.push("build");
    args
}

/// How a build that ran ended.
#[derive(Debug, Clone, PartialEq, Eq)]
pub enum BuildOutcome {
    Success,
    Failure { stdout: Vec<u8>, stderr: Vec<u8> },
}

/// A build outcome as plain values.
pub enum BuildOutcomeView {
    Success,
    Failure { stdout: Seq<u8>, stderr: Seq<u8> },
}

impl View for BuildOutcome {
    type V = BuildOutcomeView;

    open spec fn view(&self) -> BuildOutcomeView {
        match *self {
            BuildOutcome::Success => BuildOutcomeView::Success,
            BuildOutcome::Failure { stdout, stderr } => BuildOutcomeView::Failure {
                stdout: stdout@,
                stderr: stderr@,
            },
        }
    }
}

/// The outcome of a build whose process exited: success exactly when the
/// exit status is zero, else a failure that carries the captured output. The
/// output itself is never looked at.
pub fn build_outcome(exit_code: Option<i32>, stdout: Vec<u8>, stderr: Vec<u8>) -> (outcome: BuildOutcome)
    ensures
        outcome@ == (if exit_code == Some(0i32) {
            BuildOutcomeView::Success
        } else {
            BuildOutcomeView::Failure { stdout: stdout@, stderr: stderr@ }
        }),
{
    match exit_code {
        Some(0) => BuildOutcome::Success,
        _ => BuildOutcome::Failure { stdout, stderr },
    }
}

/// The exit status the tool ends with: zero for a successful build, two for
/// a build that ran and failed, one for every other failure.
pub open spec fn exit_status_of(action: Action) -> int {
    match action {
        Action::ReportFailure(Cause::BuildFailed) => 2,
        Action::ReportFailure(_) => 1,
        _ => 0,
    }
}

/// The exit status for the report that ends a run.
pub fn exit_status(action: Action) -> (code: i32)
    ensures
        code == exit_status_of(action),
{
    match action {
        Action::ReportFailure(Cause::BuildFailed) => 2,
        Action::ReportFailure(_) => 1,
        _ => 0,
    }
}

} // verus!
