//! Starting, stopping and checking the browser driver service, as decisions.
//!
//! The caller reads files, runs commands and waits. It performs the action
//! it is given, reports what it saw, and gets the next action back. An event
//! that does not answer the outstanding action changes nothing.

use crate::error::AppError;
use crate::pidfile::{parse_pid, pid_of};
use vstd::prelude::*;

verus! {

/// What the PID file says.
#[derive(Debug, Clone, Copy, PartialEq, Eq, Structural)]
pub enum PidRecord {
    /// There is no PID file.
    Missing,
    /// The file does not hold a PID.
    Invalid,
    /// The file holds this PID.
    Pid(u32),
}

/// What the caller reports.
#[derive(Debug, Clone, Copy, PartialEq, Eq, Structural)]
pub enum ServiceEvent {
    /// The PID file was looked at.
    PidFile(PidRecord),
    /// Whether the process is alive.
    ProcessAlive(bool),
    /// Whether the driver answered its status request with success.
    Responsive(bool),
    /// The action was carried out.
    Done,
}

/// What the caller is asked to do.
#[derive(Debug, Clone, Copy, PartialEq, Eq, Structural)]
pub enum ServiceAction {
    /// Look at the PID file.
    ReadPidFile,
    /// Find out whether the process with this PID is alive.
    CheckProcess(u32),
    /// Ask the driver for its status.
    CheckResponsive,
    /// Remove the PID file.
    RemovePidFile,
    /// Ask the process to end, or end it by force.
    Kill { pid: u32, force: bool },
    /// Wait this many milliseconds.
    Wait { millis: u64 },
    /// Stop the service that is running.
    StopService,
    /// Start the driver and write its PID to the PID file.
    Spawn,
    /// The procedure is over.
    Finish(ServiceOutcome),
    /// There is nothing to do.
    Nothing,
}

/// How a procedure ended.
#[derive(Debug, Clone, Copy, PartialEq, Eq, Structural)]
pub enum ServiceOutcome {
    /// The driver runs and answers.
    Responsive,
    /// The driver runs and does not answer.
    NotResponding,
    /// The driver does not run.
    NotRunning,
    /// The driver was running and answering already.
    AlreadyRunning,
    /// The driver was started and answers.
    Started,
    /// The driver was started and does not answer.
    StartedButSilent,
    /// The PID file does not hold a PID.
    InvalidPidFile,
    /// The driver was stopped, or was not running.
    Stopped,
}

/// Where checking the service stands.
#[derive(Debug, Clone, Copy, PartialEq, Eq, Structural)]
pub enum StatusState {
    ReadingPid,
    CheckingProcess,
    RemovingFile,
    CheckingResponse,
    Finished,
}

/// Where stopping the service stands. `polls` counts the checks that found
/// the process alive.
#[derive(Debug, Clone, Copy, PartialEq, Eq, Structural)]
pub enum StopState {
    ReadingPid,
    Killing { pid: u32 },
    Polling { pid: u32, polls: u8 },
    Waiting { pid: u32, polls: u8 },
    FinalCheck { pid: u32 },
    ForceKilling,
    RemovingFile,
    Finished,
}

/// Where starting the service stands.
#[derive(Debug, Clone, Copy, PartialEq, Eq, Structural)]
pub enum StartState {
    ReadingPid,
    CheckingProcess,
    CheckingExisting,
    Stopping,
    RemovingStale,
    Spawning,
    FirstWait,
    FirstCheck,
    SecondWait,
    SecondCheck,
    Finished,
}

/// How often a process that was asked to end is looked at before it is
/// ended by force.
pub const MAX_POLLS: u8 = 10;

/// The wait between two looks at a process that was asked to end.
pub const POLL_WAIT_MS: u64 = 500;

/// The wait after the driver was started.
pub const FIRST_WAIT_MS: u64 = 2000;

/// The second wait, for a driver that did not answer after the first.
pub const SECOND_WAIT_MS: u64 = 3000;

/// What the content of a PID file stands for.
pub open spec fn record_of(pid: Option<u32>) -> PidRecord {
    match pid {
        Some(pid) => PidRecord::Pid(pid),
        None => PidRecord::Invalid,
    }
}

/// What a PID file with the given content says; `None` stands for a file
/// that is not there.
pub fn pid_record(content: Option<&[u8]>) -> (record: PidRecord)
    ensures
        content is None ==> record == PidRecord::Missing,
        content matches Some(bytes) ==> record == record_of(pid_of(bytes@)),
{
    match content {
        None => PidRecord::Missing,
        Some(bytes) => match parse_pid(bytes) {
            Some(pid) => PidRecord::Pid(pid),
            None => PidRecord::Invalid,
        },
    }
}

/// Checking the service: no PID file, or one without a PID, or one of a
/// process that is gone, means that the driver does not run, and the file
/// is removed where it was there; else the driver is asked for its status.
pub open spec fn status_next(state: StatusState, event: ServiceEvent) -> (StatusState, ServiceAction) {
    match (state, event) {
        (StatusState::ReadingPid, ServiceEvent::PidFile(PidRecord::Missing)) => (
            StatusState::Finished,
            ServiceAction::Finish(ServiceOutcome::NotRunning),
        ),
        (StatusState::ReadingPid, ServiceEvent::PidFile(PidRecord::Invalid)) => (
            StatusState::RemovingFile,
            ServiceAction::RemovePidFile,
        ),
        (StatusState::ReadingPid, ServiceEvent::PidFile(PidRecord::Pid(pid))) => (
            StatusState::CheckingProcess,
            ServiceAction::CheckProcess(pid),
        ),
        (StatusState::CheckingProcess, ServiceEvent::ProcessAlive(true)) => (
            StatusState::CheckingResponse,
            ServiceAction::CheckResponsive,
        ),
        (StatusState::CheckingProcess, ServiceEvent::ProcessAlive(false)) => (
            StatusState::RemovingFile,
            ServiceAction::RemovePidFile,
        ),
        (StatusState::RemovingFile, ServiceEvent::Done) => (
            StatusState::Finished,
            ServiceAction::Finish(ServiceOutcome::NotRunning),
        ),
        (StatusState::CheckingResponse, ServiceEvent::Responsive(true)) => (
            StatusState::Finished,
            ServiceAction::Finish(ServiceOutcome::Responsive),
        ),
        (StatusState::CheckingResponse, ServiceEvent::Responsive(false)) => (
            StatusState::Finished,
            ServiceAction::Finish(ServiceOutcome::NotResponding),
        ),
        _ => (state, ServiceAction::Nothing),
    }
}

/// Stopping the service: the process named in the PID file is asked to
/// end, looked at up to ten times with a wait after each look that finds it
/// alive, looked at once more, ended by force if it is still alive, and the
/// PID file is removed.
pub open spec fn stop_next(state: StopState, event: ServiceEvent) -> (StopState, ServiceAction) {
    match (state, event) {
        (StopState::ReadingPid, ServiceEvent::PidFile(PidRecord::Missing)) => (
            StopState::Finished,
            ServiceAction::Finish(ServiceOutcome::Stopped),
        ),
        (StopState::ReadingPid, ServiceEvent::PidFile(PidRecord::Invalid)) => (
            StopState::RemovingFile,
            ServiceAction::RemovePidFile,
        ),
        (StopState::ReadingPid, ServiceEvent::PidFile(PidRecord::Pid(pid))) => (
            StopState::Killing { pid },
            ServiceAction::Kill { pid, force: false },
        ),
        (StopState::Killing { pid }, ServiceEvent::Done) => (
            StopState::Polling { pid, polls: 0 },
            ServiceAction::CheckProcess(pid),
        ),
        (StopState::Polling { pid, polls }, ServiceEvent::ProcessAlive(true)) => if polls
            < MAX_POLLS {
            (
                StopState::Waiting { pid, polls: (polls + 1) as u8 },
                ServiceAction::Wait { millis: POLL_WAIT_MS },
            )
        } else {
            (StopState::ForceKilling, ServiceAction::Kill { pid, force: true })
        },
        (StopState::Polling { pid, polls }, ServiceEvent::ProcessAlive(false)) => (
            StopState::FinalCheck { pid },
            ServiceAction::CheckProcess(pid),
        ),
        (StopState::Waiting { pid, polls }, ServiceEvent::Done) => if polls < MAX_POLLS {
            (StopState::Polling { pid, polls }, ServiceAction::CheckProcess(pid))
        } else {
            (StopState::FinalCheck { pid }, ServiceAction::CheckProcess(pid))
        },
        (StopState::FinalCheck { pid }, ServiceEvent::ProcessAlive(true)) => (
            StopState::ForceKilling,
            ServiceAction::Kill { pid, force: true },
        ),
        (StopState::FinalCheck { pid }, ServiceEvent::ProcessAlive(false)) => (
            StopState::RemovingFile,
            ServiceAction::RemovePidFile,
        ),
        (StopState::ForceKilling, ServiceEvent::Done) => (
            StopState::RemovingFile,
            ServiceAction::RemovePidFile,
        ),
        (StopState::RemovingFile, ServiceEvent::Done) => (
            StopState::Finished,
            ServiceAction::Finish(ServiceOutcome::Stopped),
        ),
        _ => (state, ServiceAction::Nothing),
    }
}

/// Starting the service: a driver that runs and answers is left alone; one
/// that runs and does not answer is stopped first; a PID file of a process
/// that is gone is removed; one without a PID is an error. Then the driver
/// is started and, after a wait, asked for its status, and once more after a
/// longer wait if it does not answer.
pub open spec fn start_next(state: StartState, event: ServiceEvent) -> (StartState, ServiceAction) {
    match (state, event) {
        (StartState::ReadingPid, ServiceEvent::PidFile(PidRecord::Missing)) => (
            StartState::Spawning,
            ServiceAction::Spawn,
        ),
        (StartState::ReadingPid, ServiceEvent::PidFile(PidRecord::Invalid)) => (
            StartState::Finished,
            ServiceAction::Finish(ServiceOutcome::InvalidPidFile),
        ),
        (StartState::ReadingPid, ServiceEvent::PidFile(PidRecord::Pid(pid))) => (
            StartState::CheckingProcess,
            ServiceAction::CheckProcess(pid),
        ),
        (StartState::CheckingProcess, ServiceEvent::ProcessAlive(true)) => (
            StartState::CheckingExisting,
            ServiceAction::CheckResponsive,
        ),
        (StartState::CheckingProcess, ServiceEvent::ProcessAlive(false)) => (
            StartState::RemovingStale,
            ServiceAction::RemovePidFile,
        ),
        (StartState::CheckingExisting, ServiceEvent::Responsive(true)) => (
            StartState::Finished,
            ServiceAction::Finish(ServiceOutcome::AlreadyRunning),
        ),
        (StartState::CheckingExisting, ServiceEvent::Responsive(false)) => (
            StartState::Stopping,
            ServiceAction::StopService,
        ),
        (StartState::Stopping, ServiceEvent::Done) => (
            StartState::Spawning,
            ServiceAction::Spawn,
        ),
        (StartState::RemovingStale, ServiceEvent::Done) => (
            StartState::Spawning,
            ServiceAction::Spawn,
        ),
        (StartState::Spawning, ServiceEvent::Done) => (
            StartState::FirstWait,
            ServiceAction::Wait { millis: FIRST_WAIT_MS },
        ),
        (StartState::FirstWait, ServiceEvent::Done) => (
            StartState::FirstCheck,
            ServiceAction::CheckResponsive,
        ),
        (StartState::FirstCheck, ServiceEvent::Responsive(true)) => (
            StartState::Finished,
            ServiceAction::Finish(ServiceOutcome::Started),
        ),
        (StartState::FirstCheck, ServiceEvent::Responsive(false)) => (
            StartState::SecondWait,
            ServiceAction::Wait { millis: SECOND_WAIT_MS },
        ),
        (StartState::SecondWait, ServiceEvent::Done) => (
            StartState::SecondCheck,
            ServiceAction::CheckResponsive,
        ),
        (StartState::SecondCheck, ServiceEvent::Responsive(true)) => (
            StartState::Finished,
            ServiceAction::Finish(ServiceOutcome::Started),
        ),
        (StartState::SecondCheck, ServiceEvent::Responsive(false)) => (
            StartState::Finished,
            ServiceAction::Finish(ServiceOutcome::StartedButSilent),
        ),
        _ => (state, ServiceAction::Nothing),
    }
}

/// Says what follows `event` while the service is checked. The first action
/// is to read the PID file.
pub fn status(state: StatusState, event: ServiceEvent) -> (r: (StatusState, ServiceAction))
    ensures
        r == status_next(state, event),
{
    match state {
        StatusState::ReadingPid => match event {
            ServiceEvent::PidFile(PidRecord::Missing) => (
                StatusState::Finished,
                ServiceAction::Finish(ServiceOutcome::NotRunning),
            ),
            ServiceEvent::PidFile(PidRecord::Invalid) => (
                StatusState::RemovingFile,
                ServiceAction::RemovePidFile,
            ),
            ServiceEvent::PidFile(PidRecord::Pid(pid)) => (
                StatusState::CheckingProcess,
                ServiceAction::CheckProcess(pid),
            ),
            _ => (state, ServiceAction::Nothing),
        },
        StatusState::CheckingProcess => match event {
            ServiceEvent::ProcessAlive(true) => (
                StatusState::CheckingResponse,
                ServiceAction::CheckResponsive,
            ),
            ServiceEvent::ProcessAlive(false) => (
                StatusState::RemovingFile,
                ServiceAction::RemovePidFile,
            ),
            _ => (state, ServiceAction::Nothing),
        },
        StatusState::RemovingFile => match event {
            ServiceEvent::Done => (
                StatusState::Finished,
                ServiceAction::Finish(ServiceOutcome::NotRunning),
            ),
            _ => (state, ServiceAction::Nothing),
        },
        StatusState::CheckingResponse => match event {
            ServiceEvent::Responsive(true) => (
                StatusState::Finished,
                ServiceAction::Finish(ServiceOutcome::Responsive),
            ),
            ServiceEvent::Responsive(false) => (
                StatusState::Finished,
                ServiceAction::Finish(ServiceOutcome::NotResponding),
            ),
            _ => (state, ServiceAction::Nothing),
        },
        StatusState::Finished => (state, ServiceAction::Nothing),
    }
}

/// Says what follows `event` while the service is stopped. The first action
/// is to read the PID file.
pub fn stop(state: StopState, event: ServiceEvent) -> (r: (StopState, ServiceAction))
    ensures
        r == stop_next(state, event),
{
    match state {
        StopState::ReadingPid => match event {
            ServiceEvent::PidFile(PidRecord::Missing) => (
                StopState::Finished,
                ServiceAction::Finish(ServiceOutcome::Stopped),
            ),
            ServiceEvent::PidFile(PidRecord::Invalid) => (
                StopState::RemovingFile,
                ServiceAction::RemovePidFile,
            ),
            ServiceEvent::PidFile(PidRecord::Pid(pid)) => (
                StopState::Killing { pid },
                ServiceAction::Kill { pid, force: false },
            ),
            _ => (state, ServiceAction::Nothing),
        },
        StopState::Killing { pid } => match event {
            ServiceEvent::Done => (
                StopState::Polling { pid, polls: 0 },
                ServiceAction::CheckProcess(pid),
            ),
            _ => (state, ServiceAction::Nothing),
        },
        StopState::Polling { pid, polls } => match event {
            ServiceEvent::ProcessAlive(true) => {
                if polls < MAX_POLLS {
                    (
                        StopState::Waiting { pid, polls: polls + 1 },
                        ServiceAction::Wait { millis: POLL_WAIT_MS },
                    )
                } else {
                    (StopState::ForceKilling, ServiceAction::Kill { pid, force: true })
                }
            },
            ServiceEvent::ProcessAlive(false) => (
                StopState::FinalCheck { pid },
                ServiceAction::CheckProcess(pid),
            ),
            _ => (state, ServiceAction::Nothing),
        },
        StopState::Waiting { pid, polls } => match event {
            ServiceEvent::Done => {
                if polls < MAX_POLLS {
                    (StopState::Polling { pid, polls }, ServiceAction::CheckProcess(pid))
                } else {
                    (StopState::FinalCheck { pid }, ServiceAction::CheckProcess(pid))
                }
            },
            _ => (state, ServiceAction::Nothing),
        },
        StopState::FinalCheck { pid } => match event {
            ServiceEvent::ProcessAlive(true) => (
                StopState::ForceKilling,
                ServiceAction::Kill { pid, force: true },
            ),
            ServiceEvent::ProcessAlive(false) => (
                StopState::RemovingFile,
                ServiceAction::RemovePidFile,
            ),
            _ => (state, ServiceAction::Nothing),
        },
        StopState::ForceKilling => match event {
            ServiceEvent::Done => (StopState::RemovingFile, ServiceAction::RemovePidFile),
            _ => (state, ServiceAction::Nothing),
        },
        StopState::RemovingFile => match event {
            ServiceEvent::Done => (
                StopState::Finished,
                ServiceAction::Finish(ServiceOutcome::Stopped),
            ),
            _ => (state, ServiceAction::Nothing),
        },
        StopState::Finished => (state, ServiceAction::Nothing),
    }
}

/// Says what follows `event` while the service is started. The first action
/// is to read the PID file.
pub fn start(state: StartState, event: ServiceEvent) -> (r: (StartState, ServiceAction))
    ensures
        r == start_next(state, event),
{
    match state {
        StartState::ReadingPid => match event {
            ServiceEvent::PidFile(PidRecord::Missing) => (
                StartState::Spawning,
                ServiceAction::Spawn,
            ),
            ServiceEvent::PidFile(PidRecord::Invalid) => (
                StartState::Finished,
                ServiceAction::Finish(ServiceOutcome::InvalidPidFile),
            ),
            ServiceEvent::PidFile(PidRecord::Pid(pid)) => (
                StartState::CheckingProcess,
                ServiceAction::CheckProcess(pid),
            ),
            _ => (state, ServiceAction::Nothing),
        },
        StartState::CheckingProcess => match event {
            ServiceEvent::ProcessAlive(true) => (
                StartState::CheckingExisting,
                ServiceAction::CheckResponsive,
            ),
            ServiceEvent::ProcessAlive(false) => (
                StartState::RemovingStale,
                ServiceAction::RemovePidFile,
            ),
            _ => (state, ServiceAction::Nothing),
        },
        StartState::CheckingExisting => match event {
            ServiceEvent::Responsive(true) => (
                StartState::Finished,
                ServiceAction::Finish(ServiceOutcome::AlreadyRunning),
            ),
            ServiceEvent::Responsive(false) => (StartState::Stopping, ServiceAction::StopService),
            _ => (state, ServiceAction::Nothing),
        },
        StartState::Stopping | StartState::RemovingStale => match event {
            ServiceEvent::Done => (StartState::Spawning, ServiceAction::Spawn),
            _ => (state, ServiceAction::Nothing),
        },
        StartState::Spawning => match event {
            ServiceEvent::Done => (
                StartState::FirstWait,
                ServiceAction::Wait { millis: FIRST_WAIT_MS },
            ),
            _ => (state, ServiceAction::Nothing),
        },
        StartState::FirstWait => match event {
            ServiceEvent::Done => (StartState::FirstCheck, ServiceAction::CheckResponsive),
            _ => (state, ServiceAction::Nothing),
        },
        StartState::FirstCheck => match event {
            ServiceEvent::Responsive(true) => (
                StartState::Finished,
                ServiceAction::Finish(ServiceOutcome::Started),
            ),
            ServiceEvent::Responsive(false) => (
                StartState::SecondWait,
                ServiceAction::Wait { millis: SECOND_WAIT_MS },
            ),
            _ => (state, ServiceAction::Nothing),
        },
        StartState::SecondWait => match event {
            ServiceEvent::Done => (StartState::SecondCheck, ServiceAction::CheckResponsive),
            _ => (state, ServiceAction::Nothing),
        },
        StartState::SecondCheck => match event {
            ServiceEvent::Responsive(true) => (
                StartState::Finished,
                ServiceAction::Finish(ServiceOutcome::Started),
            ),
            ServiceEvent::Responsive(false) => (
                StartState::Finished,
                ServiceAction::Finish(ServiceOutcome::StartedButSilent),
            ),
            _ => (state, ServiceAction::Nothing),
        },
        StartState::Finished => (state, ServiceAction::Nothing),
    }
}

/// Whether an outcome is a failure of the procedure.
pub open spec fn is_failure(outcome: ServiceOutcome) -> bool {
    outcome == ServiceOutcome::InvalidPidFile || outcome == ServiceOutcome::StartedButSilent
}

/// Turns the outcome of a procedure into its result: whether the driver
/// runs and answers, or the error that a PID file without a PID, or a driver
/// that was started and stays silent, stands for.
pub fn outcome_result(outcome: ServiceOutcome) -> (r: Result<bool, AppError>)
    ensures
        r is Err <==> is_failure(outcome),
        r matches Err(err) ==> err is Initialization,
        r matches Ok(up) ==> up == (outcome == ServiceOutcome::Responsive || outcome
            == ServiceOutcome::AlreadyRunning || outcome == ServiceOutcome::Started),
{
    match outcome {
        ServiceOutcome::Responsive => Ok(true),
        ServiceOutcome::AlreadyRunning => Ok(true),
        ServiceOutcome::Started => Ok(true),
        ServiceOutcome::NotResponding => Ok(false),
        ServiceOutcome::NotRunning => Ok(false),
        ServiceOutcome::Stopped => Ok(false),
        ServiceOutcome::InvalidPidFile => Err(
            AppError::Initialization("Invalid PID in file".to_owned()),
        ),
        ServiceOutcome::StartedButSilent => Err(
            AppError::Initialization(
                "ChromeDriver started but is not responding at http://localhost:4444".to_owned(),
            ),
        ),
    }
}

/// How many events stopping can still take before it is over.
pub open spec fn stop_steps_left(state: StopState) -> nat {
    match state {
        StopState::ReadingPid => 27,
        StopState::Killing { .. } => 26,
        StopState::Polling { polls, .. } => if polls <= MAX_POLLS {
            (25 - 2 * polls) as nat
        } else {
            5
        },
        StopState::Waiting { polls, .. } => if polls <= MAX_POLLS {
            (26 - 2 * polls) as nat
        } else {
            5
        },
        StopState::FinalCheck { .. } => 3,
        StopState::ForceKilling => 2,
        StopState::RemovingFile => 1,
        StopState::Finished => 0,
    }
}

/// Every event that changes the state brings stopping nearer to its end:
/// a process is looked at a bounded number of times, and never for ever.
pub proof fn lemma_stop_advances(state: StopState, event: ServiceEvent)
    ensures
        stop_next(state, event).0 != state ==> stop_steps_left(stop_next(state, event).0)
            < stop_steps_left(state),
        stop_next(state, event).0 == state ==> stop_next(state, event).1 is Nothing,
{
}

/// The driver is reported as started only right after it answered.
pub proof fn lemma_started_means_answered(state: StartState, event: ServiceEvent)
    requires
        start_next(state, event).1 == ServiceAction::Finish(ServiceOutcome::Started)
            || start_next(state, event).1 == ServiceAction::Finish(ServiceOutcome::AlreadyRunning),
    ensures
        event == ServiceEvent::Responsive(true),
{
}

} // verus!
