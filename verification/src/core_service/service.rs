//! Admission to the shared process and the commands that it serves.

use vstd::prelude::*;
use vstd::string::*;

use crate::core_service::wire::{QueryErrorView, RegistryQueryError};
use crate::text::{decimal, decimal_text};

verus! {

/// The time that a cancelled turn gets to end by itself.
pub const CANCEL_GRACE_MS: u64 = 2_000;

/// The time that the process gets to shut down.
pub const SHUTDOWN_GRACE_MS: u64 = 2_000;

/// The state that the callers of the service share.
#[derive(Clone, Copy, Debug, PartialEq, Eq, Structural)]
pub struct ServiceFlags {
    /// A process runs.
    pub live: bool,
    /// A request is being served.
    pub busy: bool,
    /// The turn being served was cancelled.
    pub cancel_pending: bool,
    /// Extensions changed while the process could not be told.
    pub reload_pending: bool,
}

impl Default for ServiceFlags {
    fn default() -> (res: ServiceFlags)
        ensures
            res == (ServiceFlags {
                live: false,
                busy: false,
                cancel_pending: false,
                reload_pending: false,
            }),
    {
        ServiceFlags { live: false, busy: false, cancel_pending: false, reload_pending: false }
    }
}

/// Whether a turn may start.
#[derive(Clone, Copy, Debug, PartialEq, Eq, Structural)]
pub enum Admission {
    /// The service was idle.
    Started,
    /// The turn follows the cancelled one.
    Queued,
    /// Another request is being served.
    Rejected,
}

/// What a rejected turn is told.
pub const BUSY_MESSAGE: &'static str = "cosh-core runtime is already processing a request";

/// Admission of a turn: an idle service takes it, and one successor may queue
/// behind a cancelled turn; every other concurrent start is refused.
pub open spec fn admission(flags: ServiceFlags) -> (ServiceFlags, Admission) {
    if !flags.busy {
        (ServiceFlags { busy: true, ..flags }, Admission::Started)
    } else if flags.cancel_pending {
        (ServiceFlags { cancel_pending: false, ..flags }, Admission::Queued)
    } else {
        (flags, Admission::Rejected)
    }
}

/// Asks to start a turn.
pub fn start_run(flags: &mut ServiceFlags) -> (res: Admission)
    ensures
        (*final(flags), res) == admission(*old(flags)),
{
    if !flags.busy {
        flags.busy = true;
        Admission::Started
    } else if flags.cancel_pending {
        flags.cancel_pending = false;
        Admission::Queued
    } else {
        Admission::Rejected
    }
}

/// The turn could not be handed to the service.
pub fn run_not_delivered(flags: &mut ServiceFlags)
    ensures
        *final(flags) == (ServiceFlags { busy: false, ..*old(flags) }),
{
    flags.busy = false;
}

/// What the service is asked for.
#[derive(Clone, Copy, Debug, PartialEq, Eq, Structural)]
pub enum ServiceCommand {
    /// Serve a turn, which may have been queued.
    Run,
    /// Serve a registry command.
    Registry,
    /// Stop serving.
    Shutdown,
}

/// How the service takes up a command.
pub enum ServiceStep {
    /// Run the turn.
    RunTurn,
    /// Send the registry command to the process.
    Query,
    /// Answer the registry command with this failure.
    Refuse(RegistryQueryError),
    /// Ask the process to shut down, wait for its end, and leave.
    StopProcess,
    /// Leave.
    Leave,
}

/// What a [`ServiceStep`] is, apart from its failure.
#[derive(Clone, Copy, Debug, PartialEq, Eq, Structural)]
pub enum StepKind {
    RunTurn,
    Query,
    Refuse,
    StopProcess,
    Leave,
}

impl ServiceStep {
    /// What the step is, apart from its failure.
    pub open spec fn kind(self) -> StepKind {
        match self {
            ServiceStep::RunTurn => StepKind::RunTurn,
            ServiceStep::Query => StepKind::Query,
            ServiceStep::Refuse(_) => StepKind::Refuse,
            ServiceStep::StopProcess => StepKind::StopProcess,
            ServiceStep::Leave => StepKind::Leave,
        }
    }
}

/// The flags once a command is taken up, and how it is.
pub open spec fn taken_up(flags: ServiceFlags, command: ServiceCommand, has_process: bool) -> (
    ServiceFlags,
    StepKind,
) {
    match command {
        ServiceCommand::Run => (ServiceFlags { busy: true, ..flags }, StepKind::RunTurn),
        ServiceCommand::Registry => (
            flags,
            if has_process {
                StepKind::Query
            } else {
                StepKind::Refuse
            },
        ),
        ServiceCommand::Shutdown => (
            ServiceFlags { live: false, ..flags },
            if has_process {
                StepKind::StopProcess
            } else {
                StepKind::Leave
            },
        ),
    }
}

/// Takes up a command: only a turn starts a process, and a registry command
/// without a process does not get through.
pub fn on_command(flags: &mut ServiceFlags, command: ServiceCommand, has_process: bool) -> (res:
    ServiceStep)
    ensures
        (*final(flags), res.kind()) == taken_up(*old(flags), command, has_process),
        *final(flags) == (ServiceFlags {
            busy: old(flags).busy || command == ServiceCommand::Run,
            live: old(flags).live && command != ServiceCommand::Shutdown,
            ..*old(flags)
        }),
        match command {
            ServiceCommand::Run => res is RunTurn,
            ServiceCommand::Registry => if has_process {
                res is Query
            } else {
                res matches ServiceStep::Refuse(e) && e@ == QueryErrorView::Transport(
                    "live cosh-core process is unavailable"@,
                )
            },
            ServiceCommand::Shutdown => if has_process {
                res is StopProcess
            } else {
                res is Leave
            },
        },
{
    match command {
        ServiceCommand::Run => {
            flags.busy = true;
            ServiceStep::RunTurn
        },
        ServiceCommand::Registry => {
            if has_process {
                ServiceStep::Query
            } else {
                ServiceStep::Refuse(
                    RegistryQueryError::Transport("live cosh-core process is unavailable".to_owned()),
                )
            }
        },
        ServiceCommand::Shutdown => {
            flags.live = false;
            if has_process {
                ServiceStep::StopProcess
            } else {
                ServiceStep::Leave
            }
        },
    }
}

/// The flags once the user cancelled the turn being served.
pub open spec fn run_cancelled(flags: ServiceFlags) -> ServiceFlags {
    ServiceFlags { cancel_pending: true, ..flags }
}

/// The user cancels the turn being served.
pub fn cancel_run(flags: &mut ServiceFlags)
    ensures
        *final(flags) == run_cancelled(*old(flags)),
        *final(flags) == (ServiceFlags { cancel_pending: true, ..*old(flags) }),
{
    flags.cancel_pending = true;
}

/// The identifier of a live registry command.
pub open spec fn live_request_id(pid: u32, number: u64) -> Seq<char> {
    "live-reg-"@ + decimal(pid as nat) + "-"@ + decimal(number as nat)
}

/// Asks to send a registry command to the live process. Returns its identifier
/// if there is a live process that is idle.
pub fn live_registry_query(flags: &mut ServiceFlags, pid: u32, number: u64) -> (res: Option<String>)
    ensures
        match res {
            Some(id) => old(flags).live && !old(flags).busy && *final(flags) == (ServiceFlags {
                busy: true,
                ..*old(flags)
            }) && id@ == live_request_id(pid, number),
            None => (!old(flags).live || old(flags).busy) && *final(flags) == *old(flags),
        },
{
    if !flags.live || flags.busy {
        return None;
    }
    flags.busy = true;
    let p = decimal_text(pid as u128);
    let n = decimal_text(number as u128);
    Some("live-reg-".to_owned().concat(p.as_str()).concat("-").concat(n.as_str()))
}

/// The flags once another process sent a registry command.
pub open spec fn mutated(flags: ServiceFlags, requires_reload: bool) -> ServiceFlags {
    ServiceFlags { reload_pending: flags.reload_pending || (flags.live && requires_reload), ..flags }
}

/// A registry command was sent by another process. A live process has to reload
/// when the command changed its extensions.
pub fn note_external_mutation(flags: &mut ServiceFlags, requires_reload: bool)
    ensures
        *final(flags) == mutated(*old(flags), requires_reload),
        *final(flags) == (ServiceFlags {
            reload_pending: old(flags).reload_pending || (old(flags).live && requires_reload),
            ..*old(flags)
        }),
{
    if flags.live && requires_reload {
        flags.reload_pending = true;
    }
}

/// The flags without a deferred reload, and whether there was one.
pub open spec fn reload_taken(flags: ServiceFlags) -> (ServiceFlags, bool) {
    (ServiceFlags { reload_pending: false, ..flags }, flags.reload_pending)
}

/// Takes a deferred reload, if there is one.
pub fn take_reload(flags: &mut ServiceFlags) -> (due: bool)
    ensures
        (*final(flags), due) == reload_taken(*old(flags)),
        due == old(flags).reload_pending,
        *final(flags) == (ServiceFlags { reload_pending: false, ..*old(flags) }),
{
    let due: bool = flags.reload_pending;
    flags.reload_pending = false;
    due
}

/// The flags once a process was started.
pub open spec fn with_process(flags: ServiceFlags) -> ServiceFlags {
    ServiceFlags { live: true, reload_pending: false, ..flags }
}

/// A process was started for a turn: it loads the extensions as they are now.
pub fn process_started(flags: &mut ServiceFlags)
    ensures
        *final(flags) == with_process(*old(flags)),
        *final(flags) == (ServiceFlags { live: true, reload_pending: false, ..*old(flags) }),
{
    flags.live = true;
    flags.reload_pending = false;
}

/// The process was stopped.
pub fn process_reset(flags: &mut ServiceFlags)
    ensures
        *final(flags) == (ServiceFlags { live: false, ..*old(flags) }),
{
    flags.live = false;
}

/// What has to be done behind a turn.
pub enum TurnFollowUp {
    /// The process serves the next turn.
    Keep,
    /// Stop the process.
    Reset,
    /// Tell the caller and the session recovery about this failure, and stop
    /// the process.
    Report(String),
}

/// The flags behind a turn, and what has to be done.
pub open spec fn run_ended(flags: ServiceFlags, result: Result<bool, String>) -> (
    ServiceFlags,
    TurnFollowUp,
) {
    let idle = ServiceFlags { busy: false, cancel_pending: false, ..flags };
    match result {
        Ok(false) => (idle, TurnFollowUp::Keep),
        Ok(true) => (ServiceFlags { live: false, ..idle }, TurnFollowUp::Reset),
        Err(error) => (ServiceFlags { live: false, ..idle }, TurnFollowUp::Report(error)),
    }
}

/// Ends a turn: the service is idle again and nothing is cancelled. Every
/// failure is reported and costs the process.
pub fn end_run(flags: &mut ServiceFlags, result: Result<bool, String>) -> (res: TurnFollowUp)
    ensures
        (*final(flags), res) == run_ended(*old(flags), result),
        match result {
            Ok(reset) => res == (if reset {
                TurnFollowUp::Reset
            } else {
                TurnFollowUp::Keep
            }),
            Err(error) => res == TurnFollowUp::Report(error),
        },
        *final(flags) == (ServiceFlags {
            busy: false,
            cancel_pending: false,
            live: old(flags).live && res is Keep,
            ..*old(flags)
        }),
{
    flags.busy = false;
    flags.cancel_pending = false;
    match result {
        Ok(reset) => {
            if reset {
                flags.live = false;
                TurnFollowUp::Reset
            } else {
                TurnFollowUp::Keep
            }
        },
        Err(error) => {
            flags.live = false;
            TurnFollowUp::Report(error)
        },
    }
}

/// The flags behind a registry command.
pub open spec fn query_ended(flags: ServiceFlags, transport_failed: bool) -> ServiceFlags {
    ServiceFlags { busy: false, live: flags.live && !transport_failed, ..flags }
}

/// Ends a registry command; a command that did not get through costs the
/// process.
pub fn end_query(flags: &mut ServiceFlags, transport_failed: bool)
    ensures
        *final(flags) == query_ended(*old(flags), transport_failed),
        *final(flags) == (ServiceFlags {
            busy: false,
            live: old(flags).live && !transport_failed,
            ..*old(flags)
        }),
{
    flags.busy = false;
    if transport_failed {
        flags.live = false;
    }
}

/// How a child process is waited for.
#[derive(Clone, Copy, Debug, PartialEq, Eq, Structural)]
pub enum ChildStatus {
    Exited,
    Running,
    /// The process could not be inspected.
    Unknown,
}

/// What to do about a child process that is to end.
#[derive(Clone, Copy, Debug, PartialEq, Eq, Structural)]
pub enum StopStep {
    Done,
    Wait,
    Kill,
}

/// What is done about a child that is to end.
pub open spec fn stop_of(status: ChildStatus, now: u64, deadline: u64) -> StopStep {
    match status {
        ChildStatus::Exited => StopStep::Done,
        ChildStatus::Running => if now < deadline {
            StopStep::Wait
        } else {
            StopStep::Kill
        },
        ChildStatus::Unknown => StopStep::Kill,
    }
}

/// A running child gets until the deadline, then it is killed.
pub fn stop_process(status: ChildStatus, now: u64, deadline: u64) -> (res: StopStep)
    ensures
        res == stop_of(status, now, deadline),
        res == (match status {
            ChildStatus::Exited => StopStep::Done,
            ChildStatus::Running => if now < deadline {
                StopStep::Wait
            } else {
                StopStep::Kill
            },
            ChildStatus::Unknown => StopStep::Kill,
        }),
{
    match status {
        ChildStatus::Exited => StopStep::Done,
        ChildStatus::Running => {
            if now < deadline {
                StopStep::Wait
            } else {
                StopStep::Kill
            }
        },
        ChildStatus::Unknown => StopStep::Kill,
    }
}

/// Of two starts without a cancellation in between, the second is refused.
pub proof fn concurrent_starts_are_refused(flags: ServiceFlags)
    requires
        !flags.cancel_pending,
    ensures
        admission(admission(flags).0).1 == Admission::Rejected,
{
}

/// Behind a cancelled turn, one start is queued and every further one refused.
pub proof fn one_successor_is_queued(flags: ServiceFlags)
    requires
        flags.busy,
        flags.cancel_pending,
    ensures
        admission(flags).1 == Admission::Queued,
        admission(admission(flags).0).1 == Admission::Rejected,
{
}

} // verus!
