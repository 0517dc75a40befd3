//! The operation dispatcher: a state machine over one fallback chain.
//!
//! The dispatcher never touches the operating system itself.  It hands
//! out one [`Action`] at a time — a bus ownership query, a bus method
//! call, a utility to spawn, a kernel-file write, a native call — and the
//! caller performs it and reports what happened as an [`Event`].  The
//! machine judges the outcome, ends the run on the first success, and
//! otherwise advances to the next mechanism of the chain; when the last
//! mechanism fails, that mechanism's own failure is the run's result, and
//! the failures before it are discarded.  An operation whose chain is
//! empty is unsupported on its platform: the run is over before any
//! action is handed out.

use vstd::prelude::*;

use crate::mechanism::{
    CmdCheck, Endpoint, EndpointV, Mechanism, MechanismV, NativeCall, NativeCallV,
};
use crate::session::{resolve_session_id, resolved_session, trim_blanks, trimmed};

verus! {

broadcast use vstd::std_specs::vec::vec_clone_deep_view_proof;

/// Spec-level twin of [`ShutdownError`].
pub enum ShutdownErrorV {
    Unsupported,
    Io { code: Option<i32>, message: Seq<char> },
    Output { text: Seq<char> },
    ExitCode { code: i32 },
    Bus { skipped: bool },
    Native { code: i32 },
}

/// A failed run's result: the last attempted mechanism's failure.
#[derive(Debug, PartialEq, Eq)]
pub enum ShutdownError {
    /// The operation has no mechanism on this platform.
    Unsupported,
    /// A spawn, open or write failed beneath the mechanism, with the
    /// operating system's error code where one exists.
    Io { code: Option<i32>, message: String },
    /// A spawned utility was judged failed by its outcome; the text is
    /// its captured standard-error stream, verbatim.
    Output { text: String },
    /// A spawned utility exited with a non-zero status.
    ExitCode { code: i32 },
    /// Every bus call of the chain was skipped or failed; `skipped` tells
    /// whether the last one was skipped for want of a registered owner.
    Bus { skipped: bool },
    /// A native power-transition call failed with this OS error code.
    Native { code: i32 },
}

impl View for ShutdownError {
    type V = ShutdownErrorV;

    open spec fn view(&self) -> ShutdownErrorV {
        match self {
            ShutdownError::Unsupported => ShutdownErrorV::Unsupported,
            ShutdownError::Io { code, message } => ShutdownErrorV::Io {
                code: *code,
                message: message@,
            },
            ShutdownError::Output { text } => ShutdownErrorV::Output { text: text@ },
            ShutdownError::ExitCode { code } => ShutdownErrorV::ExitCode { code: *code },
            ShutdownError::Bus { skipped } => ShutdownErrorV::Bus { skipped: *skipped },
            ShutdownError::Native { code } => ShutdownErrorV::Native { code: *code },
        }
    }
}

/// The spec-level value of a finished run's result.
pub open spec fn outcome_view(r: Result<(), ShutdownError>) -> Result<(), ShutdownErrorV> {
    match r {
        Ok(_) => Ok(()),
        Err(e) => Err(e@),
    }
}

/// Spec-level twin of [`Action`].
pub enum ActionV {
    QuerySession,
    CheckOwner { destination: Seq<char> },
    BusInvoke { endpoint: EndpointV },
    RunCommand { program: Seq<char>, args: Seq<Seq<char>> },
    KernelWrite { path: Seq<char>, data: Seq<char> },
    AcquirePrivilege,
    NativeExit { flags: u32, reason: u32 },
    NativeRequest { message: Seq<char>, timeout: u32, force_close_apps: bool, restart: bool },
    NativeSuspend { hibernate: bool },
}

/// What the dispatcher asks its caller to perform next.
#[derive(Debug, PartialEq, Eq)]
pub enum Action {
    /// Read the session file and the session environment variable and
    /// report both, `None` standing for an unreadable file or an unset
    /// variable.
    QuerySession,
    /// Ask the bus registry whether any process owns `destination`.
    CheckOwner { destination: String },
    /// Perform the synchronous bus method call this endpoint describes.
    BusInvoke { endpoint: Endpoint },
    /// Spawn the program with the given arguments and capture its exit
    /// status and output.
    RunCommand { program: String, args: Vec<String> },
    /// Write the text's bytes to the kernel control file at `path`.
    KernelWrite { path: String, data: String },
    /// Try to enable the shutdown privilege on the process token; the
    /// dispatcher proceeds whatever the outcome.
    AcquirePrivilege,
    /// Invoke the immediate native exit call with these flag words.
    NativeExit { flags: u32, reason: u32 },
    /// Invoke the native shutdown request with a message, a timeout in
    /// seconds, a force-close-applications flag and reboot selection.
    NativeRequest { message: String, timeout: u32, force_close_apps: bool, restart: bool },
    /// Invoke the native suspend call, hibernating when asked to.
    NativeSuspend { hibernate: bool },
}

impl View for Action {
    type V = ActionV;

    open spec fn view(&self) -> ActionV {
        match self {
            Action::QuerySession => ActionV::QuerySession,
            Action::CheckOwner { destination } => ActionV::CheckOwner {
                destination: destination@,
            },
            Action::BusInvoke { endpoint } => ActionV::BusInvoke { endpoint: endpoint@ },
            Action::RunCommand { program, args } => ActionV::RunCommand {
                program: program@,
                args: args.deep_view(),
            },
            Action::KernelWrite { path, data } => ActionV::KernelWrite {
                path: path@,
                data: data@,
            },
            Action::AcquirePrivilege => ActionV::AcquirePrivilege,
            Action::NativeExit { flags, reason } => ActionV::NativeExit {
                flags: *flags,
                reason: *reason,
            },
            Action::NativeRequest { message, timeout, force_close_apps, restart } => {
                ActionV::NativeRequest {
                    message: message@,
                    timeout: *timeout,
                    force_close_apps: *force_close_apps,
                    restart: *restart,
                }
            },
            Action::NativeSuspend { hibernate } => ActionV::NativeSuspend {
                hibernate: *hibernate,
            },
        }
    }
}

/// Spec-level twin of [`Event`].
pub enum EventV {
    Session { proc_file: Option<Seq<char>>, env_var: Option<Seq<char>> },
    Owner { owned: bool },
    Bus { ok: bool },
    Ran { exit_ok: bool, exit_code: i32, stdout: Seq<char>, stderr: Seq<char> },
    SpawnFailed { code: Option<i32>, message: Seq<char> },
    Io { ok: bool, code: Option<i32>, message: Seq<char> },
    Native { ok: bool, code: i32 },
}

/// What the caller reports back after performing an action.
pub enum Event {
    /// The two session-identifier sources, answering `QuerySession`.
    Session { proc_file: Option<String>, env_var: Option<String> },
    /// Whether the queried destination has a registered owner; report
    /// `false` as well when the registry itself could not be reached.
    Owner { owned: bool },
    /// Whether the bus method call returned without an error.
    Bus { ok: bool },
    /// A spawned process ran to completion: its exit status, exit code
    /// and captured output streams.
    Ran { exit_ok: bool, exit_code: i32, stdout: String, stderr: String },
    /// The process could not be spawned at all.
    SpawnFailed { code: Option<i32>, message: String },
    /// The outcome of a kernel-file write, answering `KernelWrite`.
    Io { ok: bool, code: Option<i32>, message: String },
    /// The outcome of a native call, with the OS error code on failure.
    Native { ok: bool, code: i32 },
}

impl View for Event {
    type V = EventV;

    open spec fn view(&self) -> EventV {
        match self {
            Event::Session { proc_file, env_var } => EventV::Session {
                proc_file: proc_file.deep_view(),
                env_var: env_var.deep_view(),
            },
            Event::Owner { owned } => EventV::Owner { owned: *owned },
            Event::Bus { ok } => EventV::Bus { ok: *ok },
            Event::Ran { exit_ok, exit_code, stdout, stderr } => EventV::Ran {
                exit_ok: *exit_ok,
                exit_code: *exit_code,
                stdout: stdout@,
                stderr: stderr@,
            },
            Event::SpawnFailed { code, message } => EventV::SpawnFailed {
                code: *code,
                message: message@,
            },
            Event::Io { ok, code, message } => EventV::Io {
                ok: *ok,
                code: *code,
                message: message@,
            },
            Event::Native { ok, code } => EventV::Native { ok: *ok, code: *code },
        }
    }
}

/// Spec-level twin of [`Phase`].
pub enum PhaseV {
    Resolve,
    MechStart,
    BusCall,
    Trigger,
    NativeRun,
    PkillRun(Seq<char>),
    Done(Result<(), ShutdownErrorV>),
}

/// Where a run stands inside the mechanism at the current position.
pub enum Phase {
    /// Awaiting the session-identifier sources; the chain is built from
    /// them.
    Resolve,
    /// About to hand out the first action of the current mechanism.
    MechStart,
    /// The destination was found owned; the method call is next.
    BusCall,
    /// The first kernel write succeeded; the trigger write is next.
    Trigger,
    /// The privilege acquisition was attempted; the native call is next.
    NativeRun,
    /// The user name was resolved; the kill command is next.
    PkillRun(String),
    /// The run is over, with its result.
    Done(Result<(), ShutdownError>),
}

impl View for Phase {
    type V = PhaseV;

    open spec fn view(&self) -> PhaseV {
        match self {
            Phase::Resolve => PhaseV::Resolve,
            Phase::MechStart => PhaseV::MechStart,
            Phase::BusCall => PhaseV::BusCall,
            Phase::Trigger => PhaseV::Trigger,
            Phase::NativeRun => PhaseV::NativeRun,
            Phase::PkillRun(user) => PhaseV::PkillRun(user@),
            Phase::Done(r) => PhaseV::Done(outcome_view(*r)),
        }
    }
}

/// The spec-level state of a run: the chain, the position of the current
/// mechanism, and the phase within it.
pub struct DispatchV {
    pub plan: Seq<MechanismV>,
    pub idx: int,
    pub phase: PhaseV,
}

/// The arguments of the session-kill command: the user name, and the
/// force flag when the operation is forced.
pub open spec fn pkill_args(user: Seq<char>, forced: bool) -> Seq<Seq<char>> {
    if forced {
        seq!["-u"@, user, "-KILL"@]
    } else {
        seq!["-u"@, user]
    }
}

impl DispatchV {
    /// The starting state over a fallback chain: an empty chain means the
    /// operation is unsupported, and the run is over at once.
    pub open spec fn fresh(plan: Seq<MechanismV>) -> DispatchV {
        if plan.len() == 0 {
            DispatchV { plan, idx: 0, phase: PhaseV::Done(Err(ShutdownErrorV::Unsupported)) }
        } else {
            DispatchV { plan, idx: 0, phase: PhaseV::MechStart }
        }
    }

    /// The starting state of a session-targeted log-out, whose chain is
    /// built once the session identifier's sources are reported.
    pub open spec fn resolving() -> DispatchV {
        DispatchV { plan: Seq::empty(), idx: 0, phase: PhaseV::Resolve }
    }

    /// The state's internal consistency: the position lies within the
    /// chain and the phase agrees with the mechanism at it.
    pub open spec fn wf(self) -> bool {
        match self.phase {
            PhaseV::Resolve => self.plan.len() == 0 && self.idx == 0,
            PhaseV::MechStart => 0 <= self.idx < self.plan.len(),
            PhaseV::BusCall => 0 <= self.idx < self.plan.len() && self.plan[self.idx] is Bus,
            PhaseV::Trigger => 0 <= self.idx < self.plan.len() && self.plan[self.idx]
                is KernelReboot,
            PhaseV::NativeRun => 0 <= self.idx < self.plan.len() && self.plan[self.idx] is Native,
            PhaseV::PkillRun(_) => 0 <= self.idx < self.plan.len() && self.plan[self.idx]
                is PkillUser,
            PhaseV::Done(_) => 0 <= self.idx <= self.plan.len(),
        }
    }

    /// Whether the run is over.
    pub open spec fn is_done(self) -> bool {
        self.phase is Done
    }

    /// A finished run's result.
    pub open spec fn outcome(self) -> Result<(), ShutdownErrorV>
        recommends
            self.is_done(),
    {
        self.phase->Done_0
    }

    /// The state after the current mechanism failed with `err`: the next
    /// mechanism when one is left, otherwise the run ends carrying this
    /// failure — the failures of earlier mechanisms are already gone.
    pub open spec fn advanced(self, err: ShutdownErrorV) -> DispatchV {
        if self.idx + 1 < self.plan.len() {
            DispatchV { plan: self.plan, idx: self.idx + 1, phase: PhaseV::MechStart }
        } else {
            DispatchV { plan: self.plan, idx: self.idx, phase: PhaseV::Done(Err(err)) }
        }
    }

    /// The state after the current mechanism succeeded: the run is over,
    /// and no mechanism after this one is attempted.
    pub open spec fn succeeded(self) -> DispatchV {
        DispatchV { plan: self.plan, idx: self.idx, phase: PhaseV::Done(Ok(())) }
    }

    /// The action the dispatcher hands out in this state; `None` once the
    /// run is over.
    pub open spec fn pending_action(self) -> Option<ActionV> {
        match self.phase {
            PhaseV::Resolve => Some(ActionV::QuerySession),
            PhaseV::MechStart => match self.plan[self.idx] {
                MechanismV::Bus(ep) => Some(ActionV::CheckOwner { destination: ep.destination }),
                MechanismV::Cmd { program, args, check: _ } => Some(
                    ActionV::RunCommand { program, args },
                ),
                MechanismV::KernelReboot => Some(
                    ActionV::KernelWrite { path: "/proc/sys/kernel/sysrq"@, data: "128"@ },
                ),
                MechanismV::Native(_) => Some(ActionV::AcquirePrivilege),
                MechanismV::PkillUser { forced: _ } => Some(
                    ActionV::RunCommand { program: "whoami"@, args: Seq::empty() },
                ),
            },
            PhaseV::BusCall => match self.plan[self.idx] {
                MechanismV::Bus(ep) => Some(ActionV::BusInvoke { endpoint: ep }),
                _ => None,
            },
            PhaseV::Trigger => Some(
                ActionV::KernelWrite { path: "/proc/sysrq-trigger"@, data: "b"@ },
            ),
            PhaseV::NativeRun => match self.plan[self.idx] {
                MechanismV::Native(c) => match c {
                    NativeCallV::Exit { flags, reason } => Some(
                        ActionV::NativeExit { flags, reason },
                    ),
                    NativeCallV::Request { message, timeout, force_close_apps, restart } => Some(
                        ActionV::NativeRequest { message, timeout, force_close_apps, restart },
                    ),
                    NativeCallV::Suspend { hibernate } => Some(
                        ActionV::NativeSuspend { hibernate },
                    ),
                },
                _ => None,
            },
            PhaseV::PkillRun(user) => match self.plan[self.idx] {
                MechanismV::PkillUser { forced } => Some(
                    ActionV::RunCommand { program: "pkill"@, args: pkill_args(user, forced) },
                ),
                _ => None,
            },
            PhaseV::Done(_) => None,
        }
    }

    /// Which events answer this state's pending action.
    pub open spec fn event_fits(self, e: EventV) -> bool {
        match self.phase {
            PhaseV::Resolve => e is Session,
            PhaseV::MechStart => match self.plan[self.idx] {
                MechanismV::Bus(_) => e is Owner,
                MechanismV::Cmd { .. } => e is Ran || e is SpawnFailed,
                MechanismV::KernelReboot => e is Io,
                MechanismV::Native(_) => e is Native,
                MechanismV::PkillUser { .. } => e is Ran || e is SpawnFailed,
            },
            PhaseV::BusCall => e is Bus,
            PhaseV::Trigger => e is Io,
            PhaseV::NativeRun => e is Native,
            PhaseV::PkillRun(_) => e is Ran || e is SpawnFailed,
            PhaseV::Done(_) => false,
        }
    }

    /// The state after the reported event: first success ends the run,
    /// any failure moves past the mechanism it belongs to, and an event
    /// that does not answer the pending action changes nothing.
    pub open spec fn stepped(self, e: EventV) -> DispatchV {
        match self.phase {
            PhaseV::Resolve => match e {
                EventV::Session { proc_file, env_var } => DispatchV {
                    plan: crate::linux::logout_chain(resolved_session(proc_file, env_var)),
                    idx: 0,
                    phase: PhaseV::MechStart,
                },
                _ => self,
            },
            PhaseV::MechStart => match self.plan[self.idx] {
                MechanismV::Bus(_) => match e {
                    EventV::Owner { owned } => if owned {
                        DispatchV { plan: self.plan, idx: self.idx, phase: PhaseV::BusCall }
                    } else {
                        self.advanced(ShutdownErrorV::Bus { skipped: true })
                    },
                    _ => self,
                },
                MechanismV::Cmd { check, .. } => match e {
                    EventV::Ran { exit_ok, exit_code, stderr, .. } => match check {
                        CmdCheck::QuietStderr => if exit_ok && stderr.len() == 0 {
                            self.succeeded()
                        } else {
                            self.advanced(ShutdownErrorV::Output { text: stderr })
                        },
                        CmdCheck::ExitOnly => if exit_ok {
                            self.succeeded()
                        } else {
                            self.advanced(ShutdownErrorV::ExitCode { code: exit_code })
                        },
                    },
                    EventV::SpawnFailed { code, message } => self.advanced(
                        ShutdownErrorV::Io { code, message },
                    ),
                    _ => self,
                },
                MechanismV::KernelReboot => match e {
                    EventV::Io { ok, code, message } => if ok {
                        DispatchV { plan: self.plan, idx: self.idx, phase: PhaseV::Trigger }
                    } else {
                        self.advanced(ShutdownErrorV::Io { code, message })
                    },
                    _ => self,
                },
                MechanismV::Native(_) => match e {
                    EventV::Native { .. } => DispatchV {
                        plan: self.plan,
                        idx: self.idx,
                        phase: PhaseV::NativeRun,
                    },
                    _ => self,
                },
                MechanismV::PkillUser { .. } => match e {
                    EventV::Ran { stdout, .. } => DispatchV {
                        plan: self.plan,
                        idx: self.idx,
                        phase: PhaseV::PkillRun(trimmed(stdout)),
                    },
                    EventV::SpawnFailed { code, message } => self.advanced(
                        ShutdownErrorV::Io { code, message },
                    ),
                    _ => self,
                },
            },
            PhaseV::BusCall => match e {
                EventV::Bus { ok } => if ok {
                    self.succeeded()
                } else {
                    self.advanced(ShutdownErrorV::Bus { skipped: false })
                },
                _ => self,
            },
            PhaseV::Trigger => match e {
                EventV::Io { ok, code, message } => if ok {
                    self.succeeded()
                } else {
                    self.advanced(ShutdownErrorV::Io { code, message })
                },
                _ => self,
            },
            PhaseV::NativeRun => match e {
                EventV::Native { ok, code } => if ok {
                    self.succeeded()
                } else {
                    self.advanced(ShutdownErrorV::Native { code })
                },
                _ => self,
            },
            PhaseV::PkillRun(_) => match e {
                EventV::Ran { exit_ok, exit_code, .. } => if exit_ok {
                    self.succeeded()
                } else {
                    self.advanced(ShutdownErrorV::ExitCode { code: exit_code })
                },
                EventV::SpawnFailed { code, message } => self.advanced(
                    ShutdownErrorV::Io { code, message },
                ),
                _ => self,
            },
            PhaseV::Done(_) => self,
        }
    }

    /// Whether `e` reports the current mechanism's success: the bus call
    /// returned, the utility was judged good by the mechanism's rule, the
    /// trigger write or the native call went through.
    pub open spec fn mech_succeeds(self, e: EventV) -> bool {
        match self.phase {
            PhaseV::MechStart => match self.plan[self.idx] {
                MechanismV::Cmd { check, .. } => match e {
                    EventV::Ran { exit_ok, stderr, .. } => match check {
                        CmdCheck::QuietStderr => exit_ok && stderr.len() == 0,
                        CmdCheck::ExitOnly => exit_ok,
                    },
                    _ => false,
                },
                _ => false,
            },
            PhaseV::BusCall => e matches EventV::Bus { ok: true },
            PhaseV::Trigger => e matches EventV::Io { ok: true, .. },
            PhaseV::NativeRun => e matches EventV::Native { ok: true, .. },
            PhaseV::PkillRun(_) => e matches EventV::Ran { exit_ok: true, .. },
            _ => false,
        }
    }

    /// Whether `e` moves the run forward within the current mechanism —
    /// or, from the resolving state, builds the chain — rather than
    /// settling the mechanism either way.
    pub open spec fn mech_continues(self, e: EventV) -> bool {
        match self.phase {
            PhaseV::Resolve => e is Session,
            PhaseV::MechStart => match self.plan[self.idx] {
                MechanismV::Bus(_) => e matches EventV::Owner { owned: true },
                MechanismV::KernelReboot => e matches EventV::Io { ok: true, .. },
                MechanismV::Native(_) => e is Native,
                MechanismV::PkillUser { .. } => e is Ran,
                MechanismV::Cmd { .. } => false,
            },
            _ => false,
        }
    }

    /// Whether `e` settles the current mechanism as failed.
    pub open spec fn mech_fails(self, e: EventV) -> bool {
        self.event_fits(e) && !self.mech_succeeds(e) && !self.mech_continues(e)
    }
}

/// The discriminant of a phase, read without borrowing its data.
#[derive(Clone, Copy, PartialEq, Eq, Structural, Debug)]
enum PhaseKind {
    Resolve,
    MechStart,
    BusCall,
    Trigger,
    NativeRun,
    PkillRun,
    Done,
}

spec fn phase_kind_of(p: PhaseV) -> PhaseKind {
    match p {
        PhaseV::Resolve => PhaseKind::Resolve,
        PhaseV::MechStart => PhaseKind::MechStart,
        PhaseV::BusCall => PhaseKind::BusCall,
        PhaseV::Trigger => PhaseKind::Trigger,
        PhaseV::NativeRun => PhaseKind::NativeRun,
        PhaseV::PkillRun(_) => PhaseKind::PkillRun,
        PhaseV::Done(_) => PhaseKind::Done,
    }
}

fn phase_kind(p: &Phase) -> (k: PhaseKind)
    ensures
        k == phase_kind_of(p@),
{
    match p {
        Phase::Resolve => PhaseKind::Resolve,
        Phase::MechStart => PhaseKind::MechStart,
        Phase::BusCall => PhaseKind::BusCall,
        Phase::Trigger => PhaseKind::Trigger,
        Phase::NativeRun => PhaseKind::NativeRun,
        Phase::PkillRun(_) => PhaseKind::PkillRun,
        Phase::Done(_) => PhaseKind::Done,
    }
}

/// The discriminant of a mechanism, with the plain data a transition
/// needs, read without borrowing the mechanism's strings.
#[derive(Clone, Copy, PartialEq, Eq, Structural, Debug)]
enum MechKind {
    Bus,
    Cmd(CmdCheck),
    KernelReboot,
    Native,
    PkillUser,
}

spec fn mech_kind_of(m: MechanismV) -> MechKind {
    match m {
        MechanismV::Bus(_) => MechKind::Bus,
        MechanismV::Cmd { check, .. } => MechKind::Cmd(check),
        MechanismV::KernelReboot => MechKind::KernelReboot,
        MechanismV::Native(_) => MechKind::Native,
        MechanismV::PkillUser { .. } => MechKind::PkillUser,
    }
}

fn mech_kind(m: &Mechanism) -> (k: MechKind)
    ensures
        k == mech_kind_of(m@),
{
    match m {
        Mechanism::Bus(_) => MechKind::Bus,
        Mechanism::Cmd { check, .. } => MechKind::Cmd(*check),
        Mechanism::KernelReboot => MechKind::KernelReboot,
        Mechanism::Native(_) => MechKind::Native,
        Mechanism::PkillUser { .. } => MechKind::PkillUser,
    }
}

/// A step from any consistent state leaves a consistent state.
pub proof fn lemma_stepped_wf(d: DispatchV, e: EventV)
    requires
        d.wf(),
    ensures
        d.stepped(e).wf(),
{
}

/// One step of a run obeys the dispatch discipline: the chain, once
/// built, is never altered or reordered; mechanisms are attempted
/// strictly in the declared order, one position at a time; the first
/// success ends the run at once, so no mechanism after it is attempted;
/// a mechanism that fails before the last is left behind with its
/// failure discarded; and a failure becomes the run's result only at the
/// last mechanism, so the result of an exhausted chain is the last
/// mechanism's own failure.
pub proof fn lemma_dispatch_step(d: DispatchV, e: EventV)
    requires
        d.wf(),
        !d.is_done(),
        d.event_fits(e),
    ensures
        d.stepped(e).wf(),
        !(d.phase is Resolve) ==> d.stepped(e).plan == d.plan,
        d.stepped(e).idx == d.idx || d.stepped(e).idx == d.idx + 1,
        d.mech_succeeds(e) <==> (d.stepped(e).is_done() && d.stepped(e).outcome() is Ok),
        d.mech_succeeds(e) ==> d.stepped(e) == d.succeeded()
            && d.stepped(e).pending_action() is None,
        d.mech_continues(e) ==> d.stepped(e).idx == d.idx && !d.stepped(e).is_done(),
        d.mech_fails(e) && d.idx + 1 < d.plan.len() ==> d.stepped(e) == (DispatchV {
            plan: d.plan,
            idx: d.idx + 1,
            phase: PhaseV::MechStart,
        }),
        d.stepped(e).is_done() && d.stepped(e).outcome() is Err ==> d.mech_fails(e) && d.idx
            == d.plan.len() - 1 && d.stepped(e).idx == d.idx,
{
}

/// The state after feeding a run a sequence of events in order.  The
/// fold stops at the first event that does not answer the pending
/// action; in particular it stops as soon as the run is over, since a
/// finished run answers nothing.
pub open spec fn run_events(d: DispatchV, events: Seq<EventV>) -> DispatchV
    decreases events.len(),
{
    if events.len() == 0 || !d.event_fits(events[0]) {
        d
    } else {
        run_events(d.stepped(events[0]), events.drop_first())
    }
}

/// A finished run is inert: whatever is reported afterwards, nothing
/// changes and nothing further is attempted.
pub proof fn lemma_finished_run_is_inert(d: DispatchV, events: Seq<EventV>)
    requires
        d.is_done(),
    ensures
        run_events(d, events) == d,
{
}

/// Over any sequence of events, a run obeys the dispatch discipline as a
/// whole: it stays consistent, the position of the current mechanism
/// never moves backwards — mechanisms are never retried and never taken
/// out of the declared order — and the chain, once built, is never
/// altered.
pub proof fn lemma_run_events_in_order(d: DispatchV, events: Seq<EventV>)
    requires
        d.wf(),
    ensures
        run_events(d, events).wf(),
        run_events(d, events).idx >= d.idx,
        !(d.phase is Resolve) ==> run_events(d, events).plan == d.plan,
    decreases events.len(),
{
    if events.len() > 0 && d.event_fits(events[0]) {
        lemma_dispatch_step(d, events[0]);
        lemma_run_events_in_order(d.stepped(events[0]), events.drop_first());
    }
}

/// A live run that later ends in a failure was exhausted: the failure
/// arose at the last mechanism of the chain, so what the caller sees is
/// that mechanism's own failure.
pub proof fn lemma_run_failure_is_last(d: DispatchV, events: Seq<EventV>)
    requires
        d.wf(),
        !d.is_done(),
    ensures
        run_events(d, events).is_done() && run_events(d, events).outcome() is Err ==> run_events(
            d,
            events,
        ).idx == run_events(d, events).plan.len() - 1,
    decreases events.len(),
{
    if events.len() > 0 && d.event_fits(events[0]) {
        let d2 = d.stepped(events[0]);
        lemma_dispatch_step(d, events[0]);
        if d2.is_done() {
            lemma_finished_run_is_inert(d2, events.drop_first());
        } else {
            lemma_run_failure_is_last(d2, events.drop_first());
        }
    }
}

/// An operation with no mechanism on its platform is over before it
/// begins: the run reports the distinct unsupported failure, and no
/// action — no spawn, no bus call, no write — is ever handed out.
pub proof fn lemma_unsupported_is_inert(plan: Seq<MechanismV>)
    requires
        plan.len() == 0,
    ensures
        DispatchV::fresh(plan).is_done(),
        DispatchV::fresh(plan).outcome() == Result::<(), ShutdownErrorV>::Err(
            ShutdownErrorV::Unsupported,
        ),
        DispatchV::fresh(plan).pending_action() is None,
{
}

/// A destination with no registered owner is skipped outright: the bus
/// mechanism is settled without its method call ever becoming the
/// pending action, and when it was the last mechanism the run ends as
/// skipped.
pub proof fn lemma_unowned_destination_skipped(d: DispatchV, e: EventV)
    requires
        d.wf(),
        d.phase is MechStart,
        d.plan[d.idx] is Bus,
        e == (EventV::Owner { owned: false }),
    ensures
        !(d.stepped(e).pending_action() matches Some(ActionV::BusInvoke { .. })),
        d.idx + 1 < d.plan.len() ==> d.stepped(e) == (DispatchV {
            plan: d.plan,
            idx: d.idx + 1,
            phase: PhaseV::MechStart,
        }),
        d.idx + 1 == d.plan.len() ==> d.stepped(e).is_done() && d.stepped(e).outcome()
            == Result::<(), ShutdownErrorV>::Err(ShutdownErrorV::Bus { skipped: true }),
{
}

/// Under the strict rule a good exit status is not enough: a process
/// that exits well but writes to standard error is judged failed, and
/// the failure carries that stream's text verbatim.
pub proof fn lemma_noisy_stderr_fails(d: DispatchV, e: EventV)
    requires
        d.wf(),
        d.phase is MechStart,
        d.plan[d.idx] matches MechanismV::Cmd { check: CmdCheck::QuietStderr, .. },
        e matches EventV::Ran { stderr, .. } && stderr.len() > 0,
    ensures
        d.mech_fails(e),
        d.idx + 1 == d.plan.len() ==> d.stepped(e).is_done() && (e matches EventV::Ran {
            stderr,
            ..
        } ==> d.stepped(e).outcome() == Result::<(), ShutdownErrorV>::Err(
            ShutdownErrorV::Output { text: stderr },
        )),
{
}

/// A run of one operation's fallback chain.
pub struct Dispatch {
    pub plan: Vec<Mechanism>,
    pub idx: usize,
    pub phase: Phase,
}

impl View for Dispatch {
    type V = DispatchV;

    open spec fn view(&self) -> DispatchV {
        DispatchV { plan: self.plan.deep_view(), idx: self.idx as int, phase: self.phase@ }
    }
}

impl Dispatch {
    /// Starts a run over a fallback chain.  An empty chain stands for an
    /// operation the platform does not support: the run is over at once,
    /// unsupported, and no action is ever handed out.
    pub fn new(plan: Vec<Mechanism>) -> (d: Dispatch)
        ensures
            d@ == DispatchV::fresh(plan.deep_view()),
    {
        if plan.len() == 0 {
            Dispatch { plan, idx: 0, phase: Phase::Done(Err(ShutdownError::Unsupported)) }
        } else {
            Dispatch { plan, idx: 0, phase: Phase::MechStart }
        }
    }

    /// Starts a run of an operation this platform has no mechanism for:
    /// the run is over at once, unsupported, with no side effect.
    pub fn unsupported() -> (d: Dispatch)
        ensures
            d@ == DispatchV::fresh(Seq::<MechanismV>::empty()),
    {
        let v: Vec<Mechanism> = Vec::new();
        proof {
            assert(v.deep_view() =~= Seq::<MechanismV>::empty());
        }
        Dispatch::new(v)
    }

    /// Starts a session-targeted log-out run, which first asks for the
    /// session identifier's sources and builds its chain from them.
    pub fn resolving() -> (d: Dispatch)
        ensures
            d@ == DispatchV::resolving(),
    {
        let d = Dispatch { plan: Vec::new(), idx: 0, phase: Phase::Resolve };
        proof {
            assert(d.plan.deep_view() =~= Seq::<MechanismV>::empty());
        }
        d
    }

    /// Whether the run is over.
    pub fn is_done(&self) -> (r: bool)
        ensures
            r == self@.is_done(),
    {
        matches!(self.phase, Phase::Done(_))
    }

    /// The current mechanism failed with `err`: move to the next one, or
    /// end the run with this failure when none is left.
    fn fail_mech(&mut self, err: ShutdownError)
        requires
            old(self).idx < old(self).plan.len(),
        ensures
            final(self)@ == old(self)@.advanced(err@),
    {
        if self.idx + 1 < self.plan.len() {
            self.idx = self.idx + 1;
            self.phase = Phase::MechStart;
        } else {
            self.phase = Phase::Done(Err(err));
        }
    }

    /// The current mechanism succeeded: the run is over.
    fn succeed(&mut self)
        ensures
            final(self)@ == old(self)@.succeeded(),
    {
        self.phase = Phase::Done(Ok(()));
    }

    /// Feeds the outcome of the pending action back into the run.
    pub fn step(&mut self, e: Event)
        requires
            old(self)@.wf(),
            !old(self)@.is_done(),
            old(self)@.event_fits(e@),
        ensures
            final(self)@ == old(self)@.stepped(e@),
            final(self)@.wf(),
    {
        proof {
            lemma_stepped_wf(old(self)@, e@);
        }
        match phase_kind(&self.phase) {
            PhaseKind::Resolve => match e {
                Event::Session { proc_file, env_var } => {
                    let id = resolve_session_id(proc_file, env_var);
                    self.plan = crate::linux::build_logout_chain(id);
                    self.idx = 0;
                    self.phase = Phase::MechStart;
                },
                _ => {},
            },
            PhaseKind::MechStart => match mech_kind(&self.plan[self.idx]) {
                MechKind::Bus => match e {
                    Event::Owner { owned } => {
                        if owned {
                            self.phase = Phase::BusCall;
                        } else {
                            self.fail_mech(ShutdownError::Bus { skipped: true });
                        }
                    },
                    _ => {},
                },
                MechKind::Cmd(check) => match e {
                    Event::Ran { exit_ok, exit_code, stdout: _, stderr } => match check {
                        CmdCheck::QuietStderr => {
                            if exit_ok && stderr.as_str().is_empty() {
                                self.succeed();
                            } else {
                                self.fail_mech(ShutdownError::Output { text: stderr });
                            }
                        },
                        CmdCheck::ExitOnly => {
                            if exit_ok {
                                self.succeed();
                            } else {
                                self.fail_mech(ShutdownError::ExitCode { code: exit_code });
                            }
                        },
                    },
                    Event::SpawnFailed { code, message } => {
                        self.fail_mech(ShutdownError::Io { code, message });
                    },
                    _ => {},
                },
                MechKind::KernelReboot => match e {
                    Event::Io { ok, code, message } => {
                        if ok {
                            self.phase = Phase::Trigger;
                        } else {
                            self.fail_mech(ShutdownError::Io { code, message });
                        }
                    },
                    _ => {},
                },
                MechKind::Native => match e {
                    Event::Native { .. } => {
                        self.phase = Phase::NativeRun;
                    },
                    _ => {},
                },
                MechKind::PkillUser => match e {
                    Event::Ran { exit_ok: _, exit_code: _, stdout, stderr: _ } => {
                        let user = trim_blanks(stdout.as_str());
                        self.phase = Phase::PkillRun(user);
                    },
                    Event::SpawnFailed { code, message } => {
                        self.fail_mech(ShutdownError::Io { code, message });
                    },
                    _ => {},
                },
            },
            PhaseKind::BusCall => match e {
                Event::Bus { ok } => {
                    if ok {
                        self.succeed();
                    } else {
                        self.fail_mech(ShutdownError::Bus { skipped: false });
                    }
                },
                _ => {},
            },
            PhaseKind::Trigger => match e {
                Event::Io { ok, code, message } => {
                    if ok {
                        self.succeed();
                    } else {
                        self.fail_mech(ShutdownError::Io { code, message });
                    }
                },
                _ => {},
            },
            PhaseKind::NativeRun => match e {
                Event::Native { ok, code } => {
                    if ok {
                        self.succeed();
                    } else {
                        self.fail_mech(ShutdownError::Native { code });
                    }
                },
                _ => {},
            },
            PhaseKind::PkillRun => match e {
                Event::Ran { exit_ok, exit_code, stdout: _, stderr: _ } => {
                    if exit_ok {
                        self.succeed();
                    } else {
                        self.fail_mech(ShutdownError::ExitCode { code: exit_code });
                    }
                },
                Event::SpawnFailed { code, message } => {
                    self.fail_mech(ShutdownError::Io { code, message });
                },
                _ => {},
            },
            PhaseKind::Done => {},
        }
    }

    /// The action to perform next; `None` once the run is over.
    pub fn next_action(&self) -> (a: Option<Action>)
        requires
            self@.wf(),
        ensures
            match a {
                Some(act) => self@.pending_action() == Some(act@),
                None => self@.pending_action() is None,
            },
    {
        match &self.phase {
            Phase::Resolve => Some(Action::QuerySession),
            Phase::MechStart => match &self.plan[self.idx] {
                Mechanism::Bus(ep) => Some(
                    Action::CheckOwner { destination: ep.destination.clone() },
                ),
                Mechanism::Cmd { program, args, check: _ } => Some(
                    Action::RunCommand { program: program.clone(), args: args.clone() },
                ),
                Mechanism::KernelReboot => Some(
                    Action::KernelWrite {
                        path: "/proc/sys/kernel/sysrq".to_owned(),
                        data: "128".to_owned(),
                    },
                ),
                Mechanism::Native(_) => Some(Action::AcquirePrivilege),
                Mechanism::PkillUser { forced: _ } => {
                    let args: Vec<String> = Vec::new();
                    proof {
                        assert(args.deep_view() =~= Seq::<Seq<char>>::empty());
                    }
                    Some(Action::RunCommand { program: "whoami".to_owned(), args })
                },
            },
            Phase::BusCall => match &self.plan[self.idx] {
                Mechanism::Bus(ep) => Some(Action::BusInvoke { endpoint: ep.duplicate() }),
                _ => None,
            },
            Phase::Trigger => Some(
                Action::KernelWrite { path: "/proc/sysrq-trigger".to_owned(), data: "b".to_owned() },
            ),
            Phase::NativeRun => match &self.plan[self.idx] {
                Mechanism::Native(c) => match c {
                    NativeCall::Exit { flags, reason } => Some(
                        Action::NativeExit { flags: *flags, reason: *reason },
                    ),
                    NativeCall::Request { message, timeout, force_close_apps, restart } => Some(
                        Action::NativeRequest {
                            message: message.clone(),
                            timeout: *timeout,
                            force_close_apps: *force_close_apps,
                            restart: *restart,
                        },
                    ),
                    NativeCall::Suspend { hibernate } => Some(
                        Action::NativeSuspend { hibernate: *hibernate },
                    ),
                },
                _ => None,
            },
            Phase::PkillRun(user) => match &self.plan[self.idx] {
                Mechanism::PkillUser { forced } => {
                    let mut args: Vec<String> = Vec::new();
                    args.push("-u".to_owned());
                    args.push(user.clone());
                    if *forced {
                        args.push("-KILL".to_owned());
                    }
                    proof {
                        assert(args.deep_view() =~= pkill_args(user@, *forced));
                    }
                    Some(Action::RunCommand { program: "pkill".to_owned(), args })
                },
                _ => None,
            },
            Phase::Done(_) => None,
        }
    }

    /// A finished run's result.
    pub fn into_outcome(self) -> (r: Result<(), ShutdownError>)
        requires
            self@.is_done(),
        ensures
            outcome_view(r) == self@.outcome(),
    {
        match self.phase {
            Phase::Done(r) => r,
            _ => {
                proof {
                    assert(false);
                }
                Ok(())
            },
        }
    }
}

} // verus!
