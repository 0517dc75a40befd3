//! The vocabulary of the fallback chains: the mechanisms an operation may
//! attempt, in the order a platform declares them.
//!
//! A mechanism is one entry of a fallback chain.  Each carries everything
//! the performer needs: a session-bus endpoint with its argument payload,
//! a utility with its argument vector, the fixed kernel trigger writes, a
//! native call's flag words.  Spec-level twins (`EndpointV` and friends)
//! carry the same data over `Seq<char>` so that contracts can pin the
//! chains down exactly.

use vstd::prelude::*;

verus! {

/// Spec-level twin of [`Endpoint`]: the same four names and argument over
/// character sequences.
pub struct EndpointV {
    pub destination: Seq<char>,
    pub object_path: Seq<char>,
    pub interface: Seq<char>,
    pub method: Seq<char>,
    pub arg: BusArgV,
}

/// Spec-level twin of [`BusArg`].
pub enum BusArgV {
    Unit,
    Flag(bool),
    Number(i32),
    Text(Seq<char>),
}

/// The argument payload of one session-bus method call: unit, a boolean,
/// an integer, or a string.
#[derive(Debug, PartialEq, Eq)]
pub enum BusArg {
    Unit,
    Flag(bool),
    Number(i32),
    Text(String),
}

impl View for BusArg {
    type V = BusArgV;

    open spec fn view(&self) -> BusArgV {
        match self {
            BusArg::Unit => BusArgV::Unit,
            BusArg::Flag(b) => BusArgV::Flag(*b),
            BusArg::Number(n) => BusArgV::Number(*n),
            BusArg::Text(s) => BusArgV::Text(s@),
        }
    }
}

impl DeepView for BusArg {
    type V = BusArgV;

    open spec fn deep_view(&self) -> BusArgV {
        self.view()
    }
}

/// One session-bus method call: destination service, object path,
/// interface, method name, and the argument payload.
#[derive(Debug, PartialEq, Eq)]
pub struct Endpoint {
    pub destination: String,
    pub object_path: String,
    pub interface: String,
    pub method: String,
    pub arg: BusArg,
}

impl View for Endpoint {
    type V = EndpointV;

    open spec fn view(&self) -> EndpointV {
        EndpointV {
            destination: self.destination@,
            object_path: self.object_path@,
            interface: self.interface@,
            method: self.method@,
            arg: self.arg@,
        }
    }
}

impl DeepView for Endpoint {
    type V = EndpointV;

    open spec fn deep_view(&self) -> EndpointV {
        self.view()
    }
}

impl BusArg {
    /// An identical copy of this argument payload.
    pub fn duplicate(&self) -> (r: BusArg)
        ensures
            r@ == self@,
    {
        match self {
            BusArg::Unit => BusArg::Unit,
            BusArg::Flag(b) => BusArg::Flag(*b),
            BusArg::Number(n) => BusArg::Number(*n),
            BusArg::Text(s) => BusArg::Text(s.clone()),
        }
    }
}

impl Endpoint {
    /// An identical copy of this endpoint.
    pub fn duplicate(&self) -> (r: Endpoint)
        ensures
            r@ == self@,
    {
        Endpoint {
            destination: self.destination.clone(),
            object_path: self.object_path.clone(),
            interface: self.interface.clone(),
            method: self.method.clone(),
            arg: self.arg.duplicate(),
        }
    }
}

/// Builds an endpoint from its four names and argument.
pub fn endpoint(
    destination: &str,
    object_path: &str,
    interface: &str,
    method: &str,
    arg: BusArg,
) -> (e: Endpoint)
    ensures
        e@ == (EndpointV {
            destination: destination@,
            object_path: object_path@,
            interface: interface@,
            method: method@,
            arg: arg@,
        }),
{
    Endpoint {
        destination: destination.to_owned(),
        object_path: object_path.to_owned(),
        interface: interface.to_owned(),
        method: method.to_owned(),
        arg,
    }
}

/// How a spawned utility's outcome is judged: the strict rule also demands
/// an empty captured standard-error stream and reports that stream's text
/// on failure; the lenient rule looks at the exit status alone and reports
/// the exit code on failure.
#[derive(Clone, Copy, PartialEq, Eq, Structural, Debug)]
pub enum CmdCheck {
    QuietStderr,
    ExitOnly,
}

/// Spec-level twin of [`NativeCall`].
pub enum NativeCallV {
    Exit { flags: u32, reason: u32 },
    Request { message: Seq<char>, timeout: u32, force_close_apps: bool, restart: bool },
    Suspend { hibernate: bool },
}

/// One native power-transition primitive, always preceded by an attempt to
/// acquire the shutdown privilege on the current process token.
#[derive(Debug, PartialEq, Eq)]
pub enum NativeCall {
    /// The immediate, unconditional state-change call, with its flag word
    /// and reason code.
    Exit { flags: u32, reason: u32 },
    /// The "request shutdown with message" call: a notification string, a
    /// timeout in seconds, a force-close-applications flag, and whether to
    /// reboot rather than shut down.
    Request { message: String, timeout: u32, force_close_apps: bool, restart: bool },
    /// The suspend primitive, selecting hibernate over sleep by a flag.
    Suspend { hibernate: bool },
}

impl View for NativeCall {
    type V = NativeCallV;

    open spec fn view(&self) -> NativeCallV {
        match self {
            NativeCall::Exit { flags, reason } => NativeCallV::Exit {
                flags: *flags,
                reason: *reason,
            },
            NativeCall::Request { message, timeout, force_close_apps, restart } => {
                NativeCallV::Request {
                    message: message@,
                    timeout: *timeout,
                    force_close_apps: *force_close_apps,
                    restart: *restart,
                }
            },
            NativeCall::Suspend { hibernate } => NativeCallV::Suspend { hibernate: *hibernate },
        }
    }
}

impl DeepView for NativeCall {
    type V = NativeCallV;

    open spec fn deep_view(&self) -> NativeCallV {
        self.view()
    }
}

/// Spec-level twin of [`Mechanism`].
pub enum MechanismV {
    Bus(EndpointV),
    Cmd { program: Seq<char>, args: Seq<Seq<char>>, check: CmdCheck },
    KernelReboot,
    Native(NativeCallV),
    PkillUser { forced: bool },
}

/// One entry of a fallback chain.
#[derive(Debug, PartialEq, Eq)]
pub enum Mechanism {
    /// A session-bus method call, gated on the destination having a
    /// registered owner.
    Bus(Endpoint),
    /// A spawned system utility with a fixed argument vector, judged by
    /// `check`.
    Cmd { program: String, args: Vec<String>, check: CmdCheck },
    /// The low-level forced-reboot trigger: two fixed writes to kernel
    /// control files, both of which must succeed.
    KernelReboot,
    /// A native power-transition call, preceded by privilege acquisition.
    Native(NativeCall),
    /// The session-kill fallback: resolve the current user's name, then
    /// kill that user's processes, with a force flag when requested.
    PkillUser { forced: bool },
}

impl View for Mechanism {
    type V = MechanismV;

    open spec fn view(&self) -> MechanismV {
        match self {
            Mechanism::Bus(e) => MechanismV::Bus(e@),
            Mechanism::Cmd { program, args, check } => MechanismV::Cmd {
                program: program@,
                args: args.deep_view(),
                check: *check,
            },
            Mechanism::KernelReboot => MechanismV::KernelReboot,
            Mechanism::Native(c) => MechanismV::Native(c@),
            Mechanism::PkillUser { forced } => MechanismV::PkillUser { forced: *forced },
        }
    }
}

impl DeepView for Mechanism {
    type V = MechanismV;

    open spec fn deep_view(&self) -> MechanismV {
        self.view()
    }
}

/// A bus-call mechanism from its endpoint's parts.
pub open spec fn bus_call(
    destination: Seq<char>,
    object_path: Seq<char>,
    interface: Seq<char>,
    method: Seq<char>,
    arg: BusArgV,
) -> MechanismV {
    MechanismV::Bus(EndpointV { destination, object_path, interface, method, arg })
}

/// Builds a bus-call mechanism from its endpoint's parts.
pub fn bus_mech(
    destination: &str,
    object_path: &str,
    interface: &str,
    method: &str,
    arg: BusArg,
) -> (m: Mechanism)
    ensures
        m@ == bus_call(destination@, object_path@, interface@, method@, arg@),
{
    Mechanism::Bus(endpoint(destination, object_path, interface, method, arg))
}

/// Builds a command mechanism from a program name and its arguments.
pub fn command(program: &str, args: Vec<String>, check: CmdCheck) -> (m: Mechanism)
    ensures
        m@ == (MechanismV::Cmd { program: program@, args: args.deep_view(), check }),
{
    Mechanism::Cmd { program: program.to_owned(), args, check }
}

} // verus!
