//! The closed sets of failures of the command channel to the launcher: one
//! set for each of connecting, sending a command, receiving a response and
//! receiving a response within a deadline.
//!
//! Every failure has a text, a class and at most one underlying cause. A
//! failure of a command keeps the name of the command that met it.

use crate::protocol;
use crate::transport::{
    ipc_fault, split_ipc_error, split_try_recv_error, try_recv_fault, IpcFault, TryRecvFault,
};
use ipc_channel::ipc::{IpcError, TryRecvError};
use vstd::prelude::*;
use vstd::std_specs::convert::FromSpecImpl;

pub mod laws;

verus! {

/// The part of a protocol message that could not be encoded or decoded.
#[derive(Clone, Copy, Debug, PartialEq, Eq, Structural)]
pub enum Component {
    /// The outer wrapper of the message.
    Envelope,
    /// The data that the wrapper carries.
    Payload,
}

/// The kinds of failure that the command channel tells apart.
#[derive(Clone, Copy, Debug, PartialEq, Eq, Structural)]
pub enum FaultClass {
    /// The connection or the channel failed.
    Transport,
    /// A message could not be encoded or decoded.
    Protocol(Component),
    /// The launcher understood the command and declined it.
    Rejection,
    /// The deadline of a receive passed and no response had arrived.
    Timeout,
}

/// The failure that lies directly under another one.
#[derive(Debug)]
pub enum Cause<'a> {
    /// A failure reported by the operating system.
    Io(&'a std::io::Error),
    /// A failure of the transport's own codec.
    Codec(&'a ipc_channel::Error),
    /// A failure of the transport under a receive.
    Transport(&'a IPCError),
    /// A failure to send a command.
    Send(&'a SendError),
    /// A failure to read a response.
    Read(&'a IPCReadError),
    /// A failure of a blocking receive.
    Receive(&'a ReceiveError),
    /// A failure of a receive within a deadline.
    TryReceive(&'a TryReceiveError),
}

/// A failure of the transport under a receive. It stands between the
/// transport's own error and the receive errors that carry it.
#[derive(Debug)]
pub struct IPCError(pub IpcFault);

impl From<IpcError> for IPCError {
    /// Wraps what the transport reported, as the fault that it is.
    fn from(value: IpcError) -> (error: IPCError) {
        IPCError(split_ipc_error(value))
    }
}

impl FromSpecImpl<IpcError> for IPCError {
    open spec fn obeys_from_spec() -> bool {
        true
    }

    open spec fn from_spec(value: IpcError) -> IPCError {
        IPCError(ipc_fault(value))
    }
}

impl IPCError {
    /// The text of this failure, where `cause` is the text of the failure
    /// that it carries.
    pub open spec fn text_with(self, cause: Seq<char>) -> Seq<char> {
        match self.0 {
            IpcFault::Bincode(_) => "bincode error: "@ + cause,
            IpcFault::Io(_) => "io error: "@ + cause,
            IpcFault::Disconnected => "disconnected"@,
        }
    }

    /// The failure under this one: the codec's or the operating system's;
    /// a disconnection has none.
    pub open spec fn cause(&self) -> Option<Cause<'_>> {
        match &self.0 {
            IpcFault::Bincode(cause) => Some(Cause::Codec(cause)),
            IpcFault::Io(cause) => Some(Cause::Io(cause)),
            IpcFault::Disconnected => None,
        }
    }

    /// Every failure of the transport is of the transport class.
    pub open spec fn fault(self) -> FaultClass {
        FaultClass::Transport
    }

    /// Writes the text of this failure around the text of its cause.
    pub fn render(&self, cause: &str) -> (s: String)
        ensures
            s@ == self.text_with(cause@),
    {
        match &self.0 {
            IpcFault::Bincode(_) => String::from_str("bincode error: ").concat(cause),
            IpcFault::Io(_) => String::from_str("io error: ").concat(cause),
            IpcFault::Disconnected => String::from_str("disconnected"),
        }
    }

    /// The text of this failure. What the cause says of itself is its own
    /// affair; the words around it are fixed.
    pub fn message(&self) -> (s: String)
        ensures
            exists|cause: Seq<char>| s@ == self.text_with(cause),
            self.0 is Disconnected ==> s@ == "disconnected"@,
    {
        let cause = match &self.0 {
            IpcFault::Bincode(cause) => cause.to_string(),
            IpcFault::Io(cause) => cause.to_string(),
            IpcFault::Disconnected => String::new(),
        };
        let s = self.render(cause.as_str());
        assert(s@ == self.text_with(cause@));
        s
    }

    /// The failure directly under this one, if it has one.
    pub fn source(&self) -> (cause: Option<Cause<'_>>)
        ensures
            cause == self.cause(),
    {
        match &self.0 {
            IpcFault::Bincode(cause) => Some(Cause::Codec(cause)),
            IpcFault::Io(cause) => Some(Cause::Io(cause)),
            IpcFault::Disconnected => None,
        }
    }

    /// The class of this failure.
    pub fn class(&self) -> (class: FaultClass)
        ensures
            class == self.fault(),
    {
        FaultClass::Transport
    }
}

/// The failures of reading one response of the launcher.
#[derive(Debug)]
pub enum IPCReadError {
    /// The envelope of the message could not be decoded.
    ProtocolDeserialize(protocol::Error),
    /// The payload could not be decoded into the expected message.
    PayloadDeserialize(protocol::Error),
    /// The launcher reported that the command failed.
    LauncherCommand(protocol::NetErr),
}

impl IPCReadError {
    /// The text of this failure.
    pub open spec fn text(self) -> Seq<char> {
        match self {
            IPCReadError::ProtocolDeserialize(e) => {
                "Failed to deserialize launcher protocol message: "@ + e.text()
            },
            IPCReadError::PayloadDeserialize(e) => {
                "Received an unexpected launcher protocol message payload: "@ + e.text()
            },
            IPCReadError::LauncherCommand(e) => "Launcher command execution failed: "@ + e.text(),
        }
    }

    /// A read failure is the end of its chain: what it carries is part of
    /// its text, not a cause under it.
    pub open spec fn cause(&self) -> Option<Cause<'_>> {
        None
    }

    /// The class of this failure: that of the failure it carries, or its own.
    pub open spec fn fault(self) -> FaultClass {
        match self {
            IPCReadError::ProtocolDeserialize(_) => FaultClass::Protocol(Component::Envelope),
            IPCReadError::PayloadDeserialize(_) => FaultClass::Protocol(Component::Payload),
            IPCReadError::LauncherCommand(_) => FaultClass::Rejection,
        }
    }

    /// The text of this failure, as a string.
    pub fn message(&self) -> (s: String)
        ensures
            s@ == self.text(),
    {
        match self {
            IPCReadError::ProtocolDeserialize(e) => String::from_str(
                "Failed to deserialize launcher protocol message: ",
            ).concat(e.message().as_str()),
            IPCReadError::PayloadDeserialize(e) => String::from_str(
                "Received an unexpected launcher protocol message payload: ",
            ).concat(e.message().as_str()),
            IPCReadError::LauncherCommand(e) => String::from_str(
                "Launcher command execution failed: ",
            ).concat(e.message().as_str()),
        }
    }

    /// The failure directly under this one, if it has one.
    pub fn source(&self) -> (cause: Option<Cause<'_>>)
        ensures
            cause == self.cause(),
    {
        None
    }

    /// The class of this failure.
    pub fn class(&self) -> (class: FaultClass)
        ensures
            class == self.fault(),
    {
        match self {
            IPCReadError::ProtocolDeserialize(_) => FaultClass::Protocol(Component::Envelope),
            IPCReadError::PayloadDeserialize(_) => FaultClass::Protocol(Component::Payload),
            IPCReadError::LauncherCommand(_) => FaultClass::Rejection,
        }
    }
}

/// The failures of sending one command to the launcher.
#[derive(Debug)]
pub enum SendError {
    /// The envelope of the message could not be encoded.
    ProtocolSerialize(protocol::Error),
    /// The payload of the message could not be encoded.
    PayloadSerialize(protocol::Error),
    /// The channel did not take the bytes.
    IPCSend(ipc_channel::Error),
}

impl SendError {
    /// The text of this failure.
    pub open spec fn text(self) -> Seq<char> {
        match self {
            SendError::ProtocolSerialize(e) => {
                "Failed to serialize launcher protocol message: "@ + e.text()
            },
            SendError::PayloadSerialize(e) => {
                "Failed to serialize launcher protocol message payload: "@ + e.text()
            },
            SendError::IPCSend(_) => "Failed to send command to launcher"@,
        }
    }

    /// The failure directly under this one, if it has one.
    pub open spec fn cause(&self) -> Option<Cause<'_>> {
        match self {
            SendError::ProtocolSerialize(_) => None,
            SendError::PayloadSerialize(_) => None,
            SendError::IPCSend(cause) => Some(Cause::Codec(cause)),
        }
    }

    /// The class of this failure: that of the failure it carries, or its own.
    pub open spec fn fault(self) -> FaultClass {
        match self {
            SendError::ProtocolSerialize(_) => FaultClass::Protocol(Component::Envelope),
            SendError::PayloadSerialize(_) => FaultClass::Protocol(Component::Payload),
            SendError::IPCSend(_) => FaultClass::Transport,
        }
    }

    /// The text of this failure, as a string.
    pub fn message(&self) -> (s: String)
        ensures
            s@ == self.text(),
    {
        match self {
            SendError::ProtocolSerialize(e) => String::from_str(
                "Failed to serialize launcher protocol message: ",
            ).concat(e.message().as_str()),
            SendError::PayloadSerialize(e) => String::from_str(
                "Failed to serialize launcher protocol message payload: ",
            ).concat(e.message().as_str()),
            SendError::IPCSend(_) => String::from_str("Failed to send command to launcher"),
        }
    }

    /// The failure directly under this one, if it has one.
    pub fn source(&self) -> (cause: Option<Cause<'_>>)
        ensures
            cause == self.cause(),
    {
        match self {
            SendError::ProtocolSerialize(_) => None,
            SendError::PayloadSerialize(_) => None,
            SendError::IPCSend(cause) => Some(Cause::Codec(cause)),
        }
    }

    /// The class of this failure.
    pub fn class(&self) -> (class: FaultClass)
        ensures
            class == self.fault(),
    {
        match self {
            SendError::ProtocolSerialize(_) => FaultClass::Protocol(Component::Envelope),
            SendError::PayloadSerialize(_) => FaultClass::Protocol(Component::Payload),
            SendError::IPCSend(_) => FaultClass::Transport,
        }
    }
}

/// The failures of a receive that waits until a response arrives.
#[derive(Debug)]
pub enum ReceiveError {
    /// A response arrived and could not be read.
    IPCRead(IPCReadError),
    /// The transport failed before a response arrived.
    IPCReceive(IPCError),
}

impl From<IPCReadError> for ReceiveError {
    /// Wraps the failure that the receive met.
    fn from(source: IPCReadError) -> (error: ReceiveError) {
        ReceiveError::IPCRead(source)
    }
}

impl FromSpecImpl<IPCReadError> for ReceiveError {
    open spec fn obeys_from_spec() -> bool {
        true
    }

    open spec fn from_spec(source: IPCReadError) -> ReceiveError {
        ReceiveError::IPCRead(source)
    }
}

impl From<IPCError> for ReceiveError {
    /// Wraps the failure that the receive met.
    fn from(source: IPCError) -> (error: ReceiveError) {
        ReceiveError::IPCReceive(source)
    }
}

impl FromSpecImpl<IPCError> for ReceiveError {
    open spec fn obeys_from_spec() -> bool {
        true
    }

    open spec fn from_spec(source: IPCError) -> ReceiveError {
        ReceiveError::IPCReceive(source)
    }
}

impl ReceiveError {
    /// The text of this failure.
    pub open spec fn text(self) -> Seq<char> {
        match self {
            ReceiveError::IPCRead(_) => "Failed to read launcher command response"@,
            ReceiveError::IPCReceive(_) => "Failed to receive IPC command response from launcher"@,
        }
    }

    /// The failure directly under this one, if it has one.
    pub open spec fn cause(&self) -> Option<Cause<'_>> {
        match self {
            ReceiveError::IPCRead(cause) => Some(Cause::Read(cause)),
            ReceiveError::IPCReceive(cause) => Some(Cause::Transport(cause)),
        }
    }

    /// The class of this failure: that of the failure it carries, or its own.
    pub open spec fn fault(self) -> FaultClass {
        match self {
            ReceiveError::IPCRead(cause) => cause.fault(),
            ReceiveError::IPCReceive(cause) => cause.fault(),
        }
    }

    /// The text of this failure, as a string.
    pub fn message(&self) -> (s: String)
        ensures
            s@ == self.text(),
    {
        match self {
            ReceiveError::IPCRead(_) => String::from_str("Failed to read launcher command response"),
            ReceiveError::IPCReceive(_) => String::from_str(
                "Failed to receive IPC command response from launcher",
            ),
        }
    }

    /// The failure directly under this one, if it has one.
    pub fn source(&self) -> (cause: Option<Cause<'_>>)
        ensures
            cause == self.cause(),
    {
        match self {
            ReceiveError::IPCRead(cause) => Some(Cause::Read(cause)),
            ReceiveError::IPCReceive(cause) => Some(Cause::Transport(cause)),
        }
    }

    /// The class of this failure.
    pub fn class(&self) -> (class: FaultClass)
        ensures
            class == self.fault(),
    {
        match self {
            ReceiveError::IPCRead(cause) => cause.class(),
            ReceiveError::IPCReceive(cause) => cause.class(),
        }
    }
}

/// The failures of a receive that gives up at a deadline.
#[derive(Debug)]
pub enum TryReceiveError {
    /// A response arrived and could not be read.
    IPCRead(IPCReadError),
    /// The transport failed before a response arrived.
    IPCReceive(IPCError),
    /// The deadline passed and no response had arrived.
    Timeout,
}

impl From<IPCReadError> for TryReceiveError {
    /// Wraps the failure that the receive met.
    fn from(source: IPCReadError) -> (error: TryReceiveError) {
        TryReceiveError::IPCRead(source)
    }
}

impl FromSpecImpl<IPCReadError> for TryReceiveError {
    open spec fn obeys_from_spec() -> bool {
        true
    }

    open spec fn from_spec(source: IPCReadError) -> TryReceiveError {
        TryReceiveError::IPCRead(source)
    }
}

impl From<IPCError> for TryReceiveError {
    /// Wraps the failure that the receive met.
    fn from(source: IPCError) -> (error: TryReceiveError) {
        TryReceiveError::IPCReceive(source)
    }
}

impl FromSpecImpl<IPCError> for TryReceiveError {
    open spec fn obeys_from_spec() -> bool {
        true
    }

    open spec fn from_spec(source: IPCError) -> TryReceiveError {
        TryReceiveError::IPCReceive(source)
    }
}

impl TryReceiveError {
    /// The failure of a receive within a deadline that ended without a
    /// message: a failure of the transport stays one, whatever its kind, and
    /// only a sound and empty transport is a timeout.
    pub open spec fn of_fault(fault: TryRecvFault) -> TryReceiveError {
        match fault {
            TryRecvFault::IpcError(cause) => TryReceiveError::IPCReceive(IPCError(cause)),
            TryRecvFault::Empty => TryReceiveError::Timeout,
        }
    }

    /// The text of this failure.
    pub open spec fn text(self) -> Seq<char> {
        match self {
            TryReceiveError::IPCRead(_) => "Failed to try reading launcher command response"@,
            TryReceiveError::IPCReceive(_) => {
                "Failed to try receiving IPC command response from launcher"@
            },
            TryReceiveError::Timeout => {
                "Timed out trying to receive IPC command response from launcher"@
            },
        }
    }

    /// The failure directly under this one, if it has one.
    pub open spec fn cause(&self) -> Option<Cause<'_>> {
        match self {
            TryReceiveError::IPCRead(cause) => Some(Cause::Read(cause)),
            TryReceiveError::IPCReceive(cause) => Some(Cause::Transport(cause)),
            TryReceiveError::Timeout => None,
        }
    }

    /// The class of this failure: that of the failure it carries, or its own.
    pub open spec fn fault(self) -> FaultClass {
        match self {
            TryReceiveError::IPCRead(cause) => cause.fault(),
            TryReceiveError::IPCReceive(cause) => cause.fault(),
            TryReceiveError::Timeout => FaultClass::Timeout,
        }
    }

    /// Classifies what the transport reported at the deadline.
    pub fn from_fault(fault: TryRecvFault) -> (error: TryReceiveError)
        ensures
            error == Self::of_fault(fault),
    {
        match fault {
            TryRecvFault::IpcError(cause) => TryReceiveError::IPCReceive(IPCError(cause)),
            TryRecvFault::Empty => TryReceiveError::Timeout,
        }
    }

    /// Classifies the transport's own error of a receive that does not
    /// wait: as the fault that it is, by [`TryReceiveError::from_fault`].
    pub fn from_transport(error: TryRecvError) -> (classified: TryReceiveError)
        ensures
            classified == Self::of_fault(try_recv_fault(error)),
    {
        Self::from_fault(split_try_recv_error(error))
    }

    /// The text of this failure, as a string.
    pub fn message(&self) -> (s: String)
        ensures
            s@ == self.text(),
    {
        match self {
            TryReceiveError::IPCRead(_) => String::from_str(
                "Failed to try reading launcher command response",
            ),
            TryReceiveError::IPCReceive(_) => String::from_str(
                "Failed to try receiving IPC command response from launcher",
            ),
            TryReceiveError::Timeout => String::from_str(
                "Timed out trying to receive IPC command response from launcher",
            ),
        }
    }

    /// The failure directly under this one, if it has one.
    pub fn source(&self) -> (cause: Option<Cause<'_>>)
        ensures
            cause == self.cause(),
    {
        match self {
            TryReceiveError::IPCRead(cause) => Some(Cause::Read(cause)),
            TryReceiveError::IPCReceive(cause) => Some(Cause::Transport(cause)),
            TryReceiveError::Timeout => None,
        }
    }

    /// The class of this failure.
    pub fn class(&self) -> (class: FaultClass)
        ensures
            class == self.fault(),
    {
        match self {
            TryReceiveError::IPCRead(cause) => cause.class(),
            TryReceiveError::IPCReceive(cause) => cause.class(),
            TryReceiveError::Timeout => FaultClass::Timeout,
        }
    }
}

/// The failures of running one command on the launcher and waiting for its
/// response.
#[derive(Debug)]
pub enum IPCCommandError {
    /// The named command could not be sent.
    Send(&'static str, SendError),
    /// The response to the named command could not be received.
    Receive(&'static str, ReceiveError),
}

impl IPCCommandError {
    /// The name of the command that met this failure.
    pub open spec fn operation(self) -> &'static str {
        match self {
            IPCCommandError::Send(name, _) => name,
            IPCCommandError::Receive(name, _) => name,
        }
    }

    /// The text of this failure.
    pub open spec fn text(self) -> Seq<char> {
        match self {
            IPCCommandError::Send(name, _) => {
                "Failed to send '"@ + name@ + "' command to launcher"@
            },
            IPCCommandError::Receive(name, _) => {
                "Failed to receive '"@ + name@ + "' command response from launcher"@
            },
        }
    }

    /// The failure directly under this one, if it has one.
    pub open spec fn cause(&self) -> Option<Cause<'_>> {
        match self {
            IPCCommandError::Send(_, cause) => Some(Cause::Send(cause)),
            IPCCommandError::Receive(_, cause) => Some(Cause::Receive(cause)),
        }
    }

    /// The class of this failure: that of the failure it carries, or its own.
    pub open spec fn fault(self) -> FaultClass {
        match self {
            IPCCommandError::Send(_, cause) => cause.fault(),
            IPCCommandError::Receive(_, cause) => cause.fault(),
        }
    }

    /// The name of the command that met this failure.
    pub fn command(&self) -> (name: &'static str)
        ensures
            name == self.operation(),
    {
        match self {
            IPCCommandError::Send(name, _) => name,
            IPCCommandError::Receive(name, _) => name,
        }
    }

    /// The text of this failure, as a string.
    pub fn message(&self) -> (s: String)
        ensures
            s@ == self.text(),
    {
        match self {
            IPCCommandError::Send(name, _) => String::from_str("Failed to send '").concat(
                name,
            ).concat("' command to launcher"),
            IPCCommandError::Receive(name, _) => String::from_str("Failed to receive '").concat(
                name,
            ).concat("' command response from launcher"),
        }
    }

    /// The failure directly under this one, if it has one.
    pub fn source(&self) -> (cause: Option<Cause<'_>>)
        ensures
            cause == self.cause(),
    {
        match self {
            IPCCommandError::Send(_, cause) => Some(Cause::Send(cause)),
            IPCCommandError::Receive(_, cause) => Some(Cause::Receive(cause)),
        }
    }

    /// The class of this failure.
    pub fn class(&self) -> (class: FaultClass)
        ensures
            class == self.fault(),
    {
        match self {
            IPCCommandError::Send(_, cause) => cause.class(),
            IPCCommandError::Receive(_, cause) => cause.class(),
        }
    }
}

/// The failures of running one command on the launcher and waiting for its
/// response no longer than a deadline.
#[derive(Debug)]
pub enum TryIPCCommandError {
    /// The named command could not be sent.
    Send(&'static str, SendError),
    /// The response to the named command could not be received in time.
    TryReceive(&'static str, TryReceiveError),
}

impl TryIPCCommandError {
    /// The name of the command that met this failure.
    pub open spec fn operation(self) -> &'static str {
        match self {
            TryIPCCommandError::Send(name, _) => name,
            TryIPCCommandError::TryReceive(name, _) => name,
        }
    }

    /// The text of this failure.
    pub open spec fn text(self) -> Seq<char> {
        match self {
            TryIPCCommandError::Send(name, _) => {
                "Failed to send '"@ + name@ + "' command to launcher"@
            },
            TryIPCCommandError::TryReceive(name, _) => {
                "Failed to try receiving '"@ + name@ + "' command response from launcher"@
            },
        }
    }

    /// The failure directly under this one, if it has one.
    pub open spec fn cause(&self) -> Option<Cause<'_>> {
        match self {
            TryIPCCommandError::Send(_, cause) => Some(Cause::Send(cause)),
            TryIPCCommandError::TryReceive(_, cause) => Some(Cause::TryReceive(cause)),
        }
    }

    /// The class of this failure: that of the failure it carries, or its own.
    pub open spec fn fault(self) -> FaultClass {
        match self {
            TryIPCCommandError::Send(_, cause) => cause.fault(),
            TryIPCCommandError::TryReceive(_, cause) => cause.fault(),
        }
    }

    /// The name of the command that met this failure.
    pub fn command(&self) -> (name: &'static str)
        ensures
            name == self.operation(),
    {
        match self {
            TryIPCCommandError::Send(name, _) => name,
            TryIPCCommandError::TryReceive(name, _) => name,
        }
    }

    /// The text of this failure, as a string.
    pub fn message(&self) -> (s: String)
        ensures
            s@ == self.text(),
    {
        match self {
            TryIPCCommandError::Send(name, _) => String::from_str("Failed to send '").concat(
                name,
            ).concat("' command to launcher"),
            TryIPCCommandError::TryReceive(name, _) => String::from_str(
                "Failed to try receiving '",
            ).concat(name).concat("' command response from launcher"),
        }
    }

    /// The failure directly under this one, if it has one.
    pub fn source(&self) -> (cause: Option<Cause<'_>>)
        ensures
            cause == self.cause(),
    {
        match self {
            TryIPCCommandError::Send(_, cause) => Some(Cause::Send(cause)),
            TryIPCCommandError::TryReceive(_, cause) => Some(Cause::TryReceive(cause)),
        }
    }

    /// The class of this failure.
    pub fn class(&self) -> (class: FaultClass)
        ensures
            class == self.fault(),
    {
        match self {
            TryIPCCommandError::Send(_, cause) => cause.class(),
            TryIPCCommandError::TryReceive(_, cause) => cause.class(),
        }
    }
}

/// The failures of establishing the channel to the launcher.
#[derive(Debug)]
pub enum ConnectError {
    /// The launcher's end of the channel could not be reached.
    LauncherUnreachable(std::io::Error),
    /// The local listener for the launcher's replies could not be started.
    IPCServerStartup(std::io::Error),
    /// The launcher's incoming connection could not be accepted.
    IPCIncomingConnection(ipc_channel::Error),
    /// The registration command could not be sent.
    LauncherRegisterSend(SendError),
    /// The response to the registration command could not be read.
    LauncherRegisterReceive(IPCReadError),
}

impl ConnectError {
    /// The text of this failure.
    pub open spec fn text(self) -> Seq<char> {
        match self {
            ConnectError::LauncherUnreachable(_) => {
                "Failed to establish IPC connection to the launcher"@
            },
            ConnectError::IPCServerStartup(_) => {
                "Failed to start IPC server to listen for responses from launcher"@
            },
            ConnectError::IPCIncomingConnection(_) => {
                "Failed to accept incoming IPC connection from the launcher"@
            },
            ConnectError::LauncherRegisterSend(_) => {
                "Failed to send registration IPC command to the launcher"@
            },
            ConnectError::LauncherRegisterReceive(_) => {
                "Failed to receive registration IPC command response from the launcher"@
            },
        }
    }

    /// The failure directly under this one, if it has one.
    pub open spec fn cause(&self) -> Option<Cause<'_>> {
        match self {
            ConnectError::LauncherUnreachable(cause) => Some(Cause::Io(cause)),
            ConnectError::IPCServerStartup(cause) => Some(Cause::Io(cause)),
            ConnectError::IPCIncomingConnection(cause) => Some(Cause::Codec(cause)),
            ConnectError::LauncherRegisterSend(cause) => Some(Cause::Send(cause)),
            ConnectError::LauncherRegisterReceive(cause) => Some(Cause::Read(cause)),
        }
    }

    /// The class of this failure: that of the failure it carries, or its own.
    pub open spec fn fault(self) -> FaultClass {
        match self {
            ConnectError::LauncherUnreachable(_) => FaultClass::Transport,
            ConnectError::IPCServerStartup(_) => FaultClass::Transport,
            ConnectError::IPCIncomingConnection(_) => FaultClass::Transport,
            ConnectError::LauncherRegisterSend(cause) => cause.fault(),
            ConnectError::LauncherRegisterReceive(cause) => cause.fault(),
        }
    }

    /// The text of this failure, as a string.
    pub fn message(&self) -> (s: String)
        ensures
            s@ == self.text(),
    {
        match self {
            ConnectError::LauncherUnreachable(_) => String::from_str(
                "Failed to establish IPC connection to the launcher",
            ),
            ConnectError::IPCServerStartup(_) => String::from_str(
                "Failed to start IPC server to listen for responses from launcher",
            ),
            ConnectError::IPCIncomingConnection(_) => String::from_str(
                "Failed to accept incoming IPC connection from the launcher",
            ),
            ConnectError::LauncherRegisterSend(_) => String::from_str(
                "Failed to send registration IPC command to the launcher",
            ),
            ConnectError::LauncherRegisterReceive(_) => String::from_str(
                "Failed to receive registration IPC command response from the launcher",
            ),
        }
    }

    /// The failure directly under this one, if it has one.
    pub fn source(&self) -> (cause: Option<Cause<'_>>)
        ensures
            cause == self.cause(),
    {
        match self {
            ConnectError::LauncherUnreachable(cause) => Some(Cause::Io(cause)),
            ConnectError::IPCServerStartup(cause) => Some(Cause::Io(cause)),
            ConnectError::IPCIncomingConnection(cause) => Some(Cause::Codec(cause)),
            ConnectError::LauncherRegisterSend(cause) => Some(Cause::Send(cause)),
            ConnectError::LauncherRegisterReceive(cause) => Some(Cause::Read(cause)),
        }
    }

    /// The class of this failure.
    pub fn class(&self) -> (class: FaultClass)
        ensures
            class == self.fault(),
    {
        match self {
            ConnectError::LauncherUnreachable(_) => FaultClass::Transport,
            ConnectError::IPCServerStartup(_) => FaultClass::Transport,
            ConnectError::IPCIncomingConnection(_) => FaultClass::Transport,
            ConnectError::LauncherRegisterSend(cause) => cause.class(),
            ConnectError::LauncherRegisterReceive(cause) => cause.class(),
        }
    }
}

} // verus!
