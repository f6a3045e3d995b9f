//! What holds of the failures of the command channel as a whole.

use crate::error::{
    Cause, Component, ConnectError, FaultClass, IPCCommandError, IPCError, IPCReadError,
    ReceiveError, SendError, TryIPCCommandError, TryReceiveError,
};
use crate::transport::{IpcFault, TryRecvFault};
use vstd::prelude::*;
use vstd::std_specs::convert::FromSpec;

verus! {

/// A failure keeps its class through every wrapper: the failure of a
/// receive, of a command or of connecting is of the class of the send,
/// read or transport failure inside it, and a command's failure names the
/// command it was built with and has that failure as its cause.
pub proof fn wrapping_keeps_class_and_command(
    name: &'static str,
    sent: SendError,
    read: IPCReadError,
    transport: IPCError,
)
    ensures
        IPCCommandError::Send(name, sent).fault() == sent.fault(),
        TryIPCCommandError::Send(name, sent).fault() == sent.fault(),
        ConnectError::LauncherRegisterSend(sent).fault() == sent.fault(),
        IPCCommandError::Receive(name, ReceiveError::from_spec(read)).fault() == read.fault(),
        TryIPCCommandError::TryReceive(name, TryReceiveError::from_spec(read)).fault()
            == read.fault(),
        ConnectError::LauncherRegisterReceive(read).fault() == read.fault(),
        IPCCommandError::Receive(name, ReceiveError::from_spec(transport)).fault()
            == FaultClass::Transport,
        TryIPCCommandError::TryReceive(name, TryReceiveError::from_spec(transport)).fault()
            == FaultClass::Transport,
        IPCCommandError::Send(name, sent).operation() == name,
        IPCCommandError::Receive(name, ReceiveError::from_spec(read)).operation() == name,
        TryIPCCommandError::Send(name, sent).operation() == name,
        TryIPCCommandError::TryReceive(name, TryReceiveError::from_spec(read)).operation() == name,
        ReceiveError::from_spec(read).cause() == Some(Cause::Read(&read)),
        ReceiveError::from_spec(transport).cause() == Some(Cause::Transport(&transport)),
        TryReceiveError::from_spec(read).cause() == Some(Cause::Read(&read)),
        TryReceiveError::from_spec(transport).cause() == Some(Cause::Transport(&transport)),
{
}

/// Within the failures of one operation each class has a variant of its
/// own: the variant tells the class and the class tells the variant. A
/// receive fails by a read failure, which is a protocol failure of the
/// envelope or of the payload or a rejection, or by the transport; only a
/// receive within a deadline can also time out.
pub proof fn each_class_has_its_variant(
    sent: SendError,
    read: IPCReadError,
    received: ReceiveError,
    tried: TryReceiveError,
)
    ensures
        sent is ProtocolSerialize <==> sent.fault() == FaultClass::Protocol(Component::Envelope),
        sent is PayloadSerialize <==> sent.fault() == FaultClass::Protocol(Component::Payload),
        sent is IPCSend <==> sent.fault() == FaultClass::Transport,
        read is ProtocolDeserialize <==> read.fault() == FaultClass::Protocol(Component::Envelope),
        read is PayloadDeserialize <==> read.fault() == FaultClass::Protocol(Component::Payload),
        read is LauncherCommand <==> read.fault() == FaultClass::Rejection,
        received is IPCReceive <==> received.fault() == FaultClass::Transport,
        received is IPCRead <==> received.fault() is Protocol || received.fault()
            == FaultClass::Rejection,
        received.fault() != FaultClass::Timeout,
        tried is IPCReceive <==> tried.fault() == FaultClass::Transport,
        tried is IPCRead <==> tried.fault() is Protocol || tried.fault() == FaultClass::Rejection,
        tried is Timeout <==> tried.fault() == FaultClass::Timeout,
{
}

/// A receive within a deadline that ends without a message times out
/// exactly when the transport was sound and empty. A failure of the
/// transport, a disconnection among them, is reported as that failure and
/// is of the transport class, never a timeout.
pub proof fn timeout_is_no_transport_failure(fault: TryRecvFault, cause: IpcFault)
    ensures
        TryReceiveError::of_fault(fault) is Timeout <==> fault is Empty,
        TryReceiveError::of_fault(fault).fault() == FaultClass::Timeout <==> fault is Empty,
        TryReceiveError::of_fault(TryRecvFault::IpcError(cause)) == TryReceiveError::IPCReceive(
            IPCError(cause),
        ),
        TryReceiveError::of_fault(TryRecvFault::IpcError(IpcFault::Disconnected)).fault()
            == FaultClass::Transport,
{
}

} // verus!
