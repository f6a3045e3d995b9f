use ipc_channel::ipc::{IpcError, TryRecvError};
use std::io;
use sup_resilience::error::{
    Cause, Component, ConnectError, FaultClass, IPCCommandError, IPCError, IPCReadError,
    ReceiveError, SendError, TryIPCCommandError, TryReceiveError,
};
use sup_resilience::protocol::{Error, NetErr};
use sup_resilience::transport::{IpcFault, TryRecvFault};

fn codec(text: &str) -> ipc_channel::Error {
    Box::new(ipc_channel::ErrorKind::Custom(text.to_string()))
}

fn os(text: &str) -> io::Error {
    io::Error::new(io::ErrorKind::Other, text.to_string())
}

fn protocol(text: &str) -> Error {
    Error { reason: text.to_string() }
}

fn rejection() -> NetErr {
    NetErr { code: 4, msg: "no such service".to_string() }
}

#[test]
fn transport_error_keeps_its_kind_and_cause() {
    let bincode = IPCError::from(IpcError::Bincode(codec("bad bytes")));
    assert!(matches!(bincode.0, IpcFault::Bincode(_)));
    assert_eq!(bincode.message(), "bincode error: bad bytes");
    match bincode.source() {
        Some(Cause::Codec(cause)) => assert_eq!(cause.to_string(), "bad bytes"),
        _ => panic!("a decoding failure has a cause"),
    }

    let io = IPCError::from(IpcError::Io(os("broken pipe")));
    assert!(matches!(io.0, IpcFault::Io(_)));
    assert_eq!(io.message(), "io error: broken pipe");
    match io.source() {
        Some(Cause::Io(cause)) => assert_eq!(cause.to_string(), "broken pipe"),
        _ => panic!("an operating-system failure has a cause"),
    }

    let gone = IPCError::from(IpcError::Disconnected);
    assert!(matches!(gone.0, IpcFault::Disconnected));
    assert_eq!(gone.message(), "disconnected");
    assert!(gone.source().is_none());
    assert_eq!(gone.class(), FaultClass::Transport);
}

#[test]
fn transport_error_renders_around_a_given_cause() {
    assert_eq!(IPCError(IpcFault::Bincode(codec("x"))).render("cause"), "bincode error: cause");
    assert_eq!(IPCError(IpcFault::Io(os("x"))).render("cause"), "io error: cause");
    assert_eq!(IPCError(IpcFault::Disconnected).render("cause"), "disconnected");
}

#[test]
fn read_errors_have_text_and_class() {
    let envelope = IPCReadError::ProtocolDeserialize(protocol("truncated"));
    assert_eq!(envelope.message(), "Failed to deserialize launcher protocol message: truncated");
    assert_eq!(envelope.class(), FaultClass::Protocol(Component::Envelope));
    assert!(envelope.source().is_none());

    let payload = IPCReadError::PayloadDeserialize(protocol("wrong shape"));
    assert_eq!(
        payload.message(),
        "Received an unexpected launcher protocol message payload: wrong shape"
    );
    assert_eq!(payload.class(), FaultClass::Protocol(Component::Payload));
    assert!(payload.source().is_none());

    let rejected = IPCReadError::LauncherCommand(rejection());
    assert_eq!(rejected.message(), "Launcher command execution failed: no such service");
    assert_eq!(rejected.class(), FaultClass::Rejection);
    assert!(rejected.source().is_none());
    match rejected {
        IPCReadError::LauncherCommand(cause) => {
            assert_eq!(cause.code, 4);
            assert_eq!(cause.msg, "no such service");
        },
        _ => panic!("the launcher declined"),
    }
}

#[test]
fn send_errors_have_text_class_and_cause() {
    let envelope = SendError::ProtocolSerialize(protocol("too large"));
    assert_eq!(envelope.message(), "Failed to serialize launcher protocol message: too large");
    assert_eq!(envelope.class(), FaultClass::Protocol(Component::Envelope));
    assert!(envelope.source().is_none());

    let payload = SendError::PayloadSerialize(protocol("bad field"));
    assert_eq!(
        payload.message(),
        "Failed to serialize launcher protocol message payload: bad field"
    );
    assert_eq!(payload.class(), FaultClass::Protocol(Component::Payload));
    assert!(payload.source().is_none());

    let channel = SendError::IPCSend(codec("closed"));
    assert_eq!(channel.message(), "Failed to send command to launcher");
    assert_eq!(channel.class(), FaultClass::Transport);
    match channel.source() {
        Some(Cause::Codec(cause)) => assert_eq!(cause.to_string(), "closed"),
        _ => panic!("a failed send has a cause"),
    }
}

#[test]
fn receive_errors_come_from_their_causes() {
    let read = ReceiveError::from(IPCReadError::LauncherCommand(rejection()));
    assert!(matches!(read, ReceiveError::IPCRead(IPCReadError::LauncherCommand(_))));
    assert_eq!(read.message(), "Failed to read launcher command response");
    assert_eq!(read.class(), FaultClass::Rejection);
    assert!(matches!(read.source(), Some(Cause::Read(IPCReadError::LauncherCommand(_)))));

    let transport = ReceiveError::from(IPCError::from(IpcError::Disconnected));
    assert!(matches!(transport, ReceiveError::IPCReceive(IPCError(IpcFault::Disconnected))));
    assert_eq!(transport.message(), "Failed to receive IPC command response from launcher");
    assert_eq!(transport.class(), FaultClass::Transport);
    assert!(matches!(transport.source(), Some(Cause::Transport(_))));

    let envelope = ReceiveError::from(IPCReadError::ProtocolDeserialize(protocol("x")));
    assert_eq!(envelope.class(), FaultClass::Protocol(Component::Envelope));
    let payload = ReceiveError::from(IPCReadError::PayloadDeserialize(protocol("x")));
    assert_eq!(payload.class(), FaultClass::Protocol(Component::Payload));
}

#[test]
fn try_receive_errors_come_from_their_causes() {
    let read = TryReceiveError::from(IPCReadError::PayloadDeserialize(protocol("x")));
    assert!(matches!(read, TryReceiveError::IPCRead(IPCReadError::PayloadDeserialize(_))));
    assert_eq!(read.message(), "Failed to try reading launcher command response");
    assert_eq!(read.class(), FaultClass::Protocol(Component::Payload));
    assert!(matches!(read.source(), Some(Cause::Read(_))));

    let transport = TryReceiveError::from(IPCError::from(IpcError::Io(os("reset"))));
    assert!(matches!(transport, TryReceiveError::IPCReceive(IPCError(IpcFault::Io(_)))));
    assert_eq!(
        transport.message(),
        "Failed to try receiving IPC command response from launcher"
    );
    assert_eq!(transport.class(), FaultClass::Transport);
    assert!(matches!(transport.source(), Some(Cause::Transport(_))));

    let timeout = TryReceiveError::Timeout;
    assert_eq!(
        timeout.message(),
        "Timed out trying to receive IPC command response from launcher"
    );
    assert_eq!(timeout.class(), FaultClass::Timeout);
    assert!(timeout.source().is_none());
}

#[test]
fn elapsed_deadline_is_a_timeout() {
    assert!(matches!(TryReceiveError::from_transport(TryRecvError::Empty), TryReceiveError::Timeout));
    assert!(matches!(TryReceiveError::from_fault(TryRecvFault::Empty), TryReceiveError::Timeout));
}

#[test]
fn disconnection_is_never_a_timeout() {
    let gone = TryReceiveError::from_transport(TryRecvError::IpcError(IpcError::Disconnected));
    assert!(matches!(gone, TryReceiveError::IPCReceive(IPCError(IpcFault::Disconnected))));
    assert_eq!(gone.class(), FaultClass::Transport);
    assert!(gone.class() != FaultClass::Timeout);

    let io = TryReceiveError::from_transport(TryRecvError::IpcError(IpcError::Io(os("reset"))));
    assert!(matches!(io, TryReceiveError::IPCReceive(IPCError(IpcFault::Io(_)))));
    let bincode =
        TryReceiveError::from_transport(TryRecvError::IpcError(IpcError::Bincode(codec("bad"))));
    assert!(matches!(bincode, TryReceiveError::IPCReceive(IPCError(IpcFault::Bincode(_)))));

    let fault = TryReceiveError::from_fault(TryRecvFault::IpcError(IpcFault::Disconnected));
    assert!(matches!(fault, TryReceiveError::IPCReceive(IPCError(IpcFault::Disconnected))));
}

#[test]
fn command_errors_keep_the_command_name_and_cause() {
    let sent = IPCCommandError::Send("spawn", SendError::IPCSend(codec("closed")));
    assert_eq!(sent.command(), "spawn");
    assert_eq!(sent.message(), "Failed to send 'spawn' command to launcher");
    assert_eq!(sent.class(), FaultClass::Transport);
    assert!(matches!(sent.source(), Some(Cause::Send(SendError::IPCSend(_)))));

    let received = IPCCommandError::Receive(
        "pid_of",
        ReceiveError::from(IPCReadError::LauncherCommand(rejection())),
    );
    assert_eq!(received.command(), "pid_of");
    assert_eq!(received.message(), "Failed to receive 'pid_of' command response from launcher");
    assert_eq!(received.class(), FaultClass::Rejection);
    assert!(matches!(
        received.source(),
        Some(Cause::Receive(ReceiveError::IPCRead(IPCReadError::LauncherCommand(_))))
    ));
}

#[test]
fn try_command_errors_keep_the_command_name_and_cause() {
    let sent = TryIPCCommandError::Send("restart", SendError::PayloadSerialize(protocol("x")));
    assert_eq!(sent.command(), "restart");
    assert_eq!(sent.message(), "Failed to send 'restart' command to launcher");
    assert_eq!(sent.class(), FaultClass::Protocol(Component::Payload));
    assert!(matches!(sent.source(), Some(Cause::Send(SendError::PayloadSerialize(_)))));

    let timed_out = TryIPCCommandError::TryReceive("terminate", TryReceiveError::Timeout);
    assert_eq!(timed_out.command(), "terminate");
    assert_eq!(
        timed_out.message(),
        "Failed to try receiving 'terminate' command response from launcher"
    );
    assert_eq!(timed_out.class(), FaultClass::Timeout);
    assert!(matches!(timed_out.source(), Some(Cause::TryReceive(TryReceiveError::Timeout))));

    let gone = TryIPCCommandError::TryReceive(
        "terminate",
        TryReceiveError::from_transport(TryRecvError::IpcError(IpcError::Disconnected)),
    );
    assert_eq!(gone.class(), FaultClass::Transport);
}

#[test]
fn connect_errors_have_text_class_and_cause() {
    let unreachable = ConnectError::LauncherUnreachable(os("refused"));
    assert_eq!(unreachable.message(), "Failed to establish IPC connection to the launcher");
    assert_eq!(unreachable.class(), FaultClass::Transport);
    match unreachable.source() {
        Some(Cause::Io(cause)) => assert_eq!(cause.to_string(), "refused"),
        _ => panic!("the cause is the operating system's"),
    }

    let startup = ConnectError::IPCServerStartup(os("no socket"));
    assert_eq!(
        startup.message(),
        "Failed to start IPC server to listen for responses from launcher"
    );
    assert_eq!(startup.class(), FaultClass::Transport);
    assert!(matches!(startup.source(), Some(Cause::Io(_))));

    let incoming = ConnectError::IPCIncomingConnection(codec("bad hello"));
    assert_eq!(incoming.message(), "Failed to accept incoming IPC connection from the launcher");
    assert_eq!(incoming.class(), FaultClass::Transport);
    assert!(matches!(incoming.source(), Some(Cause::Codec(_))));

    let send = ConnectError::LauncherRegisterSend(SendError::ProtocolSerialize(protocol("x")));
    assert_eq!(send.message(), "Failed to send registration IPC command to the launcher");
    assert_eq!(send.class(), FaultClass::Protocol(Component::Envelope));
    assert!(matches!(send.source(), Some(Cause::Send(_))));

    let receive = ConnectError::LauncherRegisterReceive(IPCReadError::LauncherCommand(rejection()));
    assert_eq!(
        receive.message(),
        "Failed to receive registration IPC command response from the launcher"
    );
    assert_eq!(receive.class(), FaultClass::Rejection);
    assert!(matches!(receive.source(), Some(Cause::Read(_))));
}

#[test]
fn protocol_failures_render_their_own_text() {
    assert_eq!(protocol("truncated").message(), "truncated");
    assert_eq!(rejection().message(), "no such service");
}
