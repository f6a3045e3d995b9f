//! What the inter-process transport reports when it fails, as far as the
//! error taxonomy reads it.

use ipc_channel::ipc::{IpcError, TryRecvError};
use vstd::prelude::*;

verus! {

/// `std::io::Error`, carried as it is; nothing is read of it but its own
/// description.
#[verifier::external_type_specification]
#[verifier::external_body]
pub struct ExIoError(std::io::Error);

/// `bincode::ErrorKind`, which the transport exports: what is inside its
/// boxed `Error`. Carried as it is.
#[verifier::external_type_specification]
#[verifier::external_body]
pub struct ExCodecErrorKind(ipc_channel::ErrorKind);

/// `ipc_channel::ipc::IpcError`: what a receive of the transport fails
/// with. Its variants are told apart by [`split_ipc_error`] alone.
#[verifier::external_type_specification]
#[verifier::external_body]
pub struct ExIpcError(IpcError);

/// `ipc_channel::ipc::TryRecvError`: what a receive that does not wait
/// fails with. Its variants are told apart by [`split_try_recv_error`]
/// alone.
#[verifier::external_type_specification]
#[verifier::external_body]
pub struct ExTryRecvError(TryRecvError);

/// A failure of the transport under a receive: the variants of
/// `ipc_channel::ipc::IpcError`, each with the cause it carries.
#[derive(Debug)]
pub enum IpcFault {
    /// The bytes that arrived could not be decoded.
    Bincode(ipc_channel::Error),
    /// The operating system refused the operation.
    Io(std::io::Error),
    /// The other end of the channel is gone.
    Disconnected,
}

/// What a receive that does not wait reports when it hands over no message:
/// the variants of `ipc_channel::ipc::TryRecvError`.
#[derive(Debug)]
pub enum TryRecvFault {
    /// The transport failed.
    IpcError(IpcFault),
    /// The transport is sound and holds no message.
    Empty,
}

/// The fault that a transport error is: its variant, with its cause.
pub uninterp spec fn ipc_fault(error: IpcError) -> IpcFault;

/// The fault that the error of a receive that does not wait is.
pub uninterp spec fn try_recv_fault(error: TryRecvError) -> TryRecvFault;

/// Tells the variants of `ipc_channel::ipc::IpcError` apart and moves the
/// cause of each into the variant of the same name. The transport's error
/// is opaque to the proofs: the result is named, and a caller learns which
/// fault it is by looking at it.
#[verifier::external_body]
pub(crate) fn split_ipc_error(error: IpcError) -> (fault: IpcFault)
    ensures
        fault == ipc_fault(error),
{
    match error {
        IpcError::Bincode(cause) => IpcFault::Bincode(cause),
        IpcError::Io(cause) => IpcFault::Io(cause),
        IpcError::Disconnected => IpcFault::Disconnected,
    }
}

/// Tells the variants of `ipc_channel::ipc::TryRecvError` apart, and those
/// of the transport failure inside it, and moves the cause of each into the
/// variant of the same name. The result is named, as above.
#[verifier::external_body]
pub(crate) fn split_try_recv_error(error: TryRecvError) -> (fault: TryRecvFault)
    ensures
        fault == try_recv_fault(error),
{
    match error {
        TryRecvError::IpcError(IpcError::Bincode(cause)) => {
            TryRecvFault::IpcError(IpcFault::Bincode(cause))
        },
        TryRecvError::IpcError(IpcError::Io(cause)) => TryRecvFault::IpcError(IpcFault::Io(cause)),
        TryRecvError::IpcError(IpcError::Disconnected) => {
            TryRecvFault::IpcError(IpcFault::Disconnected)
        },
        TryRecvError::Empty => TryRecvFault::Empty,
    }
}

} // verus!
