//! The failure taxonomy of the provider.

use vstd::prelude::*;

verus! {

/// The backend operation during which a backend failure was observed.
#[derive(Clone, Copy, PartialEq, Eq, Structural, Debug)]
pub enum BackendOp {
    ListQueues,
    SendMessage,
    ReceiveMessage,
}

/// Everything a messaging operation can fail with.
///
/// Backend failures carry the operation and the actor identifier as
/// structured context, together with the backend's own rendering of the
/// failure.
#[derive(Debug)]
pub enum MessagingError {
    /// The actor identifier had no entry in the link registry at call time.
    NoConnection { actor_id: String },
    /// The backend reported zero discoverable queues for the connection.
    NoQueueAvailable,
    /// A receive operation returned zero messages.
    NoMessageAvailable,
    /// A network, authentication or service failure from the queue backend.
    BackendError { op: BackendOp, actor_id: String, detail: String },
}

} // verus!
