//! The remote operations, each with its deadline class and its idempotency.

use vstd::prelude::*;
use crate::timeouts::OperationClass;

verus! {

/// Whether issuing an operation twice has the effect of issuing it once.
#[derive(Clone, Copy, Debug, PartialEq, Eq, Structural)]
pub enum Idempotency {
    /// A repeat would duplicate a side effect.
    NonIdempotent,
    /// Reads, deletes and cancels: repeats are harmless.
    Idempotent,
    /// A creation that becomes idempotent once the caller supplies a stable key.
    IdempotentWithKey,
}

/// Every operation of the remote service that the gateway issues.
#[derive(Clone, Copy, Debug, PartialEq, Eq, Structural)]
pub enum RemoteOperation {
    SendMessage,
    StreamChat,
    GetConversation,
    DeleteConversation,
    GenerateTitle,
    AddResource,
    GetResourceStatus,
    ListResources,
    DeleteResource,
    CancelIngestion,
    ChunkedUpload,
    SyncResourceMetadata,
    CheckHealth,
    CheckReady,
}

/// Whether a call may be re-issued after a transient failure: only when the
/// operation is idempotent, or idempotent by key and the key was supplied.
pub open spec fn retry_permitted_spec(idempotency: Idempotency, key_supplied: bool) -> bool {
    match idempotency {
        Idempotency::NonIdempotent => false,
        Idempotency::Idempotent => true,
        Idempotency::IdempotentWithKey => key_supplied,
    }
}

/// Decides whether a call may be re-issued after a transient failure.
pub fn retry_permitted(idempotency: Idempotency, key_supplied: bool) -> (r: bool)
    ensures
        r == retry_permitted_spec(idempotency, key_supplied),
{
    match idempotency {
        Idempotency::NonIdempotent => false,
        Idempotency::Idempotent => true,
        Idempotency::IdempotentWithKey => key_supplied,
    }
}

impl RemoteOperation {
    /// The deadline class of the operation.
    pub open spec fn class_spec(self) -> OperationClass {
        match self {
            RemoteOperation::SendMessage
            | RemoteOperation::GetConversation
            | RemoteOperation::DeleteConversation
            | RemoteOperation::GenerateTitle => OperationClass::Interactive,
            RemoteOperation::StreamChat => OperationClass::Streaming,
            RemoteOperation::CheckHealth | RemoteOperation::CheckReady => OperationClass::Health,
            _ => OperationClass::Bulk,
        }
    }

    /// The idempotency of the operation, fixed per operation.
    pub open spec fn idempotency_spec(self) -> Idempotency {
        match self {
            RemoteOperation::SendMessage
            | RemoteOperation::StreamChat
            | RemoteOperation::ChunkedUpload => Idempotency::NonIdempotent,
            RemoteOperation::AddResource => Idempotency::IdempotentWithKey,
            _ => Idempotency::Idempotent,
        }
    }

    /// The deadline class of the operation.
    pub fn class(&self) -> (r: OperationClass)
        ensures
            r == self.class_spec(),
    {
        match self {
            RemoteOperation::SendMessage
            | RemoteOperation::GetConversation
            | RemoteOperation::DeleteConversation
            | RemoteOperation::GenerateTitle => OperationClass::Interactive,
            RemoteOperation::StreamChat => OperationClass::Streaming,
            RemoteOperation::CheckHealth | RemoteOperation::CheckReady => OperationClass::Health,
            _ => OperationClass::Bulk,
        }
    }

    /// The idempotency of the operation.
    pub fn idempotency(&self) -> (r: Idempotency)
        ensures
            r == self.idempotency_spec(),
    {
        match self {
            RemoteOperation::SendMessage
            | RemoteOperation::StreamChat
            | RemoteOperation::ChunkedUpload => Idempotency::NonIdempotent,
            RemoteOperation::AddResource => Idempotency::IdempotentWithKey,
            _ => Idempotency::Idempotent,
        }
    }
}

} // verus!
