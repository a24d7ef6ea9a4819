//! The per-connection request dispatch: interprets an inbound control
//! request's operation code, performs the corresponding action, and emits at
//! most one reply. Unknown operation codes are accepted without error and
//! produce no reply, so that newer peers can speak to older ones.

use vstd::prelude::*;

use crate::outcome::{MessageExt, OperationResult};
use crate::transaction::{CheckBackCoordinator, TransactionResolution, TxnState};

verus! {

/// Operation code of the server-initiated "push reply to client"
/// notification; it expects no counter-reply.
pub const PUSH_REPLY_MESSAGE_TO_CLIENT: u32 = 326;

/// Operation code of the broker's outbound transaction check request.
pub const CHECK_TRANSACTION_STATE: u32 = 39;

/// Operation code of the inbound reply to a transaction check, consumed by
/// the check-back coordinator.
pub const CHECK_TRANSACTION_STATE_REPLY: u32 = 349;

/// The operation codes this core recognizes, with an explicit default arm
/// for everything else.
#[derive(Debug, Clone, Copy, PartialEq, Eq, Structural)]
pub enum RequestCode {
    PushReplyMessageToClient,
    CheckTransactionState,
    CheckTransactionStateReply,
    Unknown,
}

/// Which recognized operation a wire code stands for.
pub open spec fn code_kind(code: u32) -> RequestCode {
    if code == PUSH_REPLY_MESSAGE_TO_CLIENT {
        RequestCode::PushReplyMessageToClient
    } else if code == CHECK_TRANSACTION_STATE {
        RequestCode::CheckTransactionState
    } else if code == CHECK_TRANSACTION_STATE_REPLY {
        RequestCode::CheckTransactionStateReply
    } else {
        RequestCode::Unknown
    }
}

impl RequestCode {
    pub fn from_code(code: u32) -> (r: RequestCode)
        ensures
            r == code_kind(code),
    {
        if code == PUSH_REPLY_MESSAGE_TO_CLIENT {
            RequestCode::PushReplyMessageToClient
        } else if code == CHECK_TRANSACTION_STATE {
            RequestCode::CheckTransactionState
        } else if code == CHECK_TRANSACTION_STATE_REPLY {
            RequestCode::CheckTransactionStateReply
        } else {
            RequestCode::Unknown
        }
    }
}

/// One control request or reply as it travels between peers: the operation
/// code and the fields this core reads from it.
#[derive(Debug, Clone)]
pub struct RemotingCommand {
    pub code: u32,
    pub transaction_id: u64,
    pub resolution: Option<TransactionResolution>,
    pub remark: Option<String>,
    pub body: Vec<u8>,
}

/// A transport-level dispatch failure. Handling itself never produces one:
/// a peer's bad behavior is resolved locally, never surfaced as an error.
#[derive(Debug, Clone)]
pub struct DispatchError {
    pub remark: String,
}

/// The client-side processor of inbound control requests.
#[derive(Clone)]
pub struct ClientRemotingProcessor {
    pub coordinator: CheckBackCoordinator,
}

impl ClientRemotingProcessor {
    pub fn new(coordinator: CheckBackCoordinator) -> (r: ClientRemotingProcessor)
        ensures
            r.coordinator == coordinator,
    {
        ClientRemotingProcessor { coordinator }
    }

    /// Handles one inbound request. At most one reply is emitted per
    /// request; in this core every recognized path is fire-and-forget, so
    /// no reply and no error is ever produced. The push-reply notification
    /// is idempotent and stateless here; a transaction check reply is
    /// handed to the coordinator, which resolves the matching pending
    /// check exactly once and drops duplicates silently; an unrecognized
    /// code is an explicit no-op.
    pub fn process_request(&mut self, _connection_id: &str, request: &RemotingCommand) -> (r:
        Result<Option<RemotingCommand>, DispatchError>)
        requires
            old(self).coordinator.wf(),
        ensures
            final(self).coordinator.wf(),
            r matches Ok(reply) && reply is None,
            final(self).coordinator.spec_max_attempts() == old(self).coordinator.spec_max_attempts(),
            code_kind(request.code) != RequestCode::CheckTransactionStateReply ==> *final(self)
                == *old(self),
            code_kind(request.code) == RequestCode::CheckTransactionStateReply
                && request.resolution is None ==> *final(self) == *old(self),
            code_kind(request.code) == RequestCode::CheckTransactionStateReply
                && request.resolution is Some && !old(self).coordinator.pending_map().contains_key(
                request.transaction_id,
            ) ==> *final(self) == *old(self),
            code_kind(request.code) == RequestCode::CheckTransactionStateReply
                && request.resolution is Some && old(self).coordinator.pending_map().contains_key(
                request.transaction_id,
            ) ==> final(self).coordinator.pending_map()
                == old(self).coordinator.pending_map().remove(request.transaction_id),
    {
        let code: RequestCode = RequestCode::from_code(request.code);
        match code {
            RequestCode::PushReplyMessageToClient => Ok(None),
            RequestCode::CheckTransactionStateReply => {
                match request.resolution {
                    Some(resolution) => {
                        // The terminal outcome is consumed by the half-message
                        // state machinery, not by the wire handler: the reply
                        // expects no counter-reply.
                        let _resolved: Option<(TxnState, OperationResult)> =
                            self.coordinator.on_reply(request.transaction_id, resolution, None);
                        Ok(None)
                    },
                    None => Ok(None),
                }
            },
            _ => Ok(None),
        }
    }
}

} // verus!
