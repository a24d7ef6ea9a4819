//! The result type of any half-message operation: a response status, an
//! optional remark, and optionally the original prepared message.

use vstd::prelude::*;

verus! {

/// Response status of a half-message operation, drawn from the fixed wire
/// status enumeration.
#[derive(Debug, Clone, Copy, PartialEq, Eq, Structural)]
pub enum ResponseCode {
    Success,
    SystemError,
    FlushDiskTimeout,
    SlaveNotAvailable,
    NoMessage,
}

/// A prepared (half) message: stored, but not yet visible to consumers.
#[derive(Debug, Clone)]
pub struct MessageExt {
    pub topic: String,
    pub transaction_id: u64,
    pub body: Vec<u8>,
}

/// The outcome of a half-message operation. It is produced by the operation
/// that computed it and consumed immediately by the caller that turns it
/// into a wire response.
#[derive(Debug, Clone)]
pub struct OperationResult {
    pub prepare_message: Option<MessageExt>,
    pub response_remark: Option<String>,
    pub response_code: ResponseCode,
}

impl OperationResult {
    /// Builds an outcome carrying exactly the given status, remark and
    /// payload; reading the fields back yields them unchanged.
    pub fn new(
        response_code: ResponseCode,
        response_remark: Option<String>,
        prepare_message: Option<MessageExt>,
    ) -> (r: OperationResult)
        ensures
            r.response_code == response_code,
            r.response_remark == response_remark,
            r.prepare_message == prepare_message,
    {
        OperationResult { prepare_message, response_remark, response_code }
    }
}

impl Default for OperationResult {
    /// The empty outcome: success with no remark and no payload.
    fn default() -> (r: Self)
        ensures
            r.response_code == ResponseCode::Success,
            r.response_remark is None,
            r.prepare_message is None,
    {
        OperationResult {
            prepare_message: None,
            response_remark: None,
            response_code: ResponseCode::Success,
        }
    }
}

} // verus!
