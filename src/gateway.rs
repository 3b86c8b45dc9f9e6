//! The decisions at the remote-procedure boundary: which requests reach a
//! provider, and which reply or status category each result becomes. No
//! internal detail of a failure crosses the boundary.
use vstd::prelude::*;

use crate::blockchain::{ContentRecord, GatewayError, TransactionResult};

verus! {

/// The status categories a caller can see.
#[derive(Debug, Clone, Copy, PartialEq, Eq, Structural)]
pub enum RpcCode {
    InvalidArgument,
    NotFound,
    Internal,
}

/// The reply to a successful store request.
#[derive(Debug, Clone)]
pub struct StoreReply {
    pub success: bool,
    pub transaction_id: String,
    /// The storage account that holds the record.
    pub account_address: [u8; 32],
}

/// The record a store request carries; a request without one is an invalid
/// argument and reaches no provider.
pub fn require_record(record: Option<ContentRecord>) -> (r: Result<ContentRecord, RpcCode>)
    ensures
        record is None ==> r == Err::<ContentRecord, RpcCode>(RpcCode::InvalidArgument),
        record matches Some(c) ==> r == Ok::<ContentRecord, RpcCode>(c),
{
    match record {
        Some(c) => Ok(c),
        None => Err(RpcCode::InvalidArgument),
    }
}

/// The category a failure is reported under.
pub open spec fn rpc_code_of(e: GatewayError) -> RpcCode {
    if e == GatewayError::NotFound {
        RpcCode::NotFound
    } else {
        RpcCode::Internal
    }
}

/// The category a failure is reported under: a missing record is not found,
/// any other failure is internal.
pub fn rpc_code(e: GatewayError) -> (r: RpcCode)
    ensures
        r == rpc_code_of(e),
{
    match e {
        GatewayError::NotFound => RpcCode::NotFound,
        _ => RpcCode::Internal,
    }
}

/// The reply to a store request: the transaction id and the storage account
/// on success, an internal failure otherwise.
pub fn store_reply(result: Result<(TransactionResult, [u8; 32]), GatewayError>) -> (r: Result<
    StoreReply,
    RpcCode,
>)
    ensures
        result matches Ok((t, account)) ==> r matches Ok(reply) && reply.success
            && reply.transaction_id@ == t.transaction_id@ && reply.account_address == account,
        result is Err ==> r == Err::<StoreReply, RpcCode>(RpcCode::Internal),
{
    match result {
        Ok((t, account)) => Ok(
            StoreReply { success: true, transaction_id: t.transaction_id, account_address: account },
        ),
        Err(_) => Err(RpcCode::Internal),
    }
}

/// The reply to a retrieve request, from what the lookup found: the record,
/// or not found.
pub fn retrieve_reply(found: Result<Option<ContentRecord>, GatewayError>) -> (r: Result<
    ContentRecord,
    RpcCode,
>)
    ensures
        found matches Ok(Some(c)) ==> r == Ok::<ContentRecord, RpcCode>(c),
        found matches Ok(None) ==> r == Err::<ContentRecord, RpcCode>(RpcCode::NotFound),
        found matches Err(e) ==> r == Err::<ContentRecord, RpcCode>(rpc_code_of(e)),
{
    match found {
        Ok(Some(c)) => Ok(c),
        Ok(None) => Err(RpcCode::NotFound),
        Err(e) => Err(rpc_code(e)),
    }
}

} // verus!
