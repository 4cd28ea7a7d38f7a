//! The client for one beacon node: the requests it makes and what it
//! returns for each reply.

use vstd::prelude::*;
use vstd::string::*;
use crate::constants::{BACKOFF_EXPONENT, MAX_RETRIES};
use crate::error::{Operation, RpcError};
use crate::json::Json;
use crate::reply::{
    block_message, payload, reply_chain_id, unwrap_block, unwrap_chain_id, unwrap_envelope,
    unwrap_update_list, update_list,
};
use crate::retry::{build_backoff, RetryPolicy};
use crate::request::{
    block_url, bootstrap_url, finality_update_url, optimistic_update_url, render_block_url,
    render_bootstrap_url, render_finality_update_url, render_optimistic_update_url,
    render_spec_url, render_updates_url, spec_url, updates_url, Request,
};

verus! {

/// A client for the node at one endpoint. It keeps the endpoint and the
/// retry policy it was made with; no call changes it.
#[derive(Debug)]
pub struct NimbusRpc {
    rpc: String,
    retry: RetryPolicy,
}

impl NimbusRpc {
    /// The endpoint the client was made for.
    pub closed spec fn endpoint(&self) -> Seq<char> {
        self.rpc@
    }

    /// The retry policy the client was made with.
    pub closed spec fn policy(&self) -> RetryPolicy {
        self.retry
    }

    /// A client for the node at `rpc`, whose requests are retried up to
    /// three times with a backoff of base one. Any text is accepted: a bad
    /// endpoint shows when a request is sent.
    pub fn new(rpc: &str) -> (client: NimbusRpc)
        ensures
            client.endpoint() == rpc@,
            client.policy().backoff_exponent == BACKOFF_EXPONENT,
            client.policy().max_retries == MAX_RETRIES,
    {
        NimbusRpc { rpc: String::from_str(rpc), retry: build_backoff(BACKOFF_EXPONENT, MAX_RETRIES) }
    }

    /// The endpoint the client was made for.
    pub fn rpc(&self) -> (s: &str)
        ensures
            s@ == self.endpoint(),
    {
        self.rpc.as_str()
    }

    /// The retry policy every request is sent under.
    pub fn retry_policy(&self) -> (policy: &RetryPolicy)
        ensures
            *policy == self.policy(),
    {
        &self.retry
    }

    /// The request for the bootstrap of the block with root `block_root`.
    /// A root of any length is rendered as it is.
    pub fn bootstrap_request(&self, block_root: &[u8]) -> (request: Request)
        ensures
            request.operation == Operation::Bootstrap,
            request.url@ == bootstrap_url(self.endpoint(), block_root@),
    {
        Request {
            operation: Operation::Bootstrap,
            url: render_bootstrap_url(self.rpc.as_str(), block_root),
        }
    }

    /// The request for the updates from `period` on, at most `count` of
    /// them and never more than the protocol allows.
    pub fn updates_request(&self, period: u64, count: u8) -> (request: Request)
        ensures
            request.operation == Operation::Updates,
            request.url@ == updates_url(self.endpoint(), period, count),
    {
        Request {
            operation: Operation::Updates,
            url: render_updates_url(self.rpc.as_str(), period, count),
        }
    }

    /// The request for the latest finality update.
    pub fn finality_update_request(&self) -> (request: Request)
        ensures
            request.operation == Operation::FinalityUpdate,
            request.url@ == finality_update_url(self.endpoint()),
    {
        Request {
            operation: Operation::FinalityUpdate,
            url: render_finality_update_url(self.rpc.as_str()),
        }
    }

    /// The request for the latest optimistic update.
    pub fn optimistic_update_request(&self) -> (request: Request)
        ensures
            request.operation == Operation::OptimisticUpdate,
            request.url@ == optimistic_update_url(self.endpoint()),
    {
        Request {
            operation: Operation::OptimisticUpdate,
            url: render_optimistic_update_url(self.rpc.as_str()),
        }
    }

    /// The request for the block at `slot`.
    pub fn block_request(&self, slot: u64) -> (request: Request)
        ensures
            request.operation == Operation::Blocks,
            request.url@ == block_url(self.endpoint(), slot),
    {
        Request { operation: Operation::Blocks, url: render_block_url(self.rpc.as_str(), slot) }
    }

    /// The request for the chain configuration.
    pub fn chain_id_request(&self) -> (request: Request)
        ensures
            request.operation == Operation::ChainSpec,
            request.url@ == spec_url(self.endpoint()),
    {
        Request { operation: Operation::ChainSpec, url: render_spec_url(self.rpc.as_str()) }
    }

    /// The bootstrap that `reply` holds, or the failure of `bootstrap`.
    pub fn get_bootstrap<'a>(&self, reply: &'a Result<Json, String>) -> (r: Result<
        &'a Json,
        RpcError,
    >)
        ensures
            match r {
                Ok(data) => payload(Operation::Bootstrap, *reply) == Ok::<Json, RpcError>(*data),
                Err(e) => payload(Operation::Bootstrap, *reply) == Err::<Json, RpcError>(e),
            },
    {
        unwrap_envelope(Operation::Bootstrap, reply)
    }

    /// The updates that `reply` holds, as many as its array has and in the
    /// array's order, or the failure of `updates`.
    pub fn get_updates<'a>(&self, reply: &'a Result<Json, String>) -> (r: Result<
        Vec<&'a Json>,
        RpcError,
    >)
        ensures
            match r {
                Ok(list) => {
                    &&& update_list(*reply) matches Ok(payloads)
                    &&& list@.len() == payloads.len()
                    &&& forall|i: int|
                        0 <= i < list@.len() ==> *(#[trigger] list@[i]) == payloads[i]
                },
                Err(e) => update_list(*reply) == Err::<Seq<Json>, RpcError>(e),
            },
    {
        unwrap_update_list(reply)
    }

    /// The finality update that `reply` holds, or the failure of
    /// `finality_update`.
    pub fn get_finality_update<'a>(&self, reply: &'a Result<Json, String>) -> (r: Result<
        &'a Json,
        RpcError,
    >)
        ensures
            match r {
                Ok(data) => payload(Operation::FinalityUpdate, *reply) == Ok::<Json, RpcError>(
                    *data,
                ),
                Err(e) => payload(Operation::FinalityUpdate, *reply) == Err::<Json, RpcError>(e),
            },
    {
        unwrap_envelope(Operation::FinalityUpdate, reply)
    }

    /// The optimistic update that `reply` holds, or the failure of
    /// `optimistic_update`.
    pub fn get_optimistic_update<'a>(&self, reply: &'a Result<Json, String>) -> (r: Result<
        &'a Json,
        RpcError,
    >)
        ensures
            match r {
                Ok(data) => payload(Operation::OptimisticUpdate, *reply) == Ok::<Json, RpcError>(
                    *data,
                ),
                Err(e) => payload(Operation::OptimisticUpdate, *reply) == Err::<Json, RpcError>(e),
            },
    {
        unwrap_envelope(Operation::OptimisticUpdate, reply)
    }

    /// The block that `reply` holds, without what wraps it, or the failure
    /// of `blocks`.
    pub fn get_block<'a>(&self, reply: &'a Result<Json, String>) -> (r: Result<&'a Json, RpcError>)
        ensures
            match r {
                Ok(message) => block_message(*reply) == Ok::<Json, RpcError>(*message),
                Err(e) => block_message(*reply) == Err::<Json, RpcError>(e),
            },
    {
        unwrap_block(reply)
    }

    /// The chain id that `reply` holds, or the failure of `spec`.
    pub fn chain_id(&self, reply: &Result<Json, String>) -> (r: Result<u64, RpcError>)
        ensures
            r == reply_chain_id(*reply),
    {
        unwrap_chain_id(reply)
    }
}

} // verus!
