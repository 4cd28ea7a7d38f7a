//! From the decoded reply of a request to what the operation returns.
//!
//! A reply is what the sender of a request hands back: the decoded JSON
//! body, or the report of why there is none. Every payload arrives inside
//! an envelope, an object whose `data` member holds it; what is returned is
//! always the payload alone.

use vstd::prelude::*;
use crate::error::{Cause, Operation, RpcError};
use crate::json::{Json, Number};
use crate::text::{decimal, lemma_decimal_value_of_decimal, parse_decimal, parsed_decimal};

verus! {

/// The failure of `operation` for want of a decoded body.
pub open spec fn transport_failure(operation: Operation, report: String) -> RpcError {
    RpcError { operation, cause: Cause::Transport(report) }
}

/// The payload of a reply to `operation`: the `data` member of the body.
pub open spec fn payload(operation: Operation, reply: Result<Json, String>) -> Result<
    Json,
    RpcError,
> {
    match reply {
        Err(report) => Err(transport_failure(operation, report)),
        Ok(body) => match body.field("data"@) {
            Some(data) => Ok(data),
            None => Err(RpcError { operation, cause: Cause::MissingData }),
        },
    }
}

/// Whether each item is an envelope.
pub open spec fn all_enveloped(items: Seq<Json>) -> bool {
    forall|i: int| 0 <= i < items.len() ==> (#[trigger] items[i]).field("data"@) is Some
}

/// The payloads of a list of envelopes, one for one and in their order.
pub open spec fn unwrapped(items: Seq<Json>) -> Seq<Json>
    recommends
        all_enveloped(items),
{
    Seq::new(items.len(), |i: int| items[i].field("data"@).unwrap())
}

/// The updates of a reply: the body is an array of envelopes, and the
/// result holds their payloads.
pub open spec fn update_list(reply: Result<Json, String>) -> Result<Seq<Json>, RpcError> {
    match reply {
        Err(report) => Err(transport_failure(Operation::Updates, report)),
        Ok(Json::Array(items)) => if all_enveloped(items@) {
            Ok(unwrapped(items@))
        } else {
            Err(RpcError { operation: Operation::Updates, cause: Cause::MissingData })
        },
        Ok(_) => Err(RpcError { operation: Operation::Updates, cause: Cause::NotAList }),
    }
}

/// The block of a reply: the `message` member of the payload.
pub open spec fn block_message(reply: Result<Json, String>) -> Result<Json, RpcError> {
    match payload(Operation::Blocks, reply) {
        Err(e) => Err(e),
        Ok(data) => match data.field("message"@) {
            Some(message) => Ok(message),
            None => Err(RpcError { operation: Operation::Blocks, cause: Cause::MissingMessage }),
        },
    }
}

/// The unsigned integer that a JSON value stands for as a network id: a
/// non-negative integer that fits in 64 bits, or a string that is the
/// decimal rendering of one.
pub open spec fn network_id(value: Json) -> Option<u64> {
    match value {
        Json::Number(Number::Unsigned(n)) => Some(n),
        Json::Text(s) => parsed_decimal(s@),
        _ => None,
    }
}

/// The chain id of a reply: the member `DEPOSIT_NETWORK_ID` of the
/// payload, as an unsigned integer.
pub open spec fn reply_chain_id(reply: Result<Json, String>) -> Result<u64, RpcError> {
    match payload(Operation::ChainSpec, reply) {
        Err(e) => Err(e),
        Ok(data) => match data.field("DEPOSIT_NETWORK_ID"@) {
            None => Err(
                RpcError { operation: Operation::ChainSpec, cause: Cause::MissingNetworkId },
            ),
            Some(value) => match network_id(value) {
                Some(id) => Ok(id),
                None => Err(
                    RpcError { operation: Operation::ChainSpec, cause: Cause::InvalidNetworkId },
                ),
            },
        },
    }
}

/// Takes the payload out of the reply to `operation`.
pub fn unwrap_envelope<'a>(operation: Operation, reply: &'a Result<Json, String>) -> (r: Result<
    &'a Json,
    RpcError,
>)
    ensures
        match r {
            Ok(data) => payload(operation, *reply) == Ok::<Json, RpcError>(*data),
            Err(e) => payload(operation, *reply) == Err::<Json, RpcError>(e),
        },
{
    match reply {
        Err(report) => Err(RpcError::new(operation, Cause::Transport(report.clone()))),
        Ok(body) => match body.get("data") {
            Some(data) => Ok(data),
            None => Err(RpcError::new(operation, Cause::MissingData)),
        },
    }
}

/// Takes the payloads out of the reply to a request for updates.
pub fn unwrap_update_list<'a>(reply: &'a Result<Json, String>) -> (r: Result<
    Vec<&'a Json>,
    RpcError,
>)
    ensures
        match r {
            Ok(list) => {
                &&& update_list(*reply) matches Ok(payloads)
                &&& list@.len() == payloads.len()
                &&& forall|i: int| 0 <= i < list@.len() ==> *(#[trigger] list@[i]) == payloads[i]
            },
            Err(e) => update_list(*reply) == Err::<Seq<Json>, RpcError>(e),
        },
{
    match reply {
        Err(report) => Err(RpcError::new(Operation::Updates, Cause::Transport(report.clone()))),
        Ok(Json::Array(items)) => {
            let mut list: Vec<&'a Json> = Vec::new();
            let mut i: usize = 0;
            while i < items.len()
                invariant
                    *reply == Ok::<Json, String>(Json::Array(*items)),
                    0 <= i <= items.len(),
                    list@.len() == i,
                    forall|k: int| 0 <= k < i ==> (#[trigger] items@[k]).field("data"@) is Some,
                    forall|k: int|
                        0 <= k < i ==> *(#[trigger] list@[k]) == items@[k].field("data"@).unwrap(),
                decreases items.len() - i,
            {
                match items[i].get("data") {
                    Some(data) => {
                        list.push(data);
                    },
                    None => {
                        assert(!all_enveloped(items@)) by {
                            assert(items@[i as int].field("data"@) is None);
                        }
                        return Err(RpcError::new(Operation::Updates, Cause::MissingData));
                    },
                }
                i = i + 1;
            }
            Ok(list)
        },
        Ok(_) => Err(RpcError::new(Operation::Updates, Cause::NotAList)),
    }
}

/// Takes the block out of the reply to a request for a block.
pub fn unwrap_block<'a>(reply: &'a Result<Json, String>) -> (r: Result<&'a Json, RpcError>)
    ensures
        match r {
            Ok(message) => block_message(*reply) == Ok::<Json, RpcError>(*message),
            Err(e) => block_message(*reply) == Err::<Json, RpcError>(e),
        },
{
    match unwrap_envelope(Operation::Blocks, reply) {
        Err(e) => Err(e),
        Ok(data) => match data.get("message") {
            Some(message) => Ok(message),
            None => Err(RpcError::new(Operation::Blocks, Cause::MissingMessage)),
        },
    }
}

/// Reads a JSON value as a network id.
pub fn coerce_network_id(value: &Json) -> (r: Option<u64>)
    ensures
        r == network_id(*value),
{
    match value {
        Json::Number(Number::Unsigned(n)) => Some(*n),
        Json::Text(s) => parse_decimal(s.as_str()),
        _ => None,
    }
}

/// Takes the chain id out of the reply to a request for the configuration.
pub fn unwrap_chain_id(reply: &Result<Json, String>) -> (r: Result<u64, RpcError>)
    ensures
        r == reply_chain_id(*reply),
{
    match unwrap_envelope(Operation::ChainSpec, reply) {
        Err(e) => Err(e),
        Ok(data) => match data.get("DEPOSIT_NETWORK_ID") {
            None => Err(RpcError::new(Operation::ChainSpec, Cause::MissingNetworkId)),
            Some(value) => match coerce_network_id(value) {
                Some(id) => Ok(id),
                None => Err(RpcError::new(Operation::ChainSpec, Cause::InvalidNetworkId)),
            },
        },
    }
}

/// A body that is an envelope yields its payload, for every operation:
/// what comes back is the `data` member itself, not the object around it.
pub proof fn lemma_envelope_is_unwrapped(operation: Operation, body: Json, data: Json)
    requires
        body.field("data"@) == Some(data),
    ensures
        payload(operation, Ok(body)) == Ok::<Json, RpcError>(data),
{
}

/// A body without a `data` member is a failure of the operation asked
/// for, reported under that operation's name.
pub proof fn lemma_missing_data_is_tagged(operation: Operation, body: Json)
    requires
        body.field("data"@) is None,
    ensures
        payload(operation, Ok(body)) == Err::<Json, RpcError>(
            RpcError { operation, cause: Cause::MissingData },
        ),
        payload(operation, Ok(body))->Err_0.operation.tag() == operation.tag(),
        block_message(Ok(body)) is Err,
        block_message(Ok(body))->Err_0.operation == Operation::Blocks,
        reply_chain_id(Ok(body)) is Err,
        reply_chain_id(Ok(body))->Err_0.operation == Operation::ChainSpec,
{
}

/// A list in which some item has no `data` member is a failure of
/// `updates`, however many of the other items are well formed.
pub proof fn lemma_missing_item_data_is_tagged(items: Vec<Json>, at: int)
    requires
        0 <= at < items@.len(),
        items@[at].field("data"@) is None,
    ensures
        update_list(Ok(Json::Array(items))) == Err::<Seq<Json>, RpcError>(
            RpcError { operation: Operation::Updates, cause: Cause::MissingData },
        ),
{
}

/// A reply without a body is a failure of the operation asked for, and
/// the failure carries the report unchanged.
pub proof fn lemma_transport_failure_is_tagged(operation: Operation, report: String)
    ensures
        payload(operation, Err(report)) == Err::<Json, RpcError>(
            transport_failure(operation, report),
        ),
        update_list(Err(report)) == Err::<Seq<Json>, RpcError>(
            transport_failure(Operation::Updates, report),
        ),
        block_message(Err(report)) == Err::<Json, RpcError>(
            transport_failure(Operation::Blocks, report),
        ),
        reply_chain_id(Err(report)) == Err::<u64, RpcError>(
            transport_failure(Operation::ChainSpec, report),
        ),
{
}

/// Whatever the reply, a failure names the operation that was asked for.
pub proof fn lemma_failure_names_operation(operation: Operation, reply: Result<Json, String>)
    ensures
        payload(operation, reply) matches Err(e) ==> e.operation == operation,
        update_list(reply) matches Err(e) ==> e.operation == Operation::Updates,
        block_message(reply) matches Err(e) ==> e.operation == Operation::Blocks,
        reply_chain_id(reply) matches Err(e) ==> e.operation == Operation::ChainSpec,
{
}

/// An array of envelopes yields as many updates as it has items, each the
/// payload of the item in its place.
pub proof fn lemma_update_list_keeps_order(items: Vec<Json>)
    requires
        all_enveloped(items@),
    ensures
        update_list(Ok(Json::Array(items))) matches Ok(payloads) && payloads.len() == items@.len()
            && forall|i: int|
            0 <= i < items@.len() ==> Some(#[trigger] payloads[i]) == items@[i].field("data"@),
{
}

/// A network id given as a number and the same id given as its decimal
/// string are read alike.
pub proof fn lemma_network_id_forms_agree(id: u64, text: String)
    requires
        text@ == decimal(id as nat),
    ensures
        network_id(Json::Number(Number::Unsigned(id))) == Some(id),
        network_id(Json::Text(text)) == Some(id),
{
    lemma_decimal_value_of_decimal(id as nat);
}

} // verus!
