//! The URL of each operation, as a function of the endpoint and the
//! operation's parameters.

use vstd::prelude::*;
use vstd::string::*;
use crate::constants::MAX_REQUEST_LIGHT_CLIENT_UPDATES;
use crate::error::Operation;
use crate::text::{decimal, hex_encode, hex_lower, is_lower_hex, lemma_hex_lower_shape, push_decimal};

verus! {

/// The number of updates actually asked for: the caller's count, cut down
/// to the protocol's ceiling.
pub open spec fn effective_count(count: u8) -> u8 {
    if count > MAX_REQUEST_LIGHT_CLIENT_UPDATES {
        MAX_REQUEST_LIGHT_CLIENT_UPDATES
    } else {
        count
    }
}

/// The part of a bootstrap URL that precedes the block root.
pub open spec fn bootstrap_prefix(endpoint: Seq<char>) -> Seq<char> {
    endpoint + "/eth/v1/beacon/light_client/bootstrap/"@
}

/// The URL that asks for the bootstrap of the block with root `block_root`.
pub open spec fn bootstrap_url(endpoint: Seq<char>, block_root: Seq<u8>) -> Seq<char> {
    bootstrap_prefix(endpoint) + "0x"@ + hex_lower(block_root)
}

/// The URL that asks for `count` updates from `period` on, whatever
/// `count` is.
pub open spec fn updates_query(endpoint: Seq<char>, period: u64, count: u8) -> Seq<char> {
    endpoint + "/eth/v1/beacon/light_client/updates?start_period="@ + decimal(period as nat)
        + "&count="@ + decimal(count as nat)
}

/// The URL that asks for the updates from `period` on, at most `count` of
/// them and never more than the protocol allows.
pub open spec fn updates_url(endpoint: Seq<char>, period: u64, count: u8) -> Seq<char> {
    updates_query(endpoint, period, effective_count(count))
}

/// The URL that asks for the latest finality update.
pub open spec fn finality_update_url(endpoint: Seq<char>) -> Seq<char> {
    endpoint + "/eth/v1/beacon/light_client/finality_update"@
}

/// The URL that asks for the latest optimistic update.
pub open spec fn optimistic_update_url(endpoint: Seq<char>) -> Seq<char> {
    endpoint + "/eth/v1/beacon/light_client/optimistic_update"@
}

/// The URL that asks for the block at `slot`.
pub open spec fn block_url(endpoint: Seq<char>, slot: u64) -> Seq<char> {
    endpoint + "/eth/v2/beacon/blocks/"@ + decimal(slot as nat)
}

/// The URL that asks for the chain configuration.
pub open spec fn spec_url(endpoint: Seq<char>) -> Seq<char> {
    endpoint + "/eth/v1/config/spec"@
}

/// One GET request: the operation it belongs to and its URL.
#[derive(Debug, PartialEq, Eq)]
pub struct Request {
    pub operation: Operation,
    pub url: String,
}

/// Cuts a requested number of updates down to the protocol's ceiling.
pub fn clamp_count(count: u8) -> (r: u8)
    ensures
        r == effective_count(count),
        r <= MAX_REQUEST_LIGHT_CLIENT_UPDATES,
        count > MAX_REQUEST_LIGHT_CLIENT_UPDATES ==> r == MAX_REQUEST_LIGHT_CLIENT_UPDATES,
        count <= MAX_REQUEST_LIGHT_CLIENT_UPDATES ==> r == count,
{
    if count > MAX_REQUEST_LIGHT_CLIENT_UPDATES {
        MAX_REQUEST_LIGHT_CLIENT_UPDATES
    } else {
        count
    }
}

/// Renders the bootstrap URL for `block_root` under `endpoint`.
pub fn render_bootstrap_url(endpoint: &str, block_root: &[u8]) -> (url: String)
    ensures
        url@ == bootstrap_url(endpoint@, block_root@),
{
    let mut url = String::from_str(endpoint);
    url.append("/eth/v1/beacon/light_client/bootstrap/");
    url.append("0x");
    let root_hex = hex_encode(block_root);
    url.append(root_hex.as_str());
    url
}

/// Renders the updates URL for `period` and `count` under `endpoint`.
pub fn render_updates_url(endpoint: &str, period: u64, count: u8) -> (url: String)
    ensures
        url@ == updates_url(endpoint@, period, count),
{
    let count = clamp_count(count);
    let mut url = String::from_str(endpoint);
    url.append("/eth/v1/beacon/light_client/updates?start_period=");
    push_decimal(&mut url, period);
    url.append("&count=");
    push_decimal(&mut url, count as u64);
    url
}

/// Renders the finality-update URL under `endpoint`.
pub fn render_finality_update_url(endpoint: &str) -> (url: String)
    ensures
        url@ == finality_update_url(endpoint@),
{
    let mut url = String::from_str(endpoint);
    url.append("/eth/v1/beacon/light_client/finality_update");
    url
}

/// Renders the optimistic-update URL under `endpoint`.
pub fn render_optimistic_update_url(endpoint: &str) -> (url: String)
    ensures
        url@ == optimistic_update_url(endpoint@),
{
    let mut url = String::from_str(endpoint);
    url.append("/eth/v1/beacon/light_client/optimistic_update");
    url
}

/// Renders the block URL for `slot` under `endpoint`.
pub fn render_block_url(endpoint: &str, slot: u64) -> (url: String)
    ensures
        url@ == block_url(endpoint@, slot),
{
    let mut url = String::from_str(endpoint);
    url.append("/eth/v2/beacon/blocks/");
    push_decimal(&mut url, slot);
    url
}

/// Renders the configuration URL under `endpoint`.
pub fn render_spec_url(endpoint: &str) -> (url: String)
    ensures
        url@ == spec_url(endpoint@),
{
    let mut url = String::from_str(endpoint);
    url.append("/eth/v1/config/spec");
    url
}

/// Whatever count above the ceiling the caller asks for, the URL asks for
/// exactly the ceiling: the caller's number does not appear in it.
pub proof fn lemma_count_is_clamped(endpoint: Seq<char>, period: u64, count: u8)
    requires
        count > MAX_REQUEST_LIGHT_CLIENT_UPDATES,
    ensures
        updates_url(endpoint, period, count) == updates_query(
            endpoint,
            period,
            MAX_REQUEST_LIGHT_CLIENT_UPDATES,
        ),
        updates_url(endpoint, period, count) == endpoint
            + "/eth/v1/beacon/light_client/updates?start_period="@ + decimal(period as nat)
            + "&count="@ + seq!['1', '2', '8'],
{
    assert(decimal(128) == seq!['1', '2', '8']) by {
        reveal_with_fuel(decimal, 3);
        assert(decimal(1) =~= seq!['1']);
        assert(decimal(12) =~= seq!['1', '2']);
        assert(decimal(128) =~= seq!['1', '2', '8']);
    }
}

/// No count makes the URL ask for more than the ceiling, and a count
/// within it is sent as it is.
pub proof fn lemma_count_never_exceeds_ceiling(count: u8)
    ensures
        effective_count(count) <= MAX_REQUEST_LIGHT_CLIENT_UPDATES,
        count <= MAX_REQUEST_LIGHT_CLIENT_UPDATES ==> effective_count(count) == count,
{
}

/// For a block root of 32 bytes the bootstrap URL ends in `0x` and then
/// exactly 64 lower-case hexadecimal digits.
pub proof fn lemma_bootstrap_root_shape(endpoint: Seq<char>, block_root: Seq<u8>)
    requires
        block_root.len() == 32,
    ensures
        ({
            let url = bootstrap_url(endpoint, block_root);
            let start = bootstrap_prefix(endpoint).len() as int;
            &&& url.len() == start + 2 + 64
            &&& url.subrange(0, start) == bootstrap_prefix(endpoint)
            &&& url[start] == '0'
            &&& url[start + 1] == 'x'
            &&& forall|i: int| start + 2 <= i < url.len() ==> is_lower_hex(#[trigger] url[i])
        }),
{
    let url = bootstrap_url(endpoint, block_root);
    let start = bootstrap_prefix(endpoint).len() as int;
    reveal_strlit("0x");
    lemma_hex_lower_shape(block_root);
    assert("0x"@.len() == 2);
    assert(url.subrange(0, start) =~= bootstrap_prefix(endpoint));
    assert forall|i: int| start + 2 <= i < url.len() implies is_lower_hex(#[trigger] url[i]) by {
        assert(url[i] == hex_lower(block_root)[i - start - 2]);
    }
}

} // verus!
