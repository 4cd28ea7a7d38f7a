use consensus_rpc::error::{Cause, Operation, RpcError};
use consensus_rpc::json::{Json, Number};
use consensus_rpc::nimbus::NimbusRpc;
use consensus_rpc::reply::{coerce_network_id, unwrap_envelope};

fn text(s: &str) -> Json {
    Json::Text(s.to_string())
}

fn object(members: Vec<(&str, Json)>) -> Json {
    Json::Object(members.into_iter().map(|(k, v)| (k.to_string(), v)).collect())
}

fn envelope(data: Json) -> Json {
    object(vec![("data", data)])
}

fn header(slot: &str) -> Json {
    object(vec![("slot", text(slot)), ("proposer_index", text("9"))])
}

fn client() -> NimbusRpc {
    NimbusRpc::new("http://node")
}

#[test]
fn json_get_reads_members_of_objects_only() {
    let doc = object(vec![("a", Json::Bool(true)), ("b", Json::Null), ("a", Json::Bool(false))]);
    assert_eq!(doc.get("a"), Some(&Json::Bool(true)));
    assert_eq!(doc.get("b"), Some(&Json::Null));
    assert_eq!(doc.get("c"), None);
    assert_eq!(doc.get(""), None);
    assert_eq!(Json::Array(vec![doc]).get("a"), None);
    assert_eq!(text("a").get("a"), None);
    assert_eq!(Json::Null.get("a"), None);
}

#[test]
fn bootstrap_is_unwrapped() {
    let inner = object(vec![("header", header("100")), ("current_sync_committee", Json::Null)]);
    let reply = Ok(envelope(object(vec![
        ("header", header("100")),
        ("current_sync_committee", Json::Null),
    ])));
    let got = client().get_bootstrap(&reply);
    assert_eq!(got, Ok(&inner));
    assert_eq!(got.unwrap().get("data"), None);
}

#[test]
fn finality_and_optimistic_updates_are_unwrapped() {
    let reply = Ok(object(vec![("version", text("capella")), ("data", header("5"))]));
    assert_eq!(client().get_finality_update(&reply), Ok(&header("5")));
    assert_eq!(client().get_optimistic_update(&reply), Ok(&header("5")));
}

#[test]
fn missing_data_is_tagged_with_the_operation() {
    let reply = Ok(object(vec![("message", text("not found")), ("code", text("404"))]));
    let c = client();
    let e = c.get_bootstrap(&reply).unwrap_err();
    assert_eq!(e, RpcError { operation: Operation::Bootstrap, cause: Cause::MissingData });
    assert_eq!(e.operation_name(), "bootstrap");
    let e = c.get_finality_update(&reply).unwrap_err();
    assert_eq!(e.cause, Cause::MissingData);
    assert_eq!(e.operation_name(), "finality_update");
    let e = c.get_optimistic_update(&reply).unwrap_err();
    assert_eq!(e.cause, Cause::MissingData);
    assert_eq!(e.operation_name(), "optimistic_update");
    let e = c.get_block(&reply).unwrap_err();
    assert_eq!(e.cause, Cause::MissingData);
    assert_eq!(e.operation_name(), "blocks");
    let e = c.chain_id(&reply).unwrap_err();
    assert_eq!(e.cause, Cause::MissingData);
    assert_eq!(e.operation_name(), "spec");
}

#[test]
fn body_that_is_no_object_has_no_data() {
    for body in [Json::Null, Json::Bool(true), text("data"), Json::Array(vec![])] {
        let reply = Ok(body);
        let e = unwrap_envelope(Operation::Bootstrap, &reply).unwrap_err();
        assert_eq!(e, RpcError::new(Operation::Bootstrap, Cause::MissingData));
    }
}

#[test]
fn transport_failure_is_tagged_with_the_operation() {
    let reply: Result<Json, String> = Err("connection refused".to_string());
    let c = client();
    let cause = Cause::Transport("connection refused".to_string());
    let e = c.get_updates(&reply).unwrap_err();
    assert_eq!(e, RpcError { operation: Operation::Updates, cause: cause.clone() });
    assert_eq!(e.operation_name(), "updates");
    assert_eq!(c.get_bootstrap(&reply).unwrap_err().operation, Operation::Bootstrap);
    assert_eq!(c.get_bootstrap(&reply).unwrap_err().cause, cause);
    assert_eq!(c.get_finality_update(&reply).unwrap_err().operation, Operation::FinalityUpdate);
    assert_eq!(
        c.get_optimistic_update(&reply).unwrap_err().operation,
        Operation::OptimisticUpdate
    );
    assert_eq!(c.get_block(&reply).unwrap_err(), RpcError::new(Operation::Blocks, cause.clone()));
    assert_eq!(c.chain_id(&reply), Err(RpcError::new(Operation::ChainSpec, cause)));
}

#[test]
fn updates_keep_length_and_order() {
    let reply = Ok(Json::Array(vec![
        envelope(header("30")),
        object(vec![("version", text("bellatrix")), ("data", header("10"))]),
        envelope(header("20")),
    ]));
    let got = client().get_updates(&reply).unwrap();
    assert_eq!(got.len(), 3);
    assert_eq!(got[0], &header("30"));
    assert_eq!(got[1], &header("10"));
    assert_eq!(got[2], &header("20"));
}

#[test]
fn updates_of_empty_array_are_empty() {
    let reply = Ok(Json::Array(vec![]));
    assert_eq!(client().get_updates(&reply), Ok(vec![]));
}

#[test]
fn updates_body_that_is_no_array_fails() {
    let reply = Ok(envelope(Json::Array(vec![])));
    assert_eq!(
        client().get_updates(&reply),
        Err(RpcError { operation: Operation::Updates, cause: Cause::NotAList })
    );
    let reply = Ok(Json::Null);
    assert_eq!(client().get_updates(&reply).unwrap_err().operation_name(), "updates");
}

#[test]
fn updates_item_without_data_fails() {
    let reply = Ok(Json::Array(vec![
        envelope(header("1")),
        object(vec![("datum", header("2"))]),
        envelope(header("3")),
    ]));
    assert_eq!(
        client().get_updates(&reply),
        Err(RpcError { operation: Operation::Updates, cause: Cause::MissingData })
    );
    let reply = Ok(Json::Array(vec![Json::Null]));
    assert_eq!(client().get_updates(&reply).unwrap_err().cause, Cause::MissingData);
}

#[test]
fn block_is_the_inner_message() {
    let reply = Ok(object(vec![
        ("version", text("capella")),
        ("execution_optimistic", Json::Bool(false)),
        ("data", object(vec![("message", header("77")), ("signature", text("0xabcd"))])),
    ]));
    assert_eq!(client().get_block(&reply), Ok(&header("77")));
}

#[test]
fn block_without_message_fails() {
    let reply = Ok(envelope(object(vec![("signature", text("0xabcd"))])));
    assert_eq!(
        client().get_block(&reply),
        Err(RpcError { operation: Operation::Blocks, cause: Cause::MissingMessage })
    );
    let reply = Ok(envelope(text("message")));
    assert_eq!(client().get_block(&reply).unwrap_err().cause, Cause::MissingMessage);
}

#[test]
fn chain_id_from_string_and_from_number() {
    let as_string = Ok(envelope(object(vec![
        ("CONFIG_NAME", text("mainnet")),
        ("DEPOSIT_NETWORK_ID", text("12345")),
        ("SECONDS_PER_SLOT", text("12")),
    ])));
    let as_number = Ok(envelope(object(vec![
        ("DEPOSIT_NETWORK_ID", Json::Number(Number::Unsigned(12345))),
        ("DEPOSIT_CHAIN_ID", Json::Number(Number::Unsigned(1))),
    ])));
    assert_eq!(client().chain_id(&as_string), Ok(12345));
    assert_eq!(client().chain_id(&as_number), Ok(12345));
}

#[test]
fn chain_id_missing_member_fails() {
    let reply = Ok(envelope(object(vec![("DEPOSIT_CHAIN_ID", text("1"))])));
    assert_eq!(
        client().chain_id(&reply),
        Err(RpcError { operation: Operation::ChainSpec, cause: Cause::MissingNetworkId })
    );
    let reply = Ok(envelope(Json::Array(vec![])));
    assert_eq!(client().chain_id(&reply).unwrap_err().cause, Cause::MissingNetworkId);
}

#[test]
fn chain_id_that_is_no_unsigned_integer_fails() {
    let bad = vec![
        text(""),
        text("mainnet"),
        text("-5"),
        text("18446744073709551616"),
        Json::Number(Number::Negative(-5)),
        Json::Number(Number::Fraction("1.5".to_string())),
        Json::Bool(true),
        Json::Null,
        Json::Array(vec![text("1")]),
    ];
    for value in bad {
        let reply = Ok(envelope(object(vec![("DEPOSIT_NETWORK_ID", value)])));
        let e = client().chain_id(&reply).unwrap_err();
        assert_eq!(e, RpcError { operation: Operation::ChainSpec, cause: Cause::InvalidNetworkId });
        assert_eq!(e.operation_name(), "spec");
    }
}

#[test]
fn network_id_coercion() {
    assert_eq!(coerce_network_id(&Json::Number(Number::Unsigned(u64::MAX))), Some(u64::MAX));
    assert_eq!(coerce_network_id(&text("18446744073709551615")), Some(u64::MAX));
    assert_eq!(coerce_network_id(&text("1")), Some(1));
    assert_eq!(coerce_network_id(&Json::Number(Number::Unsigned(0))), Some(0));
    assert_eq!(coerce_network_id(&Json::Number(Number::Negative(-1))), None);
    assert_eq!(coerce_network_id(&Json::Null), None);
}
