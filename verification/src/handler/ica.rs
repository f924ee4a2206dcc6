//! The commands sent through a controller contract, and the memo that ties
//! a callback to the command it answers.

use crate::error::{ContractError, ContractErrorView};
use crate::msg::{Coin, WasmExecute, WasmExecuteView, WasmSmartQuery, WasmSmartQueryView};
use crate::text::{option_view, views};
use cosmwasm_std::{Binary, CosmosMsg, Empty, QueryRequest, StdError, WasmMsg, WasmQuery};
use cw_ica_controller::types::msg::ExecuteMsg;
use vstd::prelude::*;

verus! {

/// `cosmwasm_std::CosmosMsg`, carried through without looking inside.
#[verifier::external_type_specification]
#[verifier::external_body]
#[verifier::reject_recursive_types(T)]
pub struct ExCosmosMsg<T>(CosmosMsg<T>);

/// `cosmwasm_std::QueryRequest`, carried through without looking inside.
#[verifier::external_type_specification]
#[verifier::external_body]
#[verifier::reject_recursive_types(C)]
pub struct ExQueryRequest<C>(QueryRequest<C>);

/// `cosmwasm_std::Empty`, carried through without looking inside.
#[verifier::external_type_specification]
#[verifier::external_body]
pub struct ExEmpty(Empty);

/// The decoded payload of a packet that a controller sent.
#[derive(Debug, PartialEq)]
pub struct IcaPacketData {
    pub messages: Vec<CosmosMsg>,
    pub queries: Vec<QueryRequest<Empty>>,
    pub packet_memo: Option<String>,
}

/// The identifier under which the pool speaks to its controllers.
pub fn create_ibc_identifier() -> (id: String)
    ensures
        id@ == "ica"@,
{
    String::from_str("ica")
}

/// The JSON that `cosmwasm_std::to_json_vec` writes for the message
/// `SendCosmosMsgs` of `cw_ica_controller`, which tells a controller to
/// send `messages` and then `queries` to its remote chain in one packet
/// with the memo `packet_memo` and the timeout `timeout_seconds`; nothing
/// where it cannot be written.
pub uninterp spec fn send_cosmos_msgs_json(
    messages: Seq<WasmExecuteView>,
    queries: Seq<WasmSmartQueryView>,
    packet_memo: Option<Seq<char>>,
    timeout_seconds: Option<u64>,
) -> Option<Seq<u8>>;

/// `cosmwasm_std::to_json_vec` on the message `SendCosmosMsgs` of
/// `cw_ica_controller`, built from the arguments one for one. Whether it
/// can be written, and the bytes written, depend on nothing but what the
/// message holds: they are [`send_cosmos_msgs_json`] of the arguments.
#[verifier::external_body]
fn encode_send_cosmos_msgs(
    messages: &Vec<WasmExecute>,
    queries: &Vec<WasmSmartQuery>,
    packet_memo: &Option<String>,
    timeout_seconds: Option<u64>,
) -> (json: Result<Vec<u8>, StdError>)
    ensures
        json matches Ok(bytes) ==> send_cosmos_msgs_json(
            views(messages@),
            views(queries@),
            option_view(*packet_memo),
            timeout_seconds,
        ) == Some(bytes@),
        json is Err ==> send_cosmos_msgs_json(
            views(messages@),
            views(queries@),
            option_view(*packet_memo),
            timeout_seconds,
        ) is None,
{
    let messages = messages.iter().map(|m| CosmosMsg::Wasm(WasmMsg::Execute {
        contract_addr: m.contract_addr.clone(),
        msg: Binary::new(m.msg.clone()),
        funds: m.funds.iter().map(|c| cosmwasm_std::Coin::new(c.amount, c.denom.clone())).collect(),
    }));
    let queries = queries.iter().map(|q| QueryRequest::Wasm(WasmQuery::Smart {
        contract_addr: q.contract_addr.clone(),
        msg: Binary::new(q.msg.clone()),
    }));
    cosmwasm_std::to_json_vec(&ExecuteMsg::SendCosmosMsgs {
        messages: messages.collect(),
        queries: queries.collect(),
        packet_memo: packet_memo.clone(),
        timeout_seconds,
    })
}

/// The call of the controller at `cw_ica_controller_address` with an
/// encoded message, given what encoding the message gave. No funds go with
/// the call.
pub fn controller_call(
    cw_ica_controller_address: String,
    encoded: Result<Vec<u8>, StdError>,
) -> (call: Result<WasmExecute, ContractError>)
    ensures
        match encoded {
            Ok(bytes) => call matches Ok(c) && c.contract_addr == cw_ica_controller_address
                && c.msg == bytes && c.funds@ == Seq::<Coin>::empty(),
            Err(cause) => call matches Err(e) && e@ == ContractErrorView::Std(cause),
        },
{
    match encoded {
        Ok(msg) => Ok(
            WasmExecute { contract_addr: cw_ica_controller_address, msg, funds: Vec::new() },
        ),
        Err(cause) => Err(ContractError::Std(cause)),
    }
}

/// Whether `call` is the call that tells the controller at `address` to
/// send `messages`, then `queries`, with the memo `memo` and the channel's
/// own timeout: the controller is called with the encoded `SendCosmosMsgs`
/// and without funds; or an error where the message cannot be encoded.
pub open spec fn sends(
    call: Result<WasmExecute, ContractError>,
    address: Seq<char>,
    memo: Option<Seq<char>>,
    messages: Seq<WasmExecuteView>,
    queries: Seq<WasmSmartQueryView>,
) -> bool {
    match send_cosmos_msgs_json(messages, queries, memo, None) {
        Some(json) => call matches Ok(c) && c@ == (WasmExecuteView {
            contract_addr: address,
            msg: json,
            funds: Seq::empty(),
        }),
        None => call matches Err(e) && e is Std,
    }
}

/// The call that tells the controller at `cw_ica_controller_address` to
/// send `messages` for the remote chain to execute, then `queries` for it
/// to answer, in one packet with the memo `memo`.
pub fn execute_ica(
    cw_ica_controller_address: String,
    memo: Option<String>,
    messages: Vec<WasmExecute>,
    queries: Vec<WasmSmartQuery>,
) -> (call: Result<WasmExecute, ContractError>)
    ensures
        sends(
            call,
            cw_ica_controller_address@,
            option_view(memo),
            views(messages@),
            views(queries@),
        ),
{
    let encoded = encode_send_cosmos_msgs(&messages, &queries, &memo, None);
    let call = controller_call(cw_ica_controller_address, encoded);
    proof {
        if call is Ok {
            assert(views(call->Ok_0.funds@) =~= Seq::empty());
        }
    }
    call
}

/// The call that tells the controller at `cw_ica_controller_address` to
/// send `queries` only: a packet without messages.
pub fn query_ica(
    cw_ica_controller_address: String,
    memo: Option<String>,
    queries: Vec<WasmSmartQuery>,
) -> (call: Result<WasmExecute, ContractError>)
    ensures
        sends(call, cw_ica_controller_address@, option_view(memo), Seq::empty(), views(queries@)),
{
    let messages: Vec<WasmExecute> = Vec::new();
    proof {
        assert(views(messages@) =~= Seq::empty());
    }
    execute_ica(cw_ica_controller_address, memo, messages, queries)
}

/// The memo that a packet carried, given what decoding its payload gave. A
/// payload that did not decode is an error, never a packet without memo.
pub fn extract_packet_memo(packet: Result<IcaPacketData, StdError>) -> (memo: Result<Option<String>, ContractError>)
    ensures
        match packet {
            Ok(data) => memo == Ok::<Option<String>, ContractError>(data.packet_memo),
            Err(cause) => memo matches Err(e) && e@ == ContractErrorView::Std(cause),
        },
{
    match packet {
        Ok(data) => Ok(data.packet_memo),
        Err(cause) => Err(ContractError::Std(cause)),
    }
}

} // verus!
