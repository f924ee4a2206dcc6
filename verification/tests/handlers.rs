use cosmwasm_std::StdError;
use cw_ica_controller::types::msg::options::ChannelOpenInitOptions;
use mars_controller::config::Config;
use mars_controller::handler::callback::{
    observe, on_acknowledgement, on_channel_open_ack, on_timeout, receive_ica_callback,
};
use mars_controller::handler::channels::{try_close_channel, try_create_channel};
use mars_controller::handler::create_vault::try_create_vault;
use mars_controller::handler::deposit::try_deposit;
use mars_controller::handler::ica::{
    controller_call, create_ibc_identifier, execute_ica, extract_packet_memo, query_ica,
    IcaPacketData,
};
use mars_controller::handler::move_funds::try_move_funds;
use mars_controller::handler::try_withdraw;
use mars_controller::msg::{
    Action, Attribute, Coin, CreditAction, IcaCommand, IcaControllerCallbackMsg, IcaQueryResponse,
    IcaQueryResult, MoveFundsMsg, Outpost, Positions, RemoteMessage, RemoteQuery, Response,
    WasmExecute, WasmSmartQuery, WithdrawMsg,
};
use mars_controller::state::{Decimal, State};
use mars_controller::ContractError;

fn outpost(key: &str, controller: &str, account_id: Option<&str>) -> Outpost {
    Outpost {
        mars_red_bank_contract: key.to_string(),
        cw_ica_controller_contract: controller.to_string(),
        channel_open_init_options: ChannelOpenInitOptions {
            connection_id: "connection-0".to_string(),
            counterparty_connection_id: "connection-1".to_string(),
            counterparty_port_id: None,
            channel_ordering: None,
        },
        account_id: account_id.map(|id| id.to_string()),
    }
}

fn config() -> Config {
    Config {
        owner: "owner".to_string(),
        outposts: vec![outpost("chainA", "ctrlA", Some("11")), outpost("chainB", "ctrlB", None)],
        cw_ica_controller_code_id: 7,
    }
}

fn books() -> State {
    State {
        total_stables: 2_000_000,
        virtual_receipt: 1_000_000,
        deposit_redemption_rate: Decimal { atomics: 2_000_000_000_000_000_000 },
    }
}

fn packet(memo: Option<&str>) -> Result<IcaPacketData, StdError> {
    Ok(IcaPacketData { messages: vec![], queries: vec![], packet_memo: memo.map(|m| m.to_string()) })
}

fn coin(denom: &str, amount: u128) -> Coin {
    Coin { denom: denom.to_string(), amount }
}

fn balance(amount: u128) -> Option<IcaQueryResult> {
    Some(IcaQueryResult::Success {
        height: 1,
        responses: vec![IcaQueryResponse::Balance(coin("uusd", amount))],
    })
}

fn notice(method: &str) -> Response {
    Response {
        messages: vec![],
        attributes: vec![Attribute { key: "method".to_string(), value: method.to_string() }],
    }
}

fn not_supported(operation: &str) -> Result<Response, ContractError> {
    Err(ContractError::NotSupported { operation: operation.to_string() })
}

#[test]
fn test_extract_packet_memo() {
    let ica_packet = IcaPacketData {
        messages: vec![],
        queries: vec![],
        packet_memo: Some("test_memo".to_string()),
    };

    let memo_result = extract_packet_memo(Ok(ica_packet));
    assert!(memo_result.is_ok());
    assert_eq!(memo_result.unwrap(), Some("test_memo".to_string()));
}

#[test]
fn extract_packet_memo_of_a_packet_without_memo() {
    assert_eq!(extract_packet_memo(packet(None)), Ok(None));
}

#[test]
fn extract_packet_memo_of_a_payload_that_did_not_decode() {
    assert_eq!(
        extract_packet_memo(Err(StdError::generic_err("bad payload"))),
        Err(ContractError::Std(StdError::generic_err("bad payload")))
    );
}

#[test]
fn ibc_identifier_is_ica() {
    assert_eq!(create_ibc_identifier(), "ica");
}

fn encoded_message() -> WasmExecute {
    WasmExecute {
        contract_addr: "chainA".to_string(),
        msg: b"{\"update_credit_account\":{}}".to_vec(),
        funds: vec![coin("uusd", 1), coin("uatom", 2)],
    }
}

fn encoded_query() -> WasmSmartQuery {
    WasmSmartQuery {
        contract_addr: "chainA".to_string(),
        msg: b"{\"account_id\":\"11\"}".to_vec(),
    }
}

fn wire_message() -> cosmwasm_std::CosmosMsg {
    cosmwasm_std::WasmMsg::Execute {
        contract_addr: "chainA".to_string(),
        msg: cosmwasm_std::Binary::new(b"{\"update_credit_account\":{}}".to_vec()),
        funds: vec![cosmwasm_std::Coin::new(1u128, "uusd"), cosmwasm_std::Coin::new(2u128, "uatom")],
    }
    .into()
}

fn wire_query() -> cosmwasm_std::QueryRequest {
    cosmwasm_std::QueryRequest::Wasm(cosmwasm_std::WasmQuery::Smart {
        contract_addr: "chainA".to_string(),
        msg: cosmwasm_std::Binary::new(b"{\"account_id\":\"11\"}".to_vec()),
    })
}

#[test]
fn execute_ica_calls_the_controller_without_funds() {
    let call = execute_ica("ctrlA".to_string(), None, vec![], vec![]).unwrap();
    assert_eq!(call.contract_addr, "ctrlA");
    assert_eq!(call.funds, vec![]);
    assert_eq!(String::from_utf8(call.msg).unwrap(), "{\"send_cosmos_msgs\":{\"messages\":[]}}");
}

#[test]
fn execute_ica_encodes_messages_queries_and_memo() {
    let call = execute_ica(
        "ctrlA".to_string(),
        Some("deposit/userX/uusd/1000000/chainA".to_string()),
        vec![encoded_message()],
        vec![encoded_query()],
    )
    .unwrap();
    assert_eq!(call.contract_addr, "ctrlA");
    assert_eq!(call.funds, vec![]);
    assert_eq!(
        String::from_utf8(call.msg.clone()).unwrap(),
        format!(
            "{}{}{}{}{}",
            "{\"send_cosmos_msgs\":{\"messages\":[{\"wasm\":{\"execute\":{\"contract_addr\":\"chainA\",\"msg\":\"",
            cosmwasm_std::Binary::new(b"{\"update_credit_account\":{}}".to_vec()).to_base64(),
            "\",\"funds\":[{\"denom\":\"uusd\",\"amount\":\"1\"},{\"denom\":\"uatom\",\"amount\":\"2\"}]}}}],\"queries\":[{\"wasm\":{\"smart\":{\"contract_addr\":\"chainA\",\"msg\":\"",
            cosmwasm_std::Binary::new(b"{\"account_id\":\"11\"}".to_vec()).to_base64(),
            "\"}}}],\"packet_memo\":\"deposit/userX/uusd/1000000/chainA\"}}"
        )
    );
    let read: cw_ica_controller::types::msg::ExecuteMsg = cosmwasm_std::from_json(&call.msg).unwrap();
    assert_eq!(read, cw_ica_controller::types::msg::ExecuteMsg::SendCosmosMsgs {
        messages: vec![wire_message()],
        queries: vec![wire_query()],
        packet_memo: Some("deposit/userX/uusd/1000000/chainA".to_string()),
        timeout_seconds: None,
    });
}

#[test]
fn execute_ica_is_what_wasm_execute_gives() {
    let call = execute_ica("ctrlA".to_string(), Some("m".to_string()), vec![encoded_message()], vec![]).unwrap();
    let wire = cosmwasm_std::wasm_execute(
        "ctrlA",
        &cw_ica_controller::types::msg::ExecuteMsg::SendCosmosMsgs {
            messages: vec![wire_message()],
            queries: vec![],
            packet_memo: Some("m".to_string()),
            timeout_seconds: None,
        },
        vec![],
    )
    .unwrap();
    assert_eq!(
        wire,
        cosmwasm_std::WasmMsg::Execute {
            contract_addr: call.contract_addr,
            msg: cosmwasm_std::Binary::new(call.msg),
            funds: vec![],
        }
    );
}

#[test]
fn query_ica_is_a_call_without_messages() {
    assert_eq!(
        query_ica("ctrlA".to_string(), Some("deposit".to_string()), vec![encoded_query()]),
        execute_ica("ctrlA".to_string(), Some("deposit".to_string()), vec![], vec![encoded_query()])
    );
    let call = query_ica("ctrlA".to_string(), Some("deposit".to_string()), vec![encoded_query()]).unwrap();
    let read: cw_ica_controller::types::msg::ExecuteMsg = cosmwasm_std::from_json(&call.msg).unwrap();
    assert_eq!(read, cw_ica_controller::types::msg::ExecuteMsg::SendCosmosMsgs {
        messages: vec![],
        queries: vec![wire_query()],
        packet_memo: Some("deposit".to_string()),
        timeout_seconds: None,
    });
}

#[test]
fn controller_call_takes_what_encoding_gave() {
    assert_eq!(
        controller_call("ctrlA".to_string(), Ok(vec![1, 2, 3])),
        Ok(WasmExecute { contract_addr: "ctrlA".to_string(), msg: vec![1, 2, 3], funds: vec![] })
    );
    assert_eq!(
        controller_call("ctrlA".to_string(), Err(StdError::generic_err("not encodable"))),
        Err(ContractError::Std(StdError::generic_err("not encodable")))
    );
}

#[test]
fn deposit_asks_for_the_positions_of_the_credit_account() {
    let response = try_deposit(&config(), "chainA".to_string()).unwrap();
    assert_eq!(response, Response {
        messages: vec![IcaCommand {
            controller: "ctrlA".to_string(),
            messages: vec![],
            queries: vec![RemoteQuery {
                contract_addr: "chainA".to_string(),
                msg: Positions { account_id: "11".to_string() },
            }],
            packet_memo: Some("deposit".to_string()),
        }],
        attributes: vec![],
    });
}

#[test]
fn deposit_to_an_unknown_outpost_fails() {
    assert_eq!(
        try_deposit(&config(), "chainZ".to_string()),
        Err(ContractError::DestinationNotFound { destination: "chainZ".to_string() })
    );
}

#[test]
fn deposit_without_credit_account_fails() {
    assert_eq!(try_deposit(&config(), "chainB".to_string()), Err(ContractError::NoCreditAccount {}));
}

#[test]
fn commands_that_are_not_provided_fail_closed() {
    assert_eq!(try_withdraw(WithdrawMsg { amount: 5 }), not_supported("withdraw"));
    assert_eq!(try_create_vault(), not_supported("create_vault"));
    assert_eq!(try_create_channel(), not_supported("create_channel"));
    assert_eq!(try_close_channel(), not_supported("close_channel"));
    assert_eq!(
        try_move_funds(MoveFundsMsg {
            action: Action::On,
            denom: "uusd".to_string(),
            amount: 1,
            chain: "chainA".to_string(),
        }),
        not_supported("move_funds")
    );
}

#[test]
fn observe_takes_the_first_answer() {
    assert_eq!(observe(&None), Ok(0));
    assert_eq!(observe(&balance(950_000)), Ok(950_000));
    assert_eq!(observe(&Some(IcaQueryResult::Success { height: 3, responses: vec![] })), Ok(0));
    assert_eq!(
        observe(&Some(IcaQueryResult::Success {
            height: 3,
            responses: vec![
                IcaQueryResponse::Balance(coin("uusd", 1)),
                IcaQueryResponse::Balance(coin("uusd", 2)),
            ],
        })),
        Ok(1)
    );
    assert_eq!(
        observe(&Some(IcaQueryResult::Success {
            height: 3,
            responses: vec![IcaQueryResponse::Other, IcaQueryResponse::Balance(coin("uusd", 2))],
        })),
        Ok(0)
    );
    assert_eq!(
        observe(&Some(IcaQueryResult::Error("boom".to_string()))),
        Err(ContractError::IcaQueryError { error: "boom".to_string() })
    );
}

#[test]
fn acknowledged_deposit_credits_what_was_observed_and_lends_what_was_sent() {
    let registry = Config {
        owner: "owner".to_string(),
        outposts: vec![outpost("chainA", "ctrlA", None)],
        cw_ica_controller_code_id: 7,
    };
    let mut state = books();
    let response = on_acknowledgement(
        &registry,
        &mut state,
        packet(Some("deposit/userX/uusd/1000000/chainA")),
        balance(950_000),
    )
    .unwrap();
    assert_eq!(state.total_stables, 2_000_000 + 950_000);
    assert_eq!(state.virtual_receipt, 1_000_000);
    assert_eq!(state.deposit_redemption_rate, Decimal { atomics: 2_950_000_000_000_000_000 });
    assert_eq!(response.messages.len(), 1);
    assert_eq!(response, Response {
        messages: vec![IcaCommand {
            controller: "ctrlA".to_string(),
            messages: vec![RemoteMessage {
                contract_addr: "chainA".to_string(),
                actions: vec![
                    CreditAction::Deposit(coin("uusd", 1_000_000)),
                    CreditAction::Lend(coin("uusd", 1_000_000)),
                ],
                funds: vec![coin("uusd", 1_000_000)],
            }],
            queries: vec![],
            packet_memo: None,
        }],
        attributes: vec![],
    });
}

#[test]
fn acknowledged_deposit_without_query_credits_nothing() {
    let mut state = books();
    let response = on_acknowledgement(&config(), &mut state, packet(Some("deposit/u/uusd/5/chainB")), None).unwrap();
    assert_eq!(state, books());
    assert_eq!(response.messages[0].controller, "ctrlB");
    assert_eq!(response.messages[0].messages[0].funds, vec![coin("uusd", 5)]);
}

#[test]
fn acknowledged_deposit_with_failed_queries_changes_nothing() {
    let registry = config();
    let mut state = books();
    let answer = on_acknowledgement(
        &registry,
        &mut state,
        packet(Some("deposit/userX/uusd/1000000/chainA")),
        Some(IcaQueryResult::Error("query failed".to_string())),
    );
    assert_eq!(answer, Err(ContractError::IcaQueryError { error: "query failed".to_string() }));
    assert_eq!(state, books());
    assert_eq!(registry, config());
}

#[test]
fn acknowledged_deposit_to_an_unknown_destination_changes_nothing() {
    let registry = config();
    let mut state = books();
    let answer = on_acknowledgement(
        &registry,
        &mut state,
        packet(Some("deposit/userX/uusd/1000000/chainZ")),
        balance(950_000),
    );
    assert_eq!(answer, Err(ContractError::DestinationNotFound { destination: "chainZ".to_string() }));
    assert_eq!(state, books());
    assert_eq!(registry, config());
}

#[test]
fn failed_queries_are_reported_before_an_unknown_destination() {
    let mut state = books();
    let answer = on_acknowledgement(
        &config(),
        &mut state,
        packet(Some("deposit/userX/uusd/1000000/chainZ")),
        Some(IcaQueryResult::Error("query failed".to_string())),
    );
    assert_eq!(answer, Err(ContractError::IcaQueryError { error: "query failed".to_string() }));
}

#[test]
fn a_malformed_memo_is_reported_before_failed_queries() {
    let mut state = books();
    let failed = || Some(IcaQueryResult::Error("query failed".to_string()));
    assert_eq!(
        on_acknowledgement(&config(), &mut state, packet(Some("deposit/userX/uusd/1000000")), failed()),
        Err(ContractError::InvalidMemoFormat("deposit/userX/uusd/1000000".to_string()))
    );
    assert_eq!(
        on_acknowledgement(&config(), &mut state, packet(Some("deposit/userX/uusd/lots/chainA")), failed()),
        Err(ContractError::InvalidAmount {})
    );
    assert_eq!(state, books());
}

#[test]
fn acknowledgement_without_memo_is_unknown() {
    let mut state = books();
    assert_eq!(
        on_acknowledgement(&config(), &mut state, packet(None), balance(1)),
        Err(ContractError::UnknownMemo {})
    );
    assert_eq!(
        on_acknowledgement(&config(), &mut state, packet(Some("stake/u/uusd/1/chainA")), balance(1)),
        Err(ContractError::UnknownMemo {})
    );
    assert_eq!(state, books());
}

#[test]
fn acknowledgement_of_a_payload_that_did_not_decode_is_an_error() {
    let mut state = books();
    assert_eq!(
        on_acknowledgement(&config(), &mut state, Err(StdError::generic_err("bad payload")), balance(1)),
        Err(ContractError::Std(StdError::generic_err("bad payload")))
    );
    assert_eq!(state, books());
}

#[test]
fn acknowledged_withdraw_and_move_funds_fail_closed() {
    let mut state = books();
    assert_eq!(
        on_acknowledgement(&config(), &mut state, packet(Some("withdraw/u/uusd/1/chainA")), balance(1)),
        not_supported("withdraw")
    );
    assert_eq!(
        on_acknowledgement(&config(), &mut state, packet(Some("move_funds/u/uusd/1/chainA")), balance(1)),
        not_supported("move_funds")
    );
    assert_eq!(
        on_acknowledgement(&config(), &mut state, packet(Some("withdraw/u/uusd/1")), balance(1)),
        Err(ContractError::InvalidMemoFormat("withdraw/u/uusd/1".to_string()))
    );
    assert_eq!(state, books());
}

#[test]
fn acknowledged_deposit_that_the_books_cannot_take_changes_nothing() {
    let mut state = State {
        total_stables: u128::MAX - 5,
        virtual_receipt: 0,
        deposit_redemption_rate: Decimal { atomics: 0 },
    };
    let before = state;
    let answer = on_acknowledgement(&config(), &mut state, packet(Some("deposit/u/uusd/1/chainA")), balance(6));
    assert!(matches!(answer, Err(ContractError::Std(_))));
    assert_eq!(state, before);
    let answer = on_acknowledgement(&config(), &mut state, packet(Some("deposit/u/uusd/1/chainA")), balance(5));
    assert!(answer.is_ok());
    assert_eq!(state.total_stables, u128::MAX);
}

#[test]
fn timeout_is_acknowledged_and_changes_nothing() {
    assert_eq!(on_timeout(), Ok(notice("on_timeout_packet")));
    let mut state = books();
    let answer = receive_ica_callback(&config(), &mut state, IcaControllerCallbackMsg::OnTimeoutPacketCallback {});
    assert_eq!(answer, Ok(notice("on_timeout_packet")));
    assert!(answer.unwrap().messages.is_empty());
    assert_eq!(state, books());
}

#[test]
fn channel_open_is_acknowledged_and_changes_nothing() {
    assert_eq!(on_channel_open_ack("osmo1ica".to_string()), Ok(notice("on_channel_open_ack")));
    let mut state = books();
    let answer = receive_ica_callback(
        &config(),
        &mut state,
        IcaControllerCallbackMsg::OnChannelOpenAckCallback { ica_address: "osmo1ica".to_string() },
    );
    assert_eq!(answer, Ok(notice("on_channel_open_ack")));
    assert_eq!(state, books());
}

#[test]
fn callback_with_an_acknowledgement_goes_to_the_acknowledgement_handler() {
    let mut state = books();
    let answer = receive_ica_callback(
        &config(),
        &mut state,
        IcaControllerCallbackMsg::OnAcknowledgementPacketCallback {
            original_packet: packet(Some("deposit/userX/uusd/1000000/chainA")),
            query_result: balance(950_000),
        },
    );
    assert_eq!(answer.unwrap().messages[0].controller, "ctrlA");
    assert_eq!(state.total_stables, 2_950_000);
}

#[test]
fn response_collects_messages_and_attributes_in_order() {
    let command = |controller: &str| IcaCommand {
        controller: controller.to_string(),
        messages: vec![],
        queries: vec![],
        packet_memo: None,
    };
    let response = Response::new()
        .add_attribute("a", "1")
        .add_message(command("c1"))
        .add_attribute("b", "2")
        .add_message(command("c2"));
    assert_eq!(response, Response {
        messages: vec![command("c1"), command("c2")],
        attributes: vec![
            Attribute { key: "a".to_string(), value: "1".to_string() },
            Attribute { key: "b".to_string(), value: "2".to_string() },
        ],
    });
    assert_eq!(Response::new(), Response { messages: vec![], attributes: vec![] });
}
