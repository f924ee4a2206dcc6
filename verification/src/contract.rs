//! The entry points of the pool: setting it up, executing a command, and
//! answering a query. Each works on the configuration and the books that it
//! is handed, and leaves loading and storing them to its caller.

use crate::config::{invalid_at, knows, valid_under, Config, ConfigResponse};
use crate::error::{ContractError, ContractErrorView};
use crate::handler::callback::{called_back, notice, observed_value, receive_ica_callback};
use crate::handler::channels::{try_close_channel, try_create_channel};
use crate::handler::create_vault::try_create_vault;
use crate::handler::deposit::{deposit_outcome, try_deposit};
use crate::handler::ica::IcaPacketData;
use crate::handler::move_funds::try_move_funds;
use crate::handler::try_withdraw;
use crate::memo::{decoded, CommandAction};
use crate::msg::{
    ExecuteMsg, IcaCommandView, IcaControllerCallbackMsg, IcaQueryResult, InstantiateMsg,
    MessageInfo, Outpost, QueryMsg, Response, ResponseView,
};
use crate::state::State;
use crate::text::{decimal_digits, push_decimal};
use cosmwasm_std::StdError;
use cw_utils::PaymentError;
use vstd::prelude::*;
use vstd::std_specs::convert::FromSpec;
use vstd::string::StringSliceAdditionalSpecFns;

verus! {

/// `cw_utils::nonpayable`: accepts a command exactly when no funds came
/// with it.
#[verifier::external_body]
fn nonpayable(info: &MessageInfo) -> (accepted: Result<(), PaymentError>)
    ensures
        accepted is Ok <==> info.funds@.len() == 0,
{
    let funds = info.funds.iter().map(|c| cosmwasm_std::Coin::new(c.amount, c.denom.clone()));
    cw_utils::nonpayable(
        &cosmwasm_std::MessageInfo {
            sender: cosmwasm_std::Addr::unchecked(info.sender.clone()),
            funds: funds.collect(),
        },
    )
}

/// Whether the sender of a command is the owner.
pub open spec fn sent_by_owner(config: Config, info: MessageInfo) -> bool {
    info.sender@ == config.owner@
}

/// Whether `answer` refuses with exactly the error `refusal`.
pub open spec fn refused(answer: Result<Response, ContractError>, refusal: ContractErrorView) -> bool {
    answer matches Err(e) && e@ == refusal
}

/// Whether `answer` refuses `operation` as not provided.
pub open spec fn not_supported(answer: Result<Response, ContractError>, operation: Seq<char>) -> bool {
    refused(answer, ContractErrorView::NotSupported { operation })
}

/// Whether `answer` refuses a command because funds came with it.
pub open spec fn not_payable(answer: Result<Response, ContractError>) -> bool {
    answer matches Err(e) && e is Payment
}

/// Whether `answer`, the configuration `config_after` and the books
/// `state_after` are what the command `msg` of `info` calls for, given the
/// configuration and the books before it.
///
/// Creating a vault, opening and closing a channel, moving funds and
/// changing the configuration are the owner's alone. Withdrawing, moving
/// funds and changing the configuration take no funds. Only a change of the
/// configuration that is valid under `validator` changes the configuration, and
/// only a callback changes the books.
pub open spec fn executed<F: Fn(&String) -> bool>(
    config: Config,
    state: State,
    info: MessageInfo,
    msg: ExecuteMsg,
    validator: &F,
    config_after: Config,
    state_after: State,
    answer: Result<Response, ContractError>,
) -> bool {
    match msg {
        ExecuteMsg::Deposit(m) => {
            &&& config_after == config && state_after == state
            &&& match answer {
                Ok(r) => deposit_outcome(config.outposts@, m.destination@) == Ok::<
                    ResponseView,
                    ContractErrorView,
                >(r@),
                Err(e) => deposit_outcome(config.outposts@, m.destination@) == Err::<
                    ResponseView,
                    ContractErrorView,
                >(e@),
            }
        },
        ExecuteMsg::Withdraw(m) => {
            &&& config_after == config && state_after == state
            &&& if info.funds@.len() > 0 {
                not_payable(answer)
            } else {
                not_supported(answer, "withdraw"@)
            }
        },
        ExecuteMsg::CreateVault {  } => {
            &&& config_after == config && state_after == state
            &&& if !sent_by_owner(config, info) {
                refused(answer, ContractErrorView::Unauthorized)
            } else {
                not_supported(answer, "create_vault"@)
            }
        },
        ExecuteMsg::CreateChannel {  } => {
            &&& config_after == config && state_after == state
            &&& if !sent_by_owner(config, info) {
                refused(answer, ContractErrorView::Unauthorized)
            } else {
                not_supported(answer, "create_channel"@)
            }
        },
        ExecuteMsg::CloseChannel {  } => {
            &&& config_after == config && state_after == state
            &&& if !sent_by_owner(config, info) {
                refused(answer, ContractErrorView::Unauthorized)
            } else {
                not_supported(answer, "close_channel"@)
            }
        },
        ExecuteMsg::MoveFunds(m) => {
            &&& config_after == config && state_after == state
            &&& if !sent_by_owner(config, info) {
                refused(answer, ContractErrorView::Unauthorized)
            } else if info.funds@.len() > 0 {
                not_payable(answer)
            } else {
                not_supported(answer, "move_funds"@)
            }
        },
        ExecuteMsg::ReceiveIcaCallback(callback) => {
            &&& config_after == config
            &&& called_back(config.outposts@, state, callback, state_after, answer)
        },
        ExecuteMsg::UpdateConfig(update) => {
            &&& state_after == state
            &&& if !sent_by_owner(config, info) {
                config_after == config && refused(answer, ContractErrorView::Unauthorized)
            } else if info.funds@.len() > 0 {
                config_after == config && not_payable(answer)
            } else {
                match answer {
                    Ok(r) => {
                        &&& config_after == update.applied_to(config)
                        &&& valid_under(validator, &config_after.owner, config_after.outposts@)
                        &&& r@ == notice("update_config"@)
                    },
                    Err(e) => {
                        &&& config_after == config
                        &&& e matches ContractError::InvalidAddress { address } && invalid_at(
                            validator,
                            &update.applied_to(config).owner,
                            update.applied_to(config).outposts@,
                            address@,
                        )
                    },
                }
            }
        },
    }
}

/// Whether the sender of a command is the owner.
fn is_owner(config: &Config, info: &MessageInfo) -> (yes: bool)
    ensures
        yes == sent_by_owner(*config, *info),
{
    config.owner == info.sender
}

/// Refuses a command that funds came with.
fn no_funds(info: &MessageInfo) -> (accepted: Result<(), ContractError>)
    ensures
        accepted is Ok <==> info.funds@.len() == 0,
        accepted matches Err(e) ==> e is Payment,
{
    match nonpayable(info) {
        Ok(()) => Ok(()),
        Err(e) => Err(ContractError::Payment(e)),
    }
}

/// Executes one command to completion: see [`executed`]. A command that
/// ends with an error has changed neither the configuration nor the books.
pub fn execute<F: Fn(&String) -> bool>(
    config: &mut Config,
    state: &mut State,
    info: &MessageInfo,
    msg: ExecuteMsg,
    validator: &F,
) -> (answer: Result<Response, ContractError>)
    requires
        forall|a: &String| validator.requires((a,)),
    ensures
        executed(*old(config), *old(state), *info, msg, validator, *final(config), *final(state), answer),
        answer is Err ==> *final(config) == *old(config) && *final(state) == *old(state),
{
    match msg {
        ExecuteMsg::Deposit(m) => try_deposit(config, m.destination),
        ExecuteMsg::Withdraw(m) => {
            no_funds(info)?;
            try_withdraw(m)
        },
        ExecuteMsg::CreateVault {  } => {
            if !is_owner(config, info) {
                return Err(ContractError::Unauthorized {  });
            }
            try_create_vault()
        },
        ExecuteMsg::CreateChannel {  } => {
            if !is_owner(config, info) {
                return Err(ContractError::Unauthorized {  });
            }
            try_create_channel()
        },
        ExecuteMsg::CloseChannel {  } => {
            if !is_owner(config, info) {
                return Err(ContractError::Unauthorized {  });
            }
            try_close_channel()
        },
        ExecuteMsg::MoveFunds(m) => {
            if !is_owner(config, info) {
                return Err(ContractError::Unauthorized {  });
            }
            no_funds(info)?;
            try_move_funds(m)
        },
        ExecuteMsg::ReceiveIcaCallback(callback) => receive_ica_callback(config, state, callback),
        ExecuteMsg::UpdateConfig(update) => {
            if !is_owner(config, info) {
                return Err(ContractError::Unauthorized {  });
            }
            no_funds(info)?;
            config.apply_update(update, validator)?;
            Ok(Response::new().add_attribute("method", "update_config"))
        },
    }
}

/// The command that reports an acknowledged packet.
pub open spec fn acknowledgement(
    data: IcaPacketData,
    query_result: Option<IcaQueryResult>,
) -> ExecuteMsg {
    ExecuteMsg::ReceiveIcaCallback(
        IcaControllerCallbackMsg::OnAcknowledgementPacketCallback {
            original_packet: Ok(data),
            query_result,
        },
    )
}

/// Whether the packet `data` carried the memo of a deposit to
/// `destination`.
pub open spec fn is_deposit_to(data: IcaPacketData, destination: Seq<char>) -> bool {
    data.packet_memo matches Some(memo) && decoded(memo@) matches Ok(envelope) && envelope.action
        == CommandAction::Deposit && envelope.destination_key == destination
}

/// An acknowledged deposit whose queries failed ends with the error of the
/// queries and leaves the configuration and the books exactly as they were.
pub proof fn lemma_failed_query_changes_nothing<F: Fn(&String) -> bool>(
    config: Config,
    state: State,
    info: MessageInfo,
    data: IcaPacketData,
    destination: Seq<char>,
    error: String,
    validator: &F,
    config_after: Config,
    state_after: State,
    answer: Result<Response, ContractError>,
)
    requires
        is_deposit_to(data, destination),
        executed(
            config,
            state,
            info,
            acknowledgement(data, Some(IcaQueryResult::Error(error))),
            validator,
            config_after,
            state_after,
            answer,
        ),
    ensures
        refused(answer, ContractErrorView::IcaQueryError { error: error@ }),
        config_after == config,
        state_after == state,
{
}

/// An acknowledged deposit to a destination that no outpost has ends with
/// `DestinationNotFound` and leaves the configuration and the books exactly
/// as they were.
pub proof fn lemma_unknown_destination_changes_nothing<F: Fn(&String) -> bool>(
    config: Config,
    state: State,
    info: MessageInfo,
    data: IcaPacketData,
    destination: Seq<char>,
    query_result: Option<IcaQueryResult>,
    validator: &F,
    config_after: Config,
    state_after: State,
    answer: Result<Response, ContractError>,
)
    requires
        is_deposit_to(data, destination),
        observed_value(query_result) is Ok,
        !knows(config.outposts@, destination),
        executed(
            config,
            state,
            info,
            acknowledgement(data, query_result),
            validator,
            config_after,
            state_after,
            answer,
        ),
    ensures
        refused(answer, ContractErrorView::DestinationNotFound { destination }),
        config_after == config,
        state_after == state,
{
}

/// A timeout succeeds, sends nothing, and leaves the configuration and the
/// books exactly as they were, whoever reports it and whatever was sent.
pub proof fn lemma_timeout_changes_nothing<F: Fn(&String) -> bool>(
    config: Config,
    state: State,
    info: MessageInfo,
    validator: &F,
    config_after: Config,
    state_after: State,
    answer: Result<Response, ContractError>,
)
    requires
        executed(
            config,
            state,
            info,
            ExecuteMsg::ReceiveIcaCallback(IcaControllerCallbackMsg::OnTimeoutPacketCallback {  }),
            validator,
            config_after,
            state_after,
            answer,
        ),
    ensures
        answer matches Ok(r) && r@.messages == Seq::<IcaCommandView>::empty(),
        config_after == config,
        state_after == state,
{
}

/// A command that ends with an error has changed nothing, whatever the
/// command.
pub proof fn lemma_errors_change_nothing<F: Fn(&String) -> bool>(
    config: Config,
    state: State,
    info: MessageInfo,
    msg: ExecuteMsg,
    validator: &F,
    config_after: Config,
    state_after: State,
    answer: Result<Response, ContractError>,
)
    requires
        executed(config, state, info, msg, validator, config_after, state_after, answer),
        answer is Err,
    ensures
        config_after == config,
        state_after == state,
{
}

/// The address that `cosmwasm_std::instantiate2_address` derives for a
/// contract from the checksum of its code, the canonical address of its
/// creator and a salt: a hash of the three.
pub uninterp spec fn instantiate2_address_of(
    checksum: Seq<u8>,
    creator: Seq<u8>,
    salt: Seq<u8>,
) -> Seq<u8>;

/// Whether an address can be derived: the checksum has 32 bytes and the
/// salt from 1 to 64.
pub open spec fn instantiate2_accepts(checksum: Seq<u8>, salt: Seq<u8>) -> bool {
    checksum.len() == 32 && 1 <= salt.len() <= 64
}

/// `cosmwasm_std::instantiate2_address`: the derived address, or nothing
/// exactly when the length of the checksum or of the salt is refused.
#[verifier::external_body]
fn instantiate2_address(checksum: &Vec<u8>, creator: &Vec<u8>, salt: &Vec<u8>) -> (address: Option<Vec<u8>>)
    ensures
        address is Some <==> instantiate2_accepts(checksum@, salt@),
        address matches Some(a) ==> a@ == instantiate2_address_of(checksum@, creator@, salt@),
{
    let creator = cosmwasm_std::CanonicalAddr::from(creator.clone());
    match cosmwasm_std::instantiate2_address(checksum, &creator, salt) {
        Ok(address) => Some(address.into()),
        Err(_) => None,
    }
}

/// The salt under which the controller of `outpost` is created at the
/// block time `seconds`: the outpost's key, `_`, and the seconds.
pub fn controller_salt(outpost: &Outpost, seconds: u64) -> (salt: String)
    ensures
        salt@ == outpost.mars_red_bank_contract@ + seq!['_'] + decimal_digits(seconds as nat),
{
    proof {
        reveal_strlit("_");
    }
    let mut salt = outpost.mars_red_bank_contract.clone();
    salt.append("_");
    push_decimal(&mut salt, seconds as u128);
    proof {
        assert("_"@ =~= seq!['_']);
    }
    salt
}

/// The canonical address that a controller created by `creator` from the
/// code with `checksum` under `salt` will have, or nothing where the
/// checksum has not 32 bytes or the salt not from 1 to 64.
pub fn predict_controller(checksum: &Vec<u8>, creator: &Vec<u8>, salt: &str) -> (address: Option<Vec<u8>>)
    ensures
        address is Some <==> instantiate2_accepts(checksum@, salt.spec_bytes()),
        address matches Some(a) ==> a@ == instantiate2_address_of(
            checksum@,
            creator@,
            salt.spec_bytes(),
        ),
{
    let salt_bytes = salt.as_bytes_vec();
    instantiate2_address(checksum, creator, &salt_bytes)
}

/// Whether `after` is `before` with the controller that `predict` gave for
/// it.
pub open spec fn predicted<P: Fn(&Outpost) -> Result<String, StdError>>(
    predict: &P,
    before: Outpost,
    after: Outpost,
) -> bool {
    &&& predict.ensures((&before,), Ok(after.cw_ica_controller_contract))
    &&& after == (Outpost {
        cw_ica_controller_contract: after.cw_ica_controller_contract,
        ..before
    })
}

/// Whether `after` holds the outposts of `before`, in order, each with the
/// controller that `predict` gave for it.
pub open spec fn all_predicted<P: Fn(&Outpost) -> Result<String, StdError>>(
    predict: &P,
    before: Seq<Outpost>,
    after: Seq<Outpost>,
) -> bool {
    &&& after.len() == before.len()
    &&& forall|i: int| 0 <= i < before.len() ==> predicted(predict, before[i], #[trigger] after[i])
}

/// Sets the controller of the outpost at `i`.
fn set_controller(outposts: &mut Vec<Outpost>, i: usize, controller: String)
    requires
        i < old(outposts)@.len(),
    ensures
        final(outposts)@ == old(outposts)@.update(
            i as int,
            Outpost { cw_ica_controller_contract: controller, ..old(outposts)@[i as int] },
        ),
{
    let outpost = &mut outposts[i];
    outpost.cw_ica_controller_contract = controller;
}

/// Sets the pool up. Every outpost gets as its controller the address that
/// `predict` gives for it, the outposts taken in order; the first failure
/// of `predict` ends the command. The configuration is then validated as
/// [`Config::validate`] does, and returned with a notice that names the
/// owner.
pub fn instantiate<P: Fn(&Outpost) -> Result<String, StdError>, F: Fn(&String) -> bool>(
    msg: InstantiateMsg,
    predict: &P,
    validator: &F,
) -> (answer: Result<(Config, Response), ContractError>)
    requires
        forall|o: &Outpost| predict.requires((o,)),
        forall|a: &String| validator.requires((a,)),
    ensures
        match answer {
            Ok((config, response)) => {
                &&& config.owner == msg.owner
                &&& config.cw_ica_controller_code_id == msg.cw_ica_controller_code_id
                &&& all_predicted(predict, msg.outposts@, config.outposts@)
                &&& valid_under(validator, &config.owner, config.outposts@)
                &&& response@ == (ResponseView {
                    messages: Seq::empty(),
                    attributes: seq![("method"@, "instantiate"@), ("owner"@, msg.owner@)],
                })
            },
            Err(ContractError::Std(cause)) => exists|i: int, done: Seq<Outpost>|
                0 <= i < msg.outposts@.len() && #[trigger] all_predicted(
                    predict,
                    msg.outposts@.take(i),
                    done,
                ) && predict.ensures((&msg.outposts@[i],), Err(cause)),
            Err(ContractError::InvalidAddress { address }) => exists|outposts: Seq<Outpost>|
                #[trigger] all_predicted(predict, msg.outposts@, outposts) && invalid_at(
                    validator,
                    &msg.owner,
                    outposts,
                    address@,
                ),
            Err(_) => false,
        },
{
    let ghost given = msg.outposts@;
    let mut config = Config::new(msg);
    let mut i: usize = 0;
    while i < config.outposts.len()
        invariant
            forall|o: &Outpost| predict.requires((o,)),
            i <= config.outposts@.len(),
            config.outposts@.len() == given.len(),
            given == msg.outposts@,
            config.owner == msg.owner,
            config.cw_ica_controller_code_id == msg.cw_ica_controller_code_id,
            forall|j: int| 0 <= j < i ==> predicted(predict, given[j], #[trigger] config.outposts@[j]),
            forall|j: int| i <= j < given.len() ==> config.outposts@[j] == given[j],
        decreases config.outposts@.len() - i,
    {
        let controller = match predict(&config.outposts[i]) {
            Ok(controller) => controller,
            Err(cause) => {
                proof {
                    assert(predict.ensures((&msg.outposts@[i as int],), Err(cause)));
                    assert(all_predicted(
                        predict,
                        msg.outposts@.take(i as int),
                        config.outposts@.take(i as int),
                    ));
                }
                return Err(ContractError::Std(cause));
            },
        };
        set_controller(&mut config.outposts, i, controller);
        i = i + 1;
    }
    proof {
        assert(all_predicted(predict, given, config.outposts@));
    }
    config.validate(validator)?;
    let response = Response::new().add_attribute("method", "instantiate").add_attribute(
        "owner",
        config.owner.as_str(),
    );
    proof {
        assert(response@.attributes =~= seq![("method"@, "instantiate"@), ("owner"@, msg.owner@)]);
    }
    Ok((config, response))
}

/// Answers a query: the configuration as it stands.
pub fn query(config: Config, msg: QueryMsg) -> (response: ConfigResponse)
    ensures
        response == ConfigResponse::from_spec(config),
{
    match msg {
        QueryMsg::Config {  } => ConfigResponse::from(config),
    }
}

} // verus!
