//! What the pool does when a controller reports on the channel or on a
//! packet.
//!
//! The pool keeps no record of the commands in flight. A command is known
//! again by the memo of its packet, which the acknowledgement brings back.

use super::ica::{extract_packet_memo, IcaPacketData};
use crate::config::{key_index, knows, Config};
use crate::error::{ContractError, ContractErrorView};
use crate::memo::{decode_envelope, decoded, verb, CommandAction};
use crate::msg::{
    Coin, CoinView, CreditAction, CreditActionView, IcaCommand, IcaCommandView,
    IcaControllerCallbackMsg, IcaQueryResponse, IcaQueryResult, Outpost, RemoteMessage,
    RemoteMessageView, Response, ResponseView,
};
use crate::state::State;
use crate::text::{option_view, views};
use cosmwasm_std::StdError;
use vstd::prelude::*;

verus! {

/// What the remote chain was seen to hold, by the queries of a packet: the
/// balance that the first answer reports, nothing where there was no query,
/// no answer, or an answer that reports no balance. Queries that failed
/// give their error text instead.
pub open spec fn observed_value(query_result: Option<IcaQueryResult>) -> Result<u128, Seq<char>> {
    match query_result {
        None => Ok(0u128),
        Some(IcaQueryResult::Error(error)) => Err(error@),
        Some(IcaQueryResult::Success { height, responses }) => {
            if responses@.len() == 0 {
                Ok(0u128)
            } else {
                match responses@[0] {
                    IcaQueryResponse::Balance(coin) => Ok(coin.amount),
                    IcaQueryResponse::Other => Ok(0u128),
                }
            }
        },
    }
}

/// The command that follows an acknowledged deposit: through the outpost's
/// controller, the custodian is told to take the coin into the credit
/// account and to lend it at once. The coin goes along as funds; no query
/// and no memo is attached.
pub open spec fn lend_command(outpost: Outpost, coin: CoinView) -> IcaCommandView {
    IcaCommandView {
        controller: outpost.cw_ica_controller_contract@,
        messages: seq![
            RemoteMessageView {
                contract_addr: outpost.mars_red_bank_contract@,
                actions: seq![CreditActionView::Deposit(coin), CreditActionView::Lend(coin)],
                funds: seq![coin],
            },
        ],
        queries: Seq::empty(),
        packet_memo: None,
    }
}

/// What an acknowledged packet with the memo `memo` calls for: the value
/// to credit to the pool and the response to give, or the error to end
/// with. The steps, each of which ends the command where it fails:
/// a packet without memo is `UnknownMemo`; the memo is decoded; a verb
/// other than deposit is `NotSupported`; failed queries are
/// `IcaQueryError`; a destination that no outpost has is
/// `DestinationNotFound`.
pub open spec fn acknowledgement_plan(
    outposts: Seq<Outpost>,
    memo: Option<Seq<char>>,
    query_result: Option<IcaQueryResult>,
) -> Result<(u128, ResponseView), ContractErrorView> {
    match memo {
        None => Err(ContractErrorView::UnknownMemo),
        Some(text) => match decoded(text) {
            Err(e) => Err(e),
            Ok(envelope) => match envelope.action {
                CommandAction::Withdraw | CommandAction::MoveFunds => Err(
                    ContractErrorView::NotSupported { operation: verb(envelope.action) },
                ),
                CommandAction::Deposit => match observed_value(query_result) {
                    Err(error) => Err(ContractErrorView::IcaQueryError { error }),
                    Ok(value) => {
                        if !knows(outposts, envelope.destination_key) {
                            Err(
                                ContractErrorView::DestinationNotFound {
                                    destination: envelope.destination_key,
                                },
                            )
                        } else {
                            Ok(
                                (
                                    value,
                                    ResponseView {
                                        messages: seq![
                                            lend_command(
                                                outposts[key_index(
                                                    outposts,
                                                    envelope.destination_key,
                                                )],
                                                CoinView {
                                                    denom: envelope.asset_denom,
                                                    amount: envelope.amount,
                                                },
                                            ),
                                        ],
                                        attributes: Seq::empty(),
                                    },
                                ),
                            )
                        }
                    },
                },
            },
        },
    }
}

/// Reads what the queries of a packet observed.
pub fn observe(query_result: &Option<IcaQueryResult>) -> (value: Result<u128, ContractError>)
    ensures
        match value {
            Ok(v) => observed_value(*query_result) == Ok::<u128, Seq<char>>(v),
            Err(e) => e matches ContractError::IcaQueryError { error } && observed_value(
                *query_result,
            ) == Err::<u128, Seq<char>>(error@),
        },
{
    match query_result {
        None => Ok(0),
        Some(IcaQueryResult::Error(error)) => Err(
            ContractError::IcaQueryError { error: error.clone() },
        ),
        Some(IcaQueryResult::Success { height: _, responses }) => {
            if responses.len() == 0 {
                Ok(0)
            } else {
                match &responses[0] {
                    IcaQueryResponse::Balance(coin) => Ok(coin.amount),
                    IcaQueryResponse::Other => Ok(0),
                }
            }
        },
    }
}

/// A copy of a coin.
fn copy_coin(coin: &Coin) -> (copy: Coin)
    ensures
        copy@ == coin@,
{
    Coin { denom: coin.denom.clone(), amount: coin.amount }
}

/// Builds the command that follows an acknowledged deposit of `coin` at
/// `outpost`.
fn build_lend_command(outpost: &Outpost, coin: Coin) -> (response: Response)
    ensures
        response@ == (ResponseView {
            messages: seq![lend_command(*outpost, coin@)],
            attributes: Seq::empty(),
        }),
{
    let mut actions: Vec<CreditAction> = Vec::new();
    actions.push(CreditAction::Deposit(copy_coin(&coin)));
    actions.push(CreditAction::Lend(copy_coin(&coin)));
    let mut funds: Vec<Coin> = Vec::new();
    funds.push(coin);
    let message = RemoteMessage {
        contract_addr: outpost.mars_red_bank_contract.clone(),
        actions,
        funds,
    };
    let mut messages: Vec<RemoteMessage> = Vec::new();
    messages.push(message);
    let command = IcaCommand {
        controller: outpost.cw_ica_controller_contract.clone(),
        messages,
        queries: Vec::new(),
        packet_memo: None,
    };
    let response = Response::new().add_message(command);
    proof {
        assert(views(message.actions@) =~= seq![
            CreditActionView::Deposit(coin@),
            CreditActionView::Lend(coin@),
        ]);
        assert(views(message.funds@) =~= seq![coin@]);
        assert(views(command.messages@) =~= seq![message@]);
        assert(views(command.queries@) =~= Seq::empty());
        assert(response@.messages =~= seq![command@]);
    }
    response
}

/// Whether `answer` and the books in `after` are what an acknowledged
/// packet calls for, given the books in `before`. A payload that did not
/// decode ends the command with the error of decoding. Otherwise the
/// command is read from the memo of the packet, as [`acknowledgement_plan`]
/// says: an acknowledged deposit credits the observed value to the pool and
/// answers with the command to lend the deposit, and where the pool cannot
/// take the value, the error of the arithmetic is returned. Every error
/// leaves the books as they were.
pub open spec fn acknowledged(
    outposts: Seq<Outpost>,
    before: State,
    original_packet: Result<IcaPacketData, StdError>,
    query_result: Option<IcaQueryResult>,
    after: State,
    answer: Result<Response, ContractError>,
) -> bool {
    &&& answer is Err ==> after == before
    &&& match original_packet {
        Err(cause) => answer matches Err(e) && e@ == ContractErrorView::Std(cause),
        Ok(data) => match acknowledgement_plan(
            outposts,
            option_view(data.packet_memo),
            query_result,
        ) {
            Err(refusal) => answer matches Err(e) && e@ == refusal,
            Ok((value, response)) => if before.accepts_inflow(value) {
                answer matches Ok(r) && r@ == response && after == before.credited(value)
            } else {
                answer matches Err(e) && e is Std
            },
        },
    }
}

/// The response that only names what was done.
pub open spec fn notice(method: Seq<char>) -> ResponseView {
    ResponseView { messages: Seq::empty(), attributes: seq![("method"@, method)] }
}

/// Whether `answer` and the books in `after` are what the callback `msg`
/// calls for, given the books in `before`. Only an acknowledged packet can
/// change the books or send anything; a timeout and an opened channel are
/// acknowledged with a notice.
pub open spec fn called_back(
    outposts: Seq<Outpost>,
    before: State,
    msg: IcaControllerCallbackMsg,
    after: State,
    answer: Result<Response, ContractError>,
) -> bool {
    match msg {
        IcaControllerCallbackMsg::OnAcknowledgementPacketCallback {
            original_packet,
            query_result,
        } => acknowledged(outposts, before, original_packet, query_result, after, answer),
        IcaControllerCallbackMsg::OnTimeoutPacketCallback {  } => {
            &&& after == before
            &&& answer matches Ok(r) && r@ == notice("on_timeout_packet"@)
        },
        IcaControllerCallbackMsg::OnChannelOpenAckCallback { ica_address } => {
            &&& after == before
            &&& answer matches Ok(r) && r@ == notice("on_channel_open_ack"@)
        },
    }
}

/// A packet was acknowledged: see [`acknowledged`].
pub fn on_acknowledgement(
    config: &Config,
    state: &mut State,
    original_packet: Result<IcaPacketData, StdError>,
    query_result: Option<IcaQueryResult>,
) -> (answer: Result<Response, ContractError>)
    ensures
        acknowledged(
            config.outposts@,
            *old(state),
            original_packet,
            query_result,
            *final(state),
            answer,
        ),
{
    let memo = match extract_packet_memo(original_packet)? {
        Some(memo) => memo,
        None => {
            return Err(ContractError::UnknownMemo {  });
        },
    };
    let envelope = decode_envelope(memo.as_str())?;
    match envelope.action {
        CommandAction::Deposit => {},
        CommandAction::Withdraw => {
            return Err(ContractError::NotSupported { operation: String::from_str("withdraw") });
        },
        CommandAction::MoveFunds => {
            return Err(
                ContractError::NotSupported { operation: String::from_str("move_funds") },
            );
        },
    }
    let value = observe(&query_result)?;
    let outpost = match config.find_destination_outpost(envelope.destination_key.as_str()) {
        Some(outpost) => outpost,
        None => {
            return Err(
                ContractError::DestinationNotFound { destination: envelope.destination_key },
            );
        },
    };
    proof {
        crate::config::lemma_first_match_is_one(
            config.outposts@,
            envelope.destination_key@,
            key_index(config.outposts@, envelope.destination_key@),
        );
    }
    state.record_inflow(value)?;
    let coin = Coin { denom: envelope.asset_denom, amount: envelope.amount };
    Ok(build_lend_command(outpost, coin))
}

/// A packet was not delivered in time. The command is lost; the pool had
/// not accounted for it, so nothing is changed and nothing is sent.
pub fn on_timeout() -> (answer: Result<Response, ContractError>)
    ensures
        answer matches Ok(r) && r@ == notice("on_timeout_packet"@),
{
    Ok(Response::new().add_attribute("method", "on_timeout_packet"))
}

/// A channel was opened. Receipt is acknowledged; nothing is changed and
/// nothing is sent.
pub fn on_channel_open_ack(_ica_address: String) -> (answer: Result<Response, ContractError>)
    ensures
        answer matches Ok(r) && r@ == notice("on_channel_open_ack"@),
{
    Ok(Response::new().add_attribute("method", "on_channel_open_ack"))
}

/// Handles what a controller reports: see [`called_back`].
pub fn receive_ica_callback(
    config: &Config,
    state: &mut State,
    msg: IcaControllerCallbackMsg,
) -> (answer: Result<Response, ContractError>)
    ensures
        called_back(config.outposts@, *old(state), msg, *final(state), answer),
{
    match msg {
        IcaControllerCallbackMsg::OnAcknowledgementPacketCallback {
            original_packet,
            query_result,
        } => on_acknowledgement(config, state, original_packet, query_result),
        IcaControllerCallbackMsg::OnTimeoutPacketCallback {  } => on_timeout(),
        IcaControllerCallbackMsg::OnChannelOpenAckCallback { ica_address } => on_channel_open_ack(
            ica_address,
        ),
    }
}

} // verus!
