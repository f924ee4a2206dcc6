//! The commands that come in, the callbacks of the command channel, and the
//! commands that go out.

use crate::config::ConfigUpdate;
use crate::handler::ica::IcaPacketData;
use crate::text::{option_view, views};
use cosmwasm_std::StdError;
use cw_ica_controller::types::msg::options::ChannelOpenInitOptions;
use vstd::prelude::*;

verus! {

/// `cw_ica_controller::types::msg::options::ChannelOpenInitOptions`: the
/// parameters a channel is opened with, carried through without looking
/// inside.
#[verifier::external_type_specification]
#[verifier::external_body]
pub struct ExChannelOpenInitOptions(ChannelOpenInitOptions);

/// The derived `clone` of `ChannelOpenInitOptions` copies every field, so
/// the copy is the same value.
pub assume_specification[ <ChannelOpenInitOptions as Clone>::clone ](
    options: &ChannelOpenInitOptions,
) -> (copy: ChannelOpenInitOptions)
    ensures
        copy == *options,
;

/// What the pool is set up with.
#[derive(Clone, Debug, PartialEq)]
pub struct InstantiateMsg {
    pub owner: String,
    pub outposts: Vec<Outpost>,
    pub cw_ica_controller_code_id: u64,
}

/// One remote integration point, found by the address of its custodian
/// contract.
#[derive(Clone, Debug, PartialEq)]
pub struct Outpost {
    /// The remote lending contract; the outpost's key.
    pub mars_red_bank_contract: String,
    /// The local contract that owns the command channel to the remote chain.
    pub cw_ica_controller_contract: String,
    /// The parameters the channel was opened with.
    pub channel_open_init_options: ChannelOpenInitOptions,
    /// The remote sub-account, absent until it has been provisioned.
    pub account_id: Option<String>,
}

/// The mathematical value of an [`Outpost`].
pub struct OutpostView {
    pub mars_red_bank_contract: Seq<char>,
    pub cw_ica_controller_contract: Seq<char>,
    pub channel_open_init_options: ChannelOpenInitOptions,
    pub account_id: Option<Seq<char>>,
}

impl View for Outpost {
    type V = OutpostView;

    open spec fn view(&self) -> OutpostView {
        OutpostView {
            mars_red_bank_contract: self.mars_red_bank_contract@,
            cw_ica_controller_contract: self.cw_ica_controller_contract@,
            channel_open_init_options: self.channel_open_init_options,
            account_id: option_view(self.account_id),
        }
    }
}

/// The commands of the pool.
#[derive(Debug, PartialEq)]
pub enum ExecuteMsg {
    /// Starts a deposit to the vault of an outpost: dispatches a query only.
    Deposit(DepositMsg),
    /// Starts a withdrawal from the vault of an outpost.
    Withdraw(WithdrawMsg),
    /// Creates a vault on an outpost.
    CreateVault {},
    /// Opens a channel with the controller of an outpost.
    CreateChannel {},
    /// Closes a channel with the controller of an outpost.
    CloseChannel {},
    /// Lends or unlends the assets of a vault.
    MoveFunds(MoveFundsMsg),
    /// The callback of a controller contract.
    ReceiveIcaCallback(IcaControllerCallbackMsg),
    /// Changes the configuration.
    UpdateConfig(ConfigUpdate),
}

/// A deposit to the outpost whose key is `destination`.
#[derive(Clone, Debug, PartialEq)]
pub struct DepositMsg {
    pub destination: String,
}

/// A withdrawal of `amount`.
#[derive(Clone, Debug, PartialEq)]
pub struct WithdrawMsg {
    pub amount: u128,
}

/// A move of funds between the idle and the lent part of a vault.
#[derive(Clone, Debug, PartialEq)]
pub struct MoveFundsMsg {
    /// Whether the funds are deployed or set idle.
    pub action: Action,
    /// Denom of the base token.
    pub denom: String,
    /// Amount to move.
    pub amount: u128,
    pub chain: String,
}

/// Whether funds are put to work or taken back.
#[derive(Clone, Copy, Debug, PartialEq, Eq, Structural)]
pub enum Action {
    On,
    Off,
}

/// The questions that the pool answers.
#[derive(Clone, Copy, Debug, PartialEq, Eq, Structural)]
pub enum QueryMsg {
    /// The configuration as it stands.
    Config {},
}

/// The query for the positions of a credit account.
#[derive(Clone, Debug, PartialEq)]
pub struct Positions {
    pub account_id: String,
}

impl View for Positions {
    type V = Seq<char>;

    open spec fn view(&self) -> Seq<char> {
        self.account_id@
    }
}

/// The kinds of credit account.
#[derive(Clone, Copy, Debug, PartialEq, Eq, Structural)]
pub enum AccountKind {
    Default,
    HighLeveredStrategy,
}

/// The request to open a credit account of a kind.
#[derive(Clone, Copy, Debug, PartialEq, Eq, Structural)]
pub struct CreateCreditAccount(pub AccountKind);

/// An amount of one asset.
#[derive(Clone, Debug, PartialEq)]
pub struct Coin {
    pub denom: String,
    pub amount: u128,
}

/// The mathematical value of a [`Coin`].
pub struct CoinView {
    pub denom: Seq<char>,
    pub amount: u128,
}

impl View for Coin {
    type V = CoinView;

    open spec fn view(&self) -> CoinView {
        CoinView { denom: self.denom@, amount: self.amount }
    }
}

/// Who sent a command, and the funds that came with it.
#[derive(Clone, Debug, PartialEq)]
pub struct MessageInfo {
    pub sender: String,
    pub funds: Vec<Coin>,
}

/// One answer of the remote chain to a query.
#[derive(Clone, Debug, PartialEq)]
pub enum IcaQueryResponse {
    /// The balance of an account in one asset.
    Balance(Coin),
    /// An answer that reports no balance.
    Other,
}

/// How the queries of a packet ended.
#[derive(Clone, Debug, PartialEq)]
pub enum IcaQueryResult {
    /// The answers, in the order of the queries.
    Success { height: u64, responses: Vec<IcaQueryResponse> },
    /// The queries failed as a whole.
    Error(String),
}

/// What a controller contract reports about the channel and its packets.
#[derive(Debug, PartialEq)]
pub enum IcaControllerCallbackMsg {
    /// A packet was acknowledged. `original_packet` is the decoded payload
    /// of the packet that was sent, or the error of decoding it.
    OnAcknowledgementPacketCallback {
        original_packet: Result<IcaPacketData, StdError>,
        query_result: Option<IcaQueryResult>,
    },
    /// A packet was not delivered in time.
    OnTimeoutPacketCallback {},
    /// The channel was opened and the remote account created.
    OnChannelOpenAckCallback { ica_address: String },
}

/// One step of a credit account update.
#[derive(Clone, Debug, PartialEq)]
pub enum CreditAction {
    /// Takes the coin into the credit account.
    Deposit(Coin),
    /// Lends exactly the coin's amount from the credit account.
    Lend(Coin),
}

/// The mathematical value of a [`CreditAction`].
pub enum CreditActionView {
    Deposit(CoinView),
    Lend(CoinView),
}

impl View for CreditAction {
    type V = CreditActionView;

    open spec fn view(&self) -> CreditActionView {
        match *self {
            CreditAction::Deposit(coin) => CreditActionView::Deposit(coin@),
            CreditAction::Lend(coin) => CreditActionView::Lend(coin@),
        }
    }
}

/// A message for the remote chain to execute: an update of the credit
/// account held at a custodian contract, with the funds sent along.
#[derive(Clone, Debug, PartialEq)]
pub struct RemoteMessage {
    pub contract_addr: String,
    pub actions: Vec<CreditAction>,
    pub funds: Vec<Coin>,
}

/// The mathematical value of a [`RemoteMessage`].
pub struct RemoteMessageView {
    pub contract_addr: Seq<char>,
    pub actions: Seq<CreditActionView>,
    pub funds: Seq<CoinView>,
}

impl View for RemoteMessage {
    type V = RemoteMessageView;

    open spec fn view(&self) -> RemoteMessageView {
        RemoteMessageView {
            contract_addr: self.contract_addr@,
            actions: views(self.actions@),
            funds: views(self.funds@),
        }
    }
}

/// A read-only query for the remote chain: the positions of a credit
/// account, asked of a custodian contract.
#[derive(Clone, Debug, PartialEq)]
pub struct RemoteQuery {
    pub contract_addr: String,
    pub msg: Positions,
}

/// The mathematical value of a [`RemoteQuery`].
pub struct RemoteQueryView {
    pub contract_addr: Seq<char>,
    pub account_id: Seq<char>,
}

impl View for RemoteQuery {
    type V = RemoteQueryView;

    open spec fn view(&self) -> RemoteQueryView {
        RemoteQueryView { contract_addr: self.contract_addr@, account_id: self.msg@ }
    }
}

/// A call of a contract in its wire form: the address of the contract, the
/// encoded message, and the funds sent along.
#[derive(Clone, Debug, PartialEq)]
pub struct WasmExecute {
    pub contract_addr: String,
    pub msg: Vec<u8>,
    pub funds: Vec<Coin>,
}

/// The mathematical value of a [`WasmExecute`].
pub struct WasmExecuteView {
    pub contract_addr: Seq<char>,
    pub msg: Seq<u8>,
    pub funds: Seq<CoinView>,
}

impl View for WasmExecute {
    type V = WasmExecuteView;

    open spec fn view(&self) -> WasmExecuteView {
        WasmExecuteView {
            contract_addr: self.contract_addr@,
            msg: self.msg@,
            funds: views(self.funds@),
        }
    }
}

/// A query of a contract in its wire form: the address of the contract and
/// the encoded question.
#[derive(Clone, Debug, PartialEq)]
pub struct WasmSmartQuery {
    pub contract_addr: String,
    pub msg: Vec<u8>,
}

/// The mathematical value of a [`WasmSmartQuery`].
pub struct WasmSmartQueryView {
    pub contract_addr: Seq<char>,
    pub msg: Seq<u8>,
}

impl View for WasmSmartQuery {
    type V = WasmSmartQueryView;

    open spec fn view(&self) -> WasmSmartQueryView {
        WasmSmartQueryView { contract_addr: self.contract_addr@, msg: self.msg@ }
    }
}

/// One outbound command: messages and queries for a remote chain, with the
/// memo that its callback will carry, addressed to the controller contract
/// that owns the channel. No funds go with it and the channel's own timeout
/// applies. The messages and queries are held as what they say; whoever
/// dispatches the command encodes them and hands them to
/// [`execute_ica`](crate::handler::ica::execute_ica).
#[derive(Clone, Debug, PartialEq)]
pub struct IcaCommand {
    pub controller: String,
    pub messages: Vec<RemoteMessage>,
    pub queries: Vec<RemoteQuery>,
    pub packet_memo: Option<String>,
}

/// The mathematical value of an [`IcaCommand`].
pub struct IcaCommandView {
    pub controller: Seq<char>,
    pub messages: Seq<RemoteMessageView>,
    pub queries: Seq<RemoteQueryView>,
    pub packet_memo: Option<Seq<char>>,
}

impl View for IcaCommand {
    type V = IcaCommandView;

    open spec fn view(&self) -> IcaCommandView {
        IcaCommandView {
            controller: self.controller@,
            messages: views(self.messages@),
            queries: views(self.queries@),
            packet_memo: option_view(self.packet_memo),
        }
    }
}

/// A key and a value that describe what a command did.
#[derive(Clone, Debug, PartialEq)]
pub struct Attribute {
    pub key: String,
    pub value: String,
}

impl View for Attribute {
    type V = (Seq<char>, Seq<char>);

    open spec fn view(&self) -> (Seq<char>, Seq<char>) {
        (self.key@, self.value@)
    }
}

/// What a command answers with: the outbound commands to dispatch, in
/// order, and the attributes that describe it.
#[derive(Clone, Debug, PartialEq)]
pub struct Response {
    pub messages: Vec<IcaCommand>,
    pub attributes: Vec<Attribute>,
}

/// The mathematical value of a [`Response`].
pub struct ResponseView {
    pub messages: Seq<IcaCommandView>,
    pub attributes: Seq<(Seq<char>, Seq<char>)>,
}

impl View for Response {
    type V = ResponseView;

    open spec fn view(&self) -> ResponseView {
        ResponseView { messages: views(self.messages@), attributes: views(self.attributes@) }
    }
}

impl Response {
    /// The response that holds nothing.
    pub fn new() -> (response: Response)
        ensures
            response@ == (ResponseView { messages: Seq::empty(), attributes: Seq::empty() }),
    {
        let response = Response { messages: Vec::new(), attributes: Vec::new() };
        assert(views(response.messages@) =~= Seq::empty());
        assert(views(response.attributes@) =~= Seq::empty());
        response
    }

    /// This response with `command` as its last outbound command.
    pub fn add_message(self, command: IcaCommand) -> (response: Response)
        ensures
            response@ == (ResponseView {
                messages: self@.messages.push(command@),
                attributes: self@.attributes,
            }),
    {
        let mut response = self;
        response.messages.push(command);
        assert(views(response.messages@) =~= self@.messages.push(command@));
        response
    }

    /// This response with the attribute `key = value` as its last one.
    pub fn add_attribute(self, key: &str, value: &str) -> (response: Response)
        ensures
            response@ == (ResponseView {
                messages: self@.messages,
                attributes: self@.attributes.push((key@, value@)),
            }),
    {
        let mut response = self;
        let attribute = Attribute { key: String::from_str(key), value: String::from_str(value) };
        response.attributes.push(attribute);
        assert(views(response.attributes@) =~= self@.attributes.push((key@, value@)));
        response
    }
}

} // verus!
