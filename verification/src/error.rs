//! The errors that a command can end with.

use cosmwasm_std::StdError;
use cw_utils::PaymentError;
use vstd::prelude::*;

verus! {

/// `cosmwasm_std::StdError`, carried through without looking inside.
#[verifier::external_type_specification]
#[verifier::external_body]
pub struct ExStdError(StdError);

/// `cw_utils::PaymentError`, carried through without looking inside.
#[verifier::external_type_specification]
#[verifier::external_body]
pub struct ExPaymentError(PaymentError);

/// Why a command was refused. Every error aborts the command before any
/// state is changed and before any outbound command is produced.
#[derive(Debug, PartialEq)]
pub enum ContractError {
    /// A failure reported by the host or by the arithmetic of its types.
    Std(StdError),
    /// Funds were attached to a command that takes none.
    Payment(PaymentError),
    /// A privileged command was sent by someone other than the owner.
    Unauthorized {},
    /// The acknowledged packet carried no memo, or one with an unknown verb.
    UnknownMemo {},
    /// The memo names a known verb but has the wrong number of tokens.
    InvalidMemoFormat(String),
    /// The outpost has no credit account yet.
    NoCreditAccount {},
    /// No outpost is registered under the destination.
    DestinationNotFound { destination: String },
    /// The remote query itself failed.
    IcaQueryError { error: String },
    /// The amount token of the memo is not a number.
    InvalidAmount {},
    /// The configuration holds an address that is not acceptable.
    InvalidAddress { address: String },
    /// The operation is recognised but not provided.
    NotSupported { operation: String },
}

/// The mathematical value of a [`ContractError`].
pub enum ContractErrorView {
    Std(StdError),
    Payment(PaymentError),
    Unauthorized,
    UnknownMemo,
    InvalidMemoFormat(Seq<char>),
    NoCreditAccount,
    DestinationNotFound { destination: Seq<char> },
    IcaQueryError { error: Seq<char> },
    InvalidAmount,
    InvalidAddress { address: Seq<char> },
    NotSupported { operation: Seq<char> },
}

impl View for ContractError {
    type V = ContractErrorView;

    open spec fn view(&self) -> ContractErrorView {
        match *self {
            ContractError::Std(e) => ContractErrorView::Std(e),
            ContractError::Payment(e) => ContractErrorView::Payment(e),
            ContractError::Unauthorized {  } => ContractErrorView::Unauthorized,
            ContractError::UnknownMemo {  } => ContractErrorView::UnknownMemo,
            ContractError::InvalidMemoFormat(memo) => ContractErrorView::InvalidMemoFormat(memo@),
            ContractError::NoCreditAccount {  } => ContractErrorView::NoCreditAccount,
            ContractError::DestinationNotFound { destination } => {
                ContractErrorView::DestinationNotFound { destination: destination@ }
            },
            ContractError::IcaQueryError { error } => ContractErrorView::IcaQueryError {
                error: error@,
            },
            ContractError::InvalidAmount {  } => ContractErrorView::InvalidAmount,
            ContractError::InvalidAddress { address } => ContractErrorView::InvalidAddress {
                address: address@,
            },
            ContractError::NotSupported { operation } => ContractErrorView::NotSupported {
                operation: operation@,
            },
        }
    }
}

/// The text of a `cosmwasm_std::StdError`, as its `Display` writes it.
#[verifier::external_body]
fn std_error_text(e: &StdError) -> String {
    e.to_string()
}

/// The text of a `cw_utils::PaymentError`, as its `Display` writes it.
#[verifier::external_body]
fn payment_error_text(e: &PaymentError) -> String {
    e.to_string()
}

/// The text that describes an error of the pool's own; an error of the host
/// or of a payment has the text that its own type gives it.
pub open spec fn message_of(e: ContractErrorView) -> Option<Seq<char>> {
    match e {
        ContractErrorView::Std(_) => None,
        ContractErrorView::Payment(_) => None,
        ContractErrorView::Unauthorized => Some("Unauthorized"@),
        ContractErrorView::UnknownMemo => Some("ICA Memo is unknown"@),
        ContractErrorView::InvalidMemoFormat(memo) => Some("Memo Format is unknown: "@ + memo),
        ContractErrorView::NoCreditAccount => Some("No credit account found"@),
        ContractErrorView::DestinationNotFound { destination } => Some(
            "Outpost not found for destination: "@ + destination,
        ),
        ContractErrorView::IcaQueryError { error } => Some("Ica Query Error: "@ + error),
        ContractErrorView::InvalidAmount => Some("Failed Parsing Amount"@),
        ContractErrorView::InvalidAddress { address } => Some("Invalid address: "@ + address),
        ContractErrorView::NotSupported { operation } => Some("Not supported: "@ + operation),
    }
}

impl ContractError {
    /// The text that describes this error.
    pub fn message(&self) -> (text: String)
        ensures
            message_of(self@) matches Some(t) ==> text@ == t,
    {
        match self {
            ContractError::Std(e) => std_error_text(e),
            ContractError::Payment(e) => payment_error_text(e),
            ContractError::Unauthorized {  } => String::from_str("Unauthorized"),
            ContractError::UnknownMemo {  } => String::from_str("ICA Memo is unknown"),
            ContractError::InvalidMemoFormat(memo) => String::from_str(
                "Memo Format is unknown: ",
            ).concat(memo.as_str()),
            ContractError::NoCreditAccount {  } => String::from_str("No credit account found"),
            ContractError::DestinationNotFound { destination } => String::from_str(
                "Outpost not found for destination: ",
            ).concat(destination.as_str()),
            ContractError::IcaQueryError { error } => String::from_str("Ica Query Error: ").concat(
                error.as_str(),
            ),
            ContractError::InvalidAmount {  } => String::from_str("Failed Parsing Amount"),
            ContractError::InvalidAddress { address } => String::from_str(
                "Invalid address: ",
            ).concat(address.as_str()),
            ContractError::NotSupported { operation } => String::from_str(
                "Not supported: ",
            ).concat(operation.as_str()),
        }
    }
}

} // verus!
