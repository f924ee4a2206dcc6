use crate::error::{ContractError, ContractErrorView};
use crate::msg::{Response, WithdrawMsg};
use vstd::prelude::*;

verus! {

/// Withdrawing a user's funds from the lending contract of the target chain
/// is not provided: the command is refused, and nothing is changed or sent.
pub fn try_withdraw(_msg: WithdrawMsg) -> (refusal: Result<Response, ContractError>)
    ensures
        refusal matches Err(e) && e@ == (ContractErrorView::NotSupported {
            operation: "withdraw"@,
        }),
{
    Err(ContractError::NotSupported { operation: String::from_str("withdraw") })
}

} // verus!
