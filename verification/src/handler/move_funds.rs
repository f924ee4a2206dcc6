use crate::error::{ContractError, ContractErrorView};
use crate::msg::{MoveFundsMsg, Response};
use vstd::prelude::*;

verus! {

/// Lending or unlending the assets of a vault is not provided: the command
/// is refused, and nothing is changed or sent.
pub fn try_move_funds(_msg: MoveFundsMsg) -> (refusal: Result<Response, ContractError>)
    ensures
        refusal matches Err(e) && e@ == (ContractErrorView::NotSupported {
            operation: "move_funds"@,
        }),
{
    Err(ContractError::NotSupported { operation: String::from_str("move_funds") })
}

} // verus!
