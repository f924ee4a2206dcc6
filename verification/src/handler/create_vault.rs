use crate::error::{ContractError, ContractErrorView};
use crate::msg::Response;
use vstd::prelude::*;

verus! {

/// Creating a credit account on the outpost of the target chain is not
/// provided: the command is refused, and nothing is changed or sent.
pub fn try_create_vault() -> (refusal: Result<Response, ContractError>)
    ensures
        refusal matches Err(e) && e@ == (ContractErrorView::NotSupported {
            operation: "create_vault"@,
        }),
{
    Err(ContractError::NotSupported { operation: String::from_str("create_vault") })
}

} // verus!
