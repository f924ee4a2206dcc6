use crate::error::{ContractError, ContractErrorView};
use crate::msg::Response;
use vstd::prelude::*;

verus! {

/// Opening a channel with a controller is not provided: the command is
/// refused, and nothing is changed or sent.
pub fn try_create_channel() -> (refusal: Result<Response, ContractError>)
    ensures
        refusal matches Err(e) && e@ == (ContractErrorView::NotSupported {
            operation: "create_channel"@,
        }),
{
    Err(ContractError::NotSupported { operation: String::from_str("create_channel") })
}

/// Closing a channel with a controller is not provided: the command is
/// refused, and nothing is changed or sent.
pub fn try_close_channel() -> (refusal: Result<Response, ContractError>)
    ensures
        refusal matches Err(e) && e@ == (ContractErrorView::NotSupported {
            operation: "close_channel"@,
        }),
{
    Err(ContractError::NotSupported { operation: String::from_str("close_channel") })
}

} // verus!
