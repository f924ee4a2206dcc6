use cosmwasm_std::StdError;
use cw_utils::PaymentError;
use mars_controller::ContractError;

#[test]
fn messages_of_the_pools_own_errors() {
    assert_eq!(ContractError::Unauthorized {}.message(), "Unauthorized");
    assert_eq!(ContractError::UnknownMemo {}.message(), "ICA Memo is unknown");
    assert_eq!(
        ContractError::InvalidMemoFormat("deposit/a".to_string()).message(),
        "Memo Format is unknown: deposit/a"
    );
    assert_eq!(ContractError::NoCreditAccount {}.message(), "No credit account found");
    assert_eq!(
        ContractError::DestinationNotFound { destination: "chainZ".to_string() }.message(),
        "Outpost not found for destination: chainZ"
    );
    assert_eq!(
        ContractError::IcaQueryError { error: "boom".to_string() }.message(),
        "Ica Query Error: boom"
    );
    assert_eq!(ContractError::InvalidAmount {}.message(), "Failed Parsing Amount");
    assert_eq!(
        ContractError::InvalidAddress { address: "x".to_string() }.message(),
        "Invalid address: x"
    );
    assert_eq!(
        ContractError::NotSupported { operation: "withdraw".to_string() }.message(),
        "Not supported: withdraw"
    );
}

#[test]
fn messages_of_outside_errors_are_their_own() {
    let cause = StdError::generic_err("storage failed");
    assert_eq!(ContractError::Std(StdError::generic_err("storage failed")).message(), cause.to_string());
    assert_eq!(
        ContractError::Payment(PaymentError::NonPayable {}).message(),
        PaymentError::NonPayable {}.to_string()
    );
}
