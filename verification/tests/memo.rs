use mars_controller::memo::{
    action_of_token, decode_envelope, encode_envelope, verb_text, CommandAction, CommandEnvelope,
    ARITY, DELIMITER,
};
use mars_controller::ContractError;

fn envelope(action: CommandAction, subject: &str, denom: &str, amount: u128, key: &str) -> CommandEnvelope {
    CommandEnvelope {
        action,
        subject_address: subject.to_string(),
        asset_denom: denom.to_string(),
        amount,
        destination_key: key.to_string(),
    }
}

#[test]
fn encode_writes_five_tokens() {
    let memo = encode_envelope(CommandAction::Deposit, "userX", "uusd", 1_000_000, "chainA");
    assert_eq!(memo, "deposit/userX/uusd/1000000/chainA");
    assert_eq!(memo.matches(DELIMITER).count() + 1, ARITY);
}

#[test]
fn encode_writes_each_verb() {
    assert_eq!(encode_envelope(CommandAction::Deposit, "s", "d", 0, "k"), "deposit/s/d/0/k");
    assert_eq!(encode_envelope(CommandAction::Withdraw, "s", "d", 1, "k"), "withdraw/s/d/1/k");
    assert_eq!(encode_envelope(CommandAction::MoveFunds, "s", "d", 2, "k"), "move_funds/s/d/2/k");
    assert_eq!(verb_text(CommandAction::MoveFunds), "move_funds");
}

#[test]
fn decode_reads_what_encode_wrote() {
    let memo = encode_envelope(CommandAction::MoveFunds, "addr", "uatom", u128::MAX, "key");
    assert_eq!(memo, "move_funds/addr/uatom/340282366920938463463374607431768211455/key");
    assert_eq!(
        decode_envelope(&memo),
        Ok(envelope(CommandAction::MoveFunds, "addr", "uatom", u128::MAX, "key"))
    );
}

#[test]
fn round_trip_holds_for_every_verb() {
    for action in [CommandAction::Deposit, CommandAction::Withdraw, CommandAction::MoveFunds] {
        for amount in [0u128, 7, 1_000_000, u128::MAX] {
            let memo = encode_envelope(action, "kujira1user", "ibc-ABC", amount, "osmo1redbank");
            assert_eq!(
                decode_envelope(&memo),
                Ok(envelope(action, "kujira1user", "ibc-ABC", amount, "osmo1redbank"))
            );
        }
    }
}

#[test]
fn round_trip_keeps_empty_tokens() {
    let memo = encode_envelope(CommandAction::Deposit, "", "", 5, "");
    assert_eq!(memo, "deposit///5/");
    assert_eq!(decode_envelope(&memo), Ok(envelope(CommandAction::Deposit, "", "", 5, "")));
}

#[test]
fn a_delimiter_inside_a_token_breaks_the_round_trip() {
    let memo = encode_envelope(CommandAction::Deposit, "a/b", "uusd", 5, "k");
    assert_eq!(decode_envelope(&memo), Err(ContractError::InvalidMemoFormat(memo.clone())));
}

#[test]
fn decode_refuses_a_missing_destination() {
    assert_eq!(
        decode_envelope("deposit/userX/uusd/1000000"),
        Err(ContractError::InvalidMemoFormat("deposit/userX/uusd/1000000".to_string()))
    );
}

#[test]
fn decode_refuses_every_other_token_count_for_every_verb() {
    for verb in ["deposit", "withdraw", "move_funds"] {
        for memo in [
            verb.to_string(),
            format!("{verb}/a"),
            format!("{verb}/a/b"),
            format!("{verb}/a/b/1"),
            format!("{verb}/a/b/1/k/"),
            format!("{verb}/a/b/1/k/extra"),
            format!("{verb}/a/b/1/k/x/y/z"),
        ] {
            assert_eq!(decode_envelope(&memo), Err(ContractError::InvalidMemoFormat(memo.clone())));
        }
        assert!(decode_envelope(&format!("{verb}/a/b/1/k")).is_ok());
    }
}

#[test]
fn decode_looks_at_the_arity_before_the_amount() {
    assert_eq!(
        decode_envelope("deposit/a/b/notanumber"),
        Err(ContractError::InvalidMemoFormat("deposit/a/b/notanumber".to_string()))
    );
}

#[test]
fn decode_refuses_an_amount_that_is_no_number() {
    assert_eq!(decode_envelope("deposit/a/b/ten/k"), Err(ContractError::InvalidAmount {}));
    assert_eq!(decode_envelope("deposit/a/b//k"), Err(ContractError::InvalidAmount {}));
    assert_eq!(decode_envelope("deposit/a/b/-1/k"), Err(ContractError::InvalidAmount {}));
    assert_eq!(
        decode_envelope("withdraw/a/b/340282366920938463463374607431768211456/k"),
        Err(ContractError::InvalidAmount {})
    );
}

#[test]
fn decode_refuses_an_unknown_verb() {
    assert_eq!(decode_envelope("stake/a/b/1/k"), Err(ContractError::UnknownMemo {}));
    assert_eq!(decode_envelope(""), Err(ContractError::UnknownMemo {}));
    assert_eq!(decode_envelope("Deposit/a/b/1/k"), Err(ContractError::UnknownMemo {}));
    assert_eq!(decode_envelope("/deposit/a/b/1"), Err(ContractError::UnknownMemo {}));
    assert_eq!(decode_envelope("depos"), Err(ContractError::UnknownMemo {}));
}

#[test]
fn decode_reads_the_verb_from_the_start_of_the_first_token() {
    assert_eq!(
        decode_envelope("deposit_v2/a/b/1/k"),
        Ok(envelope(CommandAction::Deposit, "a", "b", 1, "k"))
    );
    assert_eq!(
        decode_envelope("withdrawal/a/b/1/k"),
        Ok(envelope(CommandAction::Withdraw, "a", "b", 1, "k"))
    );
    assert_eq!(
        decode_envelope("deposit_v2/a/b/1"),
        Err(ContractError::InvalidMemoFormat("deposit_v2/a/b/1".to_string()))
    );
}

#[test]
fn action_of_token_matches_by_prefix() {
    assert_eq!(action_of_token("deposit"), Some(CommandAction::Deposit));
    assert_eq!(action_of_token("withdraw"), Some(CommandAction::Withdraw));
    assert_eq!(action_of_token("move_funds"), Some(CommandAction::MoveFunds));
    assert_eq!(action_of_token("move_fund"), None);
    assert_eq!(action_of_token(""), None);
}
