//! The memo of a command: the text that travels with an outbound packet and
//! comes back with its callback, and so is all that ties the callback to
//! what was intended.
//!
//! A memo is five tokens joined by `/`: a verb, the subject's address, the
//! asset's denom, the amount in decimal, and the key of the destination
//! outpost.

use crate::error::{ContractError, ContractErrorView};
use crate::text::{
    all_digits, decimal_digits, decimal_string, digit_value, lemma_decimal_digits,
    lemma_parse_decimal_digits, lemma_split_append, lemma_split_plain, parse_decimal, parse_u128,
    split, split_on, starts_with, views,
};
use vstd::prelude::*;

verus! {

/// The character between the tokens of a memo.
pub const DELIMITER: char = '/';

/// The number of tokens of a memo, whatever its verb.
pub const ARITY: usize = 5;

/// What a command does.
#[derive(Clone, Copy, Debug, PartialEq, Eq, Structural)]
pub enum CommandAction {
    Deposit,
    Withdraw,
    MoveFunds,
}

/// The intent of one command, as its memo carries it.
#[derive(Clone, Debug, PartialEq)]
pub struct CommandEnvelope {
    pub action: CommandAction,
    pub subject_address: String,
    pub asset_denom: String,
    pub amount: u128,
    pub destination_key: String,
}

/// The mathematical value of a [`CommandEnvelope`].
pub struct CommandEnvelopeView {
    pub action: CommandAction,
    pub subject_address: Seq<char>,
    pub asset_denom: Seq<char>,
    pub amount: u128,
    pub destination_key: Seq<char>,
}

impl View for CommandEnvelope {
    type V = CommandEnvelopeView;

    open spec fn view(&self) -> CommandEnvelopeView {
        CommandEnvelopeView {
            action: self.action,
            subject_address: self.subject_address@,
            asset_denom: self.asset_denom@,
            amount: self.amount,
            destination_key: self.destination_key@,
        }
    }
}

/// The verb that writes `action`.
pub open spec fn verb(action: CommandAction) -> Seq<char> {
    match action {
        CommandAction::Deposit => "deposit"@,
        CommandAction::Withdraw => "withdraw"@,
        CommandAction::MoveFunds => "move_funds"@,
    }
}

/// The action that the first token of a memo stands for: the one whose verb
/// the token begins with.
pub open spec fn action_of(token: Seq<char>) -> Option<CommandAction> {
    if verb(CommandAction::Deposit).is_prefix_of(token) {
        Some(CommandAction::Deposit)
    } else if verb(CommandAction::Withdraw).is_prefix_of(token) {
        Some(CommandAction::Withdraw)
    } else if verb(CommandAction::MoveFunds).is_prefix_of(token) {
        Some(CommandAction::MoveFunds)
    } else {
        None
    }
}

/// The memo of an envelope.
pub open spec fn encoded(envelope: CommandEnvelopeView) -> Seq<char> {
    verb(envelope.action) + seq![DELIMITER] + envelope.subject_address + seq![DELIMITER]
        + envelope.asset_denom + seq![DELIMITER] + decimal_digits(envelope.amount as nat)
        + seq![DELIMITER] + envelope.destination_key
}

/// What a memo decodes to. The verb is read from the first token; then the
/// number of tokens must be exactly [`ARITY`]; then the amount must be a
/// number.
pub open spec fn decoded(memo: Seq<char>) -> Result<CommandEnvelopeView, ContractErrorView> {
    let tokens = split(memo, DELIMITER);
    match action_of(tokens[0]) {
        None => Err(ContractErrorView::UnknownMemo),
        Some(action) => {
            if tokens.len() != ARITY {
                Err(ContractErrorView::InvalidMemoFormat(memo))
            } else {
                match parse_decimal(tokens[3]) {
                    None => Err(ContractErrorView::InvalidAmount),
                    Some(amount) => Ok(
                        CommandEnvelopeView {
                            action,
                            subject_address: tokens[1],
                            asset_denom: tokens[2],
                            amount,
                            destination_key: tokens[4],
                        },
                    ),
                }
            }
        },
    }
}

/// Whether `text` can stand as a token: it holds no delimiter.
pub open spec fn is_token(text: Seq<char>) -> bool {
    !text.contains(DELIMITER)
}

/// The verb of an action, as text.
pub fn verb_text(action: CommandAction) -> (text: &'static str)
    ensures
        text@ == verb(action),
{
    match action {
        CommandAction::Deposit => "deposit",
        CommandAction::Withdraw => "withdraw",
        CommandAction::MoveFunds => "move_funds",
    }
}

/// Writes the memo of a command.
pub fn encode_envelope(
    action: CommandAction,
    subject: &str,
    denom: &str,
    amount: u128,
    destination_key: &str,
) -> (memo: String)
    ensures
        memo@ == encoded(
            CommandEnvelopeView {
                action,
                subject_address: subject@,
                asset_denom: denom@,
                amount,
                destination_key: destination_key@,
            },
        ),
{
    proof {
        reveal_strlit("/");
    }
    let mut memo = String::from_str(verb_text(action));
    memo.append("/");
    memo.append(subject);
    memo.append("/");
    memo.append(denom);
    memo.append("/");
    memo.append(decimal_string(amount).as_str());
    memo.append("/");
    memo.append(destination_key);
    proof {
        assert("/"@ =~= seq![DELIMITER]);
    }
    memo
}

/// The action that the first token of a memo stands for.
pub fn action_of_token(token: &str) -> (action: Option<CommandAction>)
    ensures
        action == action_of(token@),
{
    if starts_with(token, verb_text(CommandAction::Deposit)) {
        Some(CommandAction::Deposit)
    } else if starts_with(token, verb_text(CommandAction::Withdraw)) {
        Some(CommandAction::Withdraw)
    } else if starts_with(token, verb_text(CommandAction::MoveFunds)) {
        Some(CommandAction::MoveFunds)
    } else {
        None
    }
}

/// Reads the memo of a command. A memo with an unknown verb is
/// `UnknownMemo`; one with a known verb and any number of tokens but
/// [`ARITY`] is `InvalidMemoFormat`; one whose amount is no number is
/// `InvalidAmount`.
pub fn decode_envelope(memo: &str) -> (envelope: Result<CommandEnvelope, ContractError>)
    ensures
        match envelope {
            Ok(e) => decoded(memo@) == Ok::<CommandEnvelopeView, ContractErrorView>(e@),
            Err(e) => decoded(memo@) == Err::<CommandEnvelopeView, ContractErrorView>(e@),
        },
{
    let tokens = split_on(memo, DELIMITER);
    proof {
        crate::text::lemma_split_len(memo@, DELIMITER);
        assert(views(tokens@)[0] == tokens@[0]@);
    }
    let action = match action_of_token(tokens[0].as_str()) {
        Some(action) => action,
        None => {
            return Err(ContractError::UnknownMemo {  });
        },
    };
    if tokens.len() != ARITY {
        return Err(ContractError::InvalidMemoFormat(String::from_str(memo)));
    }
    proof {
        assert(views(tokens@)[1] == tokens@[1]@);
        assert(views(tokens@)[2] == tokens@[2]@);
        assert(views(tokens@)[3] == tokens@[3]@);
        assert(views(tokens@)[4] == tokens@[4]@);
    }
    let amount = match parse_u128(tokens[3].as_str()) {
        Some(amount) => amount,
        None => {
            return Err(ContractError::InvalidAmount {  });
        },
    };
    Ok(
        CommandEnvelope {
            action,
            subject_address: tokens[1].clone(),
            asset_denom: tokens[2].clone(),
            amount,
            destination_key: tokens[4].clone(),
        },
    )
}

/// No verb holds the delimiter, and each verb stands for its own action.
pub proof fn lemma_verbs(action: CommandAction)
    ensures
        is_token(verb(action)),
        action_of(verb(action)) == Some(action),
{
    reveal_strlit("deposit");
    reveal_strlit("withdraw");
    reveal_strlit("move_funds");
    let d = verb(CommandAction::Deposit);
    let w = verb(CommandAction::Withdraw);
    let m = verb(CommandAction::MoveFunds);
    assert(d.len() == 7 && w.len() == 8 && m.len() == 10);
    assert(d =~= d.subrange(0, 7));
    assert(w =~= w.subrange(0, 8));
    assert(m =~= m.subrange(0, 10));
    assert(w.subrange(0, 7)[0] != d[0]);
    assert(m.subrange(0, 7)[0] != d[0]);
    assert(m.subrange(0, 8)[0] != w[0]);
}

/// Digits hold no delimiter.
pub proof fn lemma_digits_are_token(s: Seq<char>)
    requires
        all_digits(s),
    ensures
        is_token(s),
{
    assert forall|i: int| 0 <= i < s.len() implies s[i] != DELIMITER by {
        assert(digit_value(s[i]) is Some);
    }
}

/// The tokens of an encoded envelope are its five parts, where the subject,
/// the denom and the destination hold no delimiter.
pub proof fn lemma_encoded_tokens(envelope: CommandEnvelopeView)
    requires
        is_token(envelope.subject_address),
        is_token(envelope.asset_denom),
        is_token(envelope.destination_key),
    ensures
        split(encoded(envelope), DELIMITER) == seq![
            verb(envelope.action),
            envelope.subject_address,
            envelope.asset_denom,
            decimal_digits(envelope.amount as nat),
            envelope.destination_key,
        ],
{
    let v = verb(envelope.action);
    let digits = decimal_digits(envelope.amount as nat);
    lemma_verbs(envelope.action);
    lemma_decimal_digits(envelope.amount as nat);
    lemma_digits_are_token(digits);
    lemma_split_plain(v, DELIMITER);
    let one = v + seq![DELIMITER] + envelope.subject_address;
    lemma_split_append(v, envelope.subject_address, DELIMITER);
    let two = one + seq![DELIMITER] + envelope.asset_denom;
    lemma_split_append(one, envelope.asset_denom, DELIMITER);
    let three = two + seq![DELIMITER] + digits;
    lemma_split_append(two, digits, DELIMITER);
    lemma_split_append(three, envelope.destination_key, DELIMITER);
    assert(split(encoded(envelope), DELIMITER) =~= seq![
        v,
        envelope.subject_address,
        envelope.asset_denom,
        digits,
        envelope.destination_key,
    ]);
}

/// Round trip: decoding the memo of an envelope gives the envelope back,
/// where its subject, denom and destination hold no delimiter.
pub proof fn lemma_decode_encode(envelope: CommandEnvelopeView)
    requires
        is_token(envelope.subject_address),
        is_token(envelope.asset_denom),
        is_token(envelope.destination_key),
    ensures
        decoded(encoded(envelope)) == Ok::<CommandEnvelopeView, ContractErrorView>(envelope),
{
    lemma_encoded_tokens(envelope);
    lemma_verbs(envelope.action);
    lemma_parse_decimal_digits(envelope.amount);
}

/// Strict arity: a memo with a known verb and any number of tokens other
/// than [`ARITY`] is refused as `InvalidMemoFormat`, whatever the verb and
/// whatever the tokens hold.
pub proof fn lemma_wrong_arity_refused(memo: Seq<char>)
    requires
        action_of(split(memo, DELIMITER)[0]) is Some,
        split(memo, DELIMITER).len() != ARITY,
    ensures
        decoded(memo) == Err::<CommandEnvelopeView, ContractErrorView>(
            ContractErrorView::InvalidMemoFormat(memo),
        ),
{
}

/// A memo decodes to an envelope only if it has exactly [`ARITY`] tokens.
pub proof fn lemma_decoded_has_arity(memo: Seq<char>)
    requires
        decoded(memo) is Ok,
    ensures
        split(memo, DELIMITER).len() == ARITY,
{
}

} // verus!
