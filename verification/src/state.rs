//! Pool accounting: the value held, the receipts outstanding, and the rate
//! between the two.

use crate::error::ContractError;
use cosmwasm_std::StdError;
use vstd::prelude::*;

verus! {

/// The number of atomic units in one whole [`Decimal`].
pub const DECIMAL_FRACTIONAL: u128 = 1_000_000_000_000_000_000u128;

/// A non-negative fixed-point number with 18 fractional digits, held as its
/// count of atomic units.
#[derive(Clone, Copy, Debug, PartialEq, Eq, Structural)]
pub struct Decimal {
    pub atomics: u128,
}

/// The pool's books.
#[derive(Clone, Copy, Debug, PartialEq, Eq, Structural)]
pub struct State {
    /// Total funds accounted for, in USD with 6 decimals.
    pub total_stables: u128,
    /// Total minted receipt tokens, with 6 decimals.
    pub virtual_receipt: u128,
    /// Redemption rate of receipt tokens to underlying assets.
    pub deposit_redemption_rate: Decimal,
}

/// The atomic units of `total / shares`, rounded down; zero where there are
/// no shares.
pub open spec fn rate_atomics(total: u128, shares: u128) -> int {
    if shares == 0 {
        0
    } else {
        total * DECIMAL_FRACTIONAL / (shares as int)
    }
}

/// `cosmwasm_std::Uint128::checked_add`: the sum, or the overflow error of
/// the outside crate exactly when the sum does not fit in 128 bits.
#[verifier::external_body]
fn uint128_checked_add(a: u128, b: u128) -> (sum: Result<u128, StdError>)
    ensures
        sum is Ok <==> a + b <= u128::MAX,
        sum matches Ok(v) ==> v == a + b,
{
    match cosmwasm_std::Uint128::new(a).checked_add(cosmwasm_std::Uint128::new(b)) {
        Ok(v) => Ok(v.u128()),
        Err(e) => Err(StdError::from(e)),
    }
}

/// Whether `n / d` is a [`Decimal`]: `d` is not zero and the quotient, in
/// atomic units and rounded down, fits in 128 bits.
pub open spec fn ratio_fits(n: u128, d: u128) -> bool {
    d != 0 && n * DECIMAL_FRACTIONAL / (d as int) <= u128::MAX
}

/// `cosmwasm_std::Decimal::checked_from_ratio`, read as atomic units: the
/// quotient `n * 10^18 / d` rounded down, or an error exactly when `d` is
/// zero or the quotient does not fit in 128 bits.
#[verifier::external_body]
fn decimal_checked_from_ratio(n: u128, d: u128) -> (quotient: Result<u128, StdError>)
    ensures
        quotient is Ok <==> ratio_fits(n, d),
        quotient matches Ok(atomics) ==> atomics == n * DECIMAL_FRACTIONAL / (d as int),
{
    match cosmwasm_std::Decimal::checked_from_ratio(n, d) {
        Ok(d) => Ok(d.atomics().u128()),
        Err(e) => Err(StdError::generic_err(e.to_string())),
    }
}

/// The rate of `total` to `shares`: zero where there are no shares, an error
/// where the rate does not fit a [`Decimal`].
pub fn redemption_rate(total: u128, shares: u128) -> (rate: Result<Decimal, ContractError>)
    ensures
        rate is Ok <==> rate_atomics(total, shares) <= u128::MAX,
        rate matches Ok(d) ==> d.atomics == rate_atomics(total, shares),
        rate matches Err(e) ==> e is Std,
{
    if shares == 0 {
        return Ok(Decimal { atomics: 0 });
    }
    match decimal_checked_from_ratio(total, shares) {
        Ok(atomics) => Ok(Decimal { atomics }),
        Err(e) => Err(ContractError::Std(e)),
    }
}

impl State {
    /// Whether the stored rate is the rate of the two counters.
    pub open spec fn wf(&self) -> bool {
        self.deposit_redemption_rate.atomics == rate_atomics(
            self.total_stables,
            self.virtual_receipt,
        )
    }

    /// The books that hold `total_stables` against `virtual_receipt`
    /// receipts, with the rate of the two; an error where the rate does not
    /// fit.
    pub fn new(total_stables: u128, virtual_receipt: u128) -> (state: Result<State, ContractError>)
        ensures
            state is Ok <==> rate_atomics(total_stables, virtual_receipt) <= u128::MAX,
            state matches Ok(s) ==> s.total_stables == total_stables && s.virtual_receipt
                == virtual_receipt && s.wf(),
            state matches Err(e) ==> e is Std,
    {
        let deposit_redemption_rate = redemption_rate(total_stables, virtual_receipt)?;
        Ok(State { total_stables, virtual_receipt, deposit_redemption_rate })
    }

    /// Whether an inflow of `value_delta` keeps both the total and the rate
    /// within their types.
    pub open spec fn accepts_inflow(&self, value_delta: u128) -> bool {
        &&& self.total_stables + value_delta <= u128::MAX
        &&& rate_atomics((self.total_stables + value_delta) as u128, self.virtual_receipt)
            <= u128::MAX
    }

    /// The books after an inflow of `value_delta` that they accept.
    pub open spec fn credited(&self, value_delta: u128) -> State {
        State {
            total_stables: (self.total_stables + value_delta) as u128,
            virtual_receipt: self.virtual_receipt,
            deposit_redemption_rate: Decimal {
                atomics: rate_atomics(
                    (self.total_stables + value_delta) as u128,
                    self.virtual_receipt,
                ) as u128,
            },
        }
    }

    /// Adds `value_delta` to the total and recomputes the rate from the two
    /// counters. Where the new total or the new rate would not fit, nothing
    /// changes and the error of the arithmetic is returned.
    pub fn record_inflow(&mut self, value_delta: u128) -> (done: Result<(), ContractError>)
        ensures
            done is Ok <==> old(self).accepts_inflow(value_delta),
            done is Ok ==> *final(self) == old(self).credited(value_delta) && final(self).wf(),
            done matches Err(e) ==> e is Std && *final(self) == *old(self),
            final(self).total_stables >= old(self).total_stables,
            final(self).virtual_receipt == old(self).virtual_receipt,
    {
        let total = match uint128_checked_add(self.total_stables, value_delta) {
            Ok(total) => total,
            Err(e) => {
                return Err(ContractError::Std(e));
            },
        };
        let rate = redemption_rate(total, self.virtual_receipt)?;
        self.total_stables = total;
        self.deposit_redemption_rate = rate;
        Ok(())
    }

    /// The rate of the total to the receipts, computed from the two counters:
    /// zero where there are no receipts, an error where it does not fit.
    pub fn current_rate(&self) -> (rate: Result<Decimal, ContractError>)
        ensures
            rate is Ok <==> rate_atomics(self.total_stables, self.virtual_receipt) <= u128::MAX,
            rate matches Ok(d) ==> d.atomics == rate_atomics(
                self.total_stables,
                self.virtual_receipt,
            ),
            rate matches Err(e) ==> e is Std,
            self.virtual_receipt == 0 ==> rate == Ok::<Decimal, ContractError>(
                Decimal { atomics: 0 },
            ),
    {
        redemption_rate(self.total_stables, self.virtual_receipt)
    }
}

/// The books after an inflow that they accept hold the rate of their two
/// counters, whatever rate they held before, and no less value than before.
pub proof fn lemma_credited_is_consistent(before: State, value_delta: u128)
    requires
        before.accepts_inflow(value_delta),
    ensures
        before.credited(value_delta).wf(),
        before.credited(value_delta).total_stables == before.total_stables + value_delta,
        before.credited(value_delta).total_stables >= before.total_stables,
        before.credited(value_delta).virtual_receipt == before.virtual_receipt,
{
}

/// A user's receipts after `amount` more are credited: the stored balance,
/// or zero where none is stored, plus `amount`.
pub fn credited_receipt(existing: Option<u128>, amount: u128) -> (balance: Result<u128, ContractError>)
    ensures
        balance is Ok <==> receipt_or_zero_spec(existing) + amount <= u128::MAX,
        balance matches Ok(v) ==> v == receipt_or_zero_spec(existing) + amount,
        balance matches Err(e) ==> e is Std,
{
    match uint128_checked_add(receipt_or_zero(existing), amount) {
        Ok(v) => Ok(v),
        Err(e) => Err(ContractError::Std(e)),
    }
}

/// The balance that a lookup stands for: zero where nothing is stored.
pub open spec fn receipt_or_zero_spec(existing: Option<u128>) -> u128 {
    match existing {
        Some(v) => v,
        None => 0,
    }
}

/// The balance that a lookup stands for: zero where nothing is stored.
pub fn receipt_or_zero(existing: Option<u128>) -> (balance: u128)
    ensures
        balance == receipt_or_zero_spec(existing),
{
    match existing {
        Some(v) => v,
        None => 0,
    }
}

} // verus!
