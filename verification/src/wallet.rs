//! The paper wallet of one venue: a balance of the base token and a balance
//! of the quote token, changed only by simulated trades.

use crate::decimal::{
    lemma_zero_units, ok_or_overflow, opt_add, opt_mul, opt_sub, or_overflow, ArithmeticError,
    Decimal,
};
use vstd::prelude::*;

verus! {

/// The balances held at one venue.
#[derive(Clone, Copy, Debug)]
pub struct Wallet {
    pub base: Decimal,
    pub quote: Decimal,
}

/// The balances after halving the quote balance and turning the half that
/// was given up into base at `price`.
pub open spec fn spec_rebalance(wallet: Wallet, price: Decimal) -> Result<Wallet, ArithmeticError> {
    match wallet.quote.spec_div(Decimal::spec_new(2, 0)) {
        Ok(half) => match half.spec_div(price) {
            Ok(base) => Ok(Wallet { base, quote: half }),
            Err(e) => Err(e),
        },
        Err(e) => Err(e),
    }
}

/// What a trade of `amount` at `price` is worth in quote.
pub open spec fn spec_notional(amount: Decimal, price: Decimal) -> Option<Decimal> {
    price.spec_checked_mul(amount)
}

/// The fee on a trade of `amount` at `price`.
pub open spec fn spec_fee(amount: Decimal, price: Decimal, fee_rate: Decimal) -> Option<Decimal> {
    opt_mul(spec_notional(amount, price), Some(fee_rate))
}

/// The quote balance after paying for `amount` at `price` and the fee on it,
/// before it is held at zero.
pub open spec fn spec_quote_after_buy(
    wallet: Wallet,
    amount: Decimal,
    price: Decimal,
    fee_rate: Decimal,
) -> Option<Decimal> {
    opt_sub(
        opt_sub(Some(wallet.quote), spec_notional(amount, price)),
        spec_fee(amount, price, fee_rate),
    )
}

/// The balances after buying `amount` of base at `price`: the base grows by
/// the amount, the quote shrinks by the notional and the fee and is held at
/// zero where it would go below.
pub open spec fn spec_buy(wallet: Wallet, amount: Decimal, price: Decimal, fee_rate: Decimal) -> Option<
    Wallet,
> {
    match (
        wallet.base.spec_checked_add(amount),
        spec_quote_after_buy(wallet, amount, price, fee_rate),
    ) {
        (Some(base), Some(quote)) => Some(
            Wallet { base, quote: quote.spec_max(Decimal::spec_new(0, 0)) },
        ),
        _ => None,
    }
}

/// The balances after selling `amount` of base at `price`: the base shrinks
/// by the amount, the quote grows by the notional less the fee.
pub open spec fn spec_sell(wallet: Wallet, amount: Decimal, price: Decimal, fee_rate: Decimal) -> Option<
    Wallet,
> {
    match (
        wallet.base.spec_checked_sub(amount),
        opt_sub(
            opt_add(Some(wallet.quote), spec_notional(amount, price)),
            spec_fee(amount, price, fee_rate),
        ),
    ) {
        (Some(base), Some(quote)) => Some(Wallet { base, quote }),
        _ => None,
    }
}

/// `spec_buy`, step by step.
fn buy_checked(wallet: &Wallet, amount: Decimal, price: Decimal, fee_rate: Decimal) -> (r: Option<
    Wallet,
>)
    ensures
        r == spec_buy(*wallet, amount, price, fee_rate),
{
    let notional = price.checked_mul(amount)?;
    let fee = notional.checked_mul(fee_rate)?;
    let base = wallet.base.checked_add(amount)?;
    let quote = wallet.quote.checked_sub(notional)?.checked_sub(fee)?;
    Some(Wallet { base, quote: quote.max(Decimal::zero()) })
}

/// `spec_sell`, step by step.
fn sell_checked(wallet: &Wallet, amount: Decimal, price: Decimal, fee_rate: Decimal) -> (r: Option<
    Wallet,
>)
    ensures
        r == spec_sell(*wallet, amount, price, fee_rate),
{
    let notional = price.checked_mul(amount)?;
    let fee = notional.checked_mul(fee_rate)?;
    let base = wallet.base.checked_sub(amount)?;
    let quote = wallet.quote.checked_add(notional)?.checked_sub(fee)?;
    Some(Wallet { base, quote })
}

impl Wallet {
    /// A wallet that holds `initial_amount` of quote and no base.
    pub fn new(initial_amount: Decimal) -> (r: Wallet)
        ensures
            r == (Wallet { base: Decimal::spec_new(0, 0), quote: initial_amount }),
    {
        Wallet { base: Decimal::zero(), quote: initial_amount }
    }

    /// Halves the quote balance and sets the base balance to what the half
    /// buys at `price`. Where that cannot be computed the wallet stays as it
    /// was: a price of zero is a division by zero.
    pub fn rebalance(&mut self, price: Decimal) -> (r: Result<(), ArithmeticError>)
        ensures
            match spec_rebalance(*old(self), price) {
                Ok(w) => r is Ok && *final(self) == w,
                Err(e) => r == Err::<(), ArithmeticError>(e) && *final(self) == *old(self),
            },
    {
        let half = match self.quote.div(Decimal::new(2, 0)) {
            Ok(half) => half,
            Err(e) => { return Err(e); },
        };
        let base = match half.div(price) {
            Ok(base) => base,
            Err(e) => { return Err(e); },
        };
        self.quote = half;
        self.base = base;
        Ok(())
    }

    /// The wallet after buying `amount` of base at `price` with a fee of
    /// `fee_rate` times the notional.
    pub fn buy(&self, amount: Decimal, price: Decimal, fee_rate: Decimal) -> (r: Result<
        Wallet,
        ArithmeticError,
    >)
        ensures
            r == or_overflow(spec_buy(*self, amount, price, fee_rate)),
            r matches Ok(after) ==> after.quote.units() >= 0,
    {
        proof {
            lemma_zero_units();
        }
        ok_or_overflow(buy_checked(self, amount, price, fee_rate))
    }

    /// The wallet after selling `amount` of base at `price` with a fee of
    /// `fee_rate` times the notional.
    pub fn sell(&self, amount: Decimal, price: Decimal, fee_rate: Decimal) -> (r: Result<
        Wallet,
        ArithmeticError,
    >)
        ensures
            r == or_overflow(spec_sell(*self, amount, price, fee_rate)),
    {
        ok_or_overflow(sell_checked(self, amount, price, fee_rate))
    }
}

} // verus!
