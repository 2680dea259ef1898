//! Coins, and the fee gate.

use crate::error::{fails_with, ContractError};
use crate::model::{pays, sufficient, CoinView, ErrorView};
use vstd::prelude::*;

verus! {

/// An amount of one currency.
#[derive(Debug, PartialEq, Eq)]
pub struct Coin {
    pub denom: String,
    pub amount: u128,
}

impl View for Coin {
    type V = CoinView;

    open spec fn view(&self) -> CoinView {
        CoinView { denom: self.denom@, amount: self.amount as nat }
    }
}

impl DeepView for Coin {
    type V = CoinView;

    open spec fn deep_view(&self) -> CoinView {
        self@
    }
}

impl Clone for Coin {
    fn clone(&self) -> (copy: Self)
        ensures
            copy == *self,
    {
        Coin { denom: self.denom.clone(), amount: self.amount }
    }
}

impl Coin {
    /// `amount` of the currency `denom`.
    pub fn new(amount: u128, denom: &str) -> (coin: Self)
        ensures
            coin@ == (CoinView { denom: denom@, amount: amount as nat }),
    {
        Coin { denom: denom.to_owned(), amount }
    }
}

/// The fee gate. A free operation (`required` is `None`) passes whatever was
/// sent. A priced one passes when one entry of `sent` has the price's
/// currency and at least its amount; what is sent beyond the price is kept.
pub fn assert_sent_sufficient_coin(sent: &[Coin], required: &Option<Coin>) -> (res: Result<
    (),
    ContractError,
>)
    ensures
        sufficient(sent.deep_view(), required.deep_view()) ==> res is Ok,
        !sufficient(sent.deep_view(), required.deep_view()) ==> fails_with(
            res,
            ErrorView::InsufficientFunds,
        ),
{
    match required {
        None => Ok(()),
        Some(price) => {
            let mut i: usize = 0;
            while i < sent.len()
                invariant
                    i <= sent.len(),
                    *required == Some(*price),
                    forall|j: int| 0 <= j < i ==> !pays(sent.deep_view(), j, price@),
                decreases sent.len() - i,
            {
                if sent[i].denom == price.denom && sent[i].amount >= price.amount {
                    assert(pays(sent.deep_view(), i as int, price@));
                    return Ok(());
                }
                i += 1;
            }
            Err(ContractError::InsufficientFunds)
        },
    }
}

} // verus!
