//! Amounts of native coins and of tokens of a token contract.

use vstd::prelude::*;
use vstd::string::*;
use crate::text::{chars_of, has_prefix, starts_with, substring};

verus! {

/// An amount of a native denomination.
#[derive(Debug, Clone, PartialEq, Eq)]
pub struct Coin {
    pub denom: String,
    pub amount: u128,
}

pub struct CoinView {
    pub denom: Seq<char>,
    pub amount: u128,
}

impl View for Coin {
    type V = CoinView;

    open spec fn view(&self) -> CoinView {
        CoinView { denom: self.denom@, amount: self.amount }
    }
}

impl DeepView for Coin {
    type V = CoinView;

    open spec fn deep_view(&self) -> CoinView {
        self@
    }
}

/// An amount of the token that the contract at `address` keeps.
#[derive(Debug, Clone, PartialEq, Eq)]
pub struct Cw20Coin {
    pub address: String,
    pub amount: u128,
}

pub struct Cw20CoinView {
    pub address: Seq<char>,
    pub amount: u128,
}

impl View for Cw20Coin {
    type V = Cw20CoinView;

    open spec fn view(&self) -> Cw20CoinView {
        Cw20CoinView { address: self.address@, amount: self.amount }
    }
}

/// An amount of either kind.
#[derive(Debug, Clone, PartialEq, Eq)]
pub enum Amount {
    Native(Coin),
    Cw20(Cw20Coin),
}

pub enum AmountView {
    Native(CoinView),
    Cw20(Cw20CoinView),
}

impl View for Amount {
    type V = AmountView;

    open spec fn view(&self) -> AmountView {
        match self {
            Amount::Native(c) => AmountView::Native(c@),
            Amount::Cw20(c) => AmountView::Cw20(c@),
        }
    }
}

impl DeepView for Amount {
    type V = AmountView;

    open spec fn deep_view(&self) -> AmountView {
        self@
    }
}

/// The prefix by which a denomination names a token contract.
pub open spec fn cw20_prefix() -> Seq<char> {
    "cw20:"@
}

impl AmountView {
    /// The amount that a denomination and a number stand for: behind the
    /// prefix `cw20:` the denomination is the address of a token contract,
    /// otherwise it is native.
    pub open spec fn from_parts(denom: Seq<char>, amount: u128) -> AmountView {
        if has_prefix(denom, cw20_prefix()) {
            AmountView::Cw20(
                Cw20CoinView { address: denom.skip(cw20_prefix().len() as int), amount },
            )
        } else {
            AmountView::Native(CoinView { denom, amount })
        }
    }

    /// The denomination that `from_parts` reads the amount from.
    pub open spec fn denom(self) -> Seq<char> {
        match self {
            AmountView::Native(c) => c.denom,
            AmountView::Cw20(c) => cw20_prefix() + c.address,
        }
    }

    pub open spec fn amount(self) -> u128 {
        match self {
            AmountView::Native(c) => c.amount,
            AmountView::Cw20(c) => c.amount,
        }
    }
}

/// Taking an amount apart gives back the denomination and the number it was
/// made from.
pub proof fn lemma_from_parts_round_trip(denom: Seq<char>, amount: u128)
    ensures
        AmountView::from_parts(denom, amount).denom() == denom,
        AmountView::from_parts(denom, amount).amount() == amount,
{
    let p = cw20_prefix();
    if has_prefix(denom, p) {
        assert(p + denom.skip(p.len() as int) =~= denom);
    }
}

impl Amount {
    /// The amount that a denomination and a number stand for.
    pub fn from_parts(denom: String, amount: u128) -> (r: Amount)
        ensures
            r@ == AmountView::from_parts(denom@, amount),
    {
        let chars = chars_of(denom.as_str());
        if starts_with(&chars, "cw20:") {
            proof {
                reveal_strlit("cw20:");
            }
            let address = substring(denom.as_str(), 5, chars.len());
            assert(address@ =~= denom@.skip(5));
            Amount::Cw20(Cw20Coin { address, amount })
        } else {
            Amount::Native(Coin { denom, amount })
        }
    }

    /// An amount of a token contract.
    pub fn cw20(amount: u128, addr: &str) -> (r: Amount)
        ensures
            r@ == AmountView::Cw20(Cw20CoinView { address: addr@, amount }),
    {
        Amount::Cw20(Cw20Coin { address: String::from_str(addr), amount })
    }

    /// An amount of a native denomination.
    pub fn native(amount: u128, denom: &str) -> (r: Amount)
        ensures
            r@ == AmountView::Native(CoinView { denom: denom@, amount }),
    {
        Amount::Native(Coin { denom: String::from_str(denom), amount })
    }

    /// The denomination, with the prefix `cw20:` for a token contract.
    pub fn denom(&self) -> (r: String)
        ensures
            r@ == self@.denom(),
    {
        match self {
            Amount::Native(c) => c.denom.clone(),
            Amount::Cw20(c) => String::from_str("cw20:").concat(c.address.as_str()),
        }
    }

    pub fn amount(&self) -> (r: u128)
        ensures
            r == self@.amount(),
    {
        match self {
            Amount::Native(c) => c.amount,
            Amount::Cw20(c) => c.amount,
        }
    }

    /// Whether the amount is zero.
    pub fn is_empty(&self) -> (r: bool)
        ensures
            r == (self@.amount() == 0),
    {
        self.amount() == 0
    }
}

} // verus!
