//! The chain messages that nested calls carry, each with the path under which
//! the chain knows its type.

use vstd::prelude::*;

verus! {

/// A message type that the chain addresses by a path.
pub trait ProtoUrl {
    /// The path of the message type.
    spec fn spec_path(&self) -> Seq<char>;

    fn path(&self) -> (r: &str)
        ensures
            r@ == self.spec_path(),
    ;
}

/// A coin as chain messages write it: the amount as a decimal numeral.
#[derive(Debug, Clone, PartialEq, Eq)]
pub struct ProtoCoin {
    pub denom: String,
    pub amount: String,
}

pub struct ProtoCoinView {
    pub denom: Seq<char>,
    pub amount: Seq<char>,
}

impl View for ProtoCoin {
    type V = ProtoCoinView;

    open spec fn view(&self) -> ProtoCoinView {
        ProtoCoinView { denom: self.denom@, amount: self.amount@ }
    }
}

impl DeepView for ProtoCoin {
    type V = ProtoCoinView;

    open spec fn deep_view(&self) -> ProtoCoinView {
        self@
    }
}

/// One hop of a swap: the pool to trade in and the denomination to take out.
#[derive(Debug, Clone, PartialEq, Eq)]
pub struct SwapAmountInRoute {
    pub pool_id: u64,
    pub token_out_denom: String,
}

pub struct SwapAmountInRouteView {
    pub pool_id: u64,
    pub token_out_denom: Seq<char>,
}

impl View for SwapAmountInRoute {
    type V = SwapAmountInRouteView;

    open spec fn view(&self) -> SwapAmountInRouteView {
        SwapAmountInRouteView { pool_id: self.pool_id, token_out_denom: self.token_out_denom@ }
    }
}

impl DeepView for SwapAmountInRoute {
    type V = SwapAmountInRouteView;

    open spec fn deep_view(&self) -> SwapAmountInRouteView {
        self@
    }
}

/// Swap an exact amount along a route of pools.
#[derive(Debug, Clone, PartialEq, Eq)]
pub struct MsgSwapExactAmountIn {
    pub sender: String,
    pub routes: Vec<SwapAmountInRoute>,
    pub token_in: ProtoCoin,
    pub token_out_min_amount: String,
}

pub struct MsgSwapExactAmountInView {
    pub sender: Seq<char>,
    pub routes: Seq<SwapAmountInRouteView>,
    pub token_in: ProtoCoinView,
    pub token_out_min_amount: Seq<char>,
}

impl View for MsgSwapExactAmountIn {
    type V = MsgSwapExactAmountInView;

    open spec fn view(&self) -> MsgSwapExactAmountInView {
        MsgSwapExactAmountInView {
            sender: self.sender@,
            routes: self.routes.deep_view(),
            token_in: self.token_in@,
            token_out_min_amount: self.token_out_min_amount@,
        }
    }
}

impl ProtoUrl for MsgSwapExactAmountIn {
    open spec fn spec_path(&self) -> Seq<char> {
        "/osmosis.gamm.v1beta1.MsgSwapExactAmountIn"@
    }

    fn path(&self) -> (r: &str) {
        "/osmosis.gamm.v1beta1.MsgSwapExactAmountIn"
    }
}

/// Deposit one denomination into a pool for shares of it.
#[derive(Debug, Clone, PartialEq, Eq)]
pub struct MsgJoinSwapExternAmountIn {
    pub sender: String,
    pub pool_id: u64,
    pub token_in: ProtoCoin,
    pub share_out_min_amount: String,
}

pub struct MsgJoinSwapExternAmountInView {
    pub sender: Seq<char>,
    pub pool_id: u64,
    pub token_in: ProtoCoinView,
    pub share_out_min_amount: Seq<char>,
}

impl View for MsgJoinSwapExternAmountIn {
    type V = MsgJoinSwapExternAmountInView;

    open spec fn view(&self) -> MsgJoinSwapExternAmountInView {
        MsgJoinSwapExternAmountInView {
            sender: self.sender@,
            pool_id: self.pool_id,
            token_in: self.token_in@,
            share_out_min_amount: self.share_out_min_amount@,
        }
    }
}

impl ProtoUrl for MsgJoinSwapExternAmountIn {
    open spec fn spec_path(&self) -> Seq<char> {
        "/osmosis.gamm.v1beta1.MsgJoinSwapExternAmountIn"@
    }

    fn path(&self) -> (r: &str) {
        "/osmosis.gamm.v1beta1.MsgJoinSwapExternAmountIn"
    }
}

/// Give shares of a pool back for one of its denominations.
#[derive(Debug, Clone, PartialEq, Eq)]
pub struct MsgExitSwapShareAmountIn {
    pub sender: String,
    pub pool_id: u64,
    pub token_out_denom: String,
    pub share_in_amount: String,
    pub token_out_min_amount: String,
}

pub struct MsgExitSwapShareAmountInView {
    pub sender: Seq<char>,
    pub pool_id: u64,
    pub token_out_denom: Seq<char>,
    pub share_in_amount: Seq<char>,
    pub token_out_min_amount: Seq<char>,
}

impl View for MsgExitSwapShareAmountIn {
    type V = MsgExitSwapShareAmountInView;

    open spec fn view(&self) -> MsgExitSwapShareAmountInView {
        MsgExitSwapShareAmountInView {
            sender: self.sender@,
            pool_id: self.pool_id,
            token_out_denom: self.token_out_denom@,
            share_in_amount: self.share_in_amount@,
            token_out_min_amount: self.token_out_min_amount@,
        }
    }
}

impl ProtoUrl for MsgExitSwapShareAmountIn {
    open spec fn spec_path(&self) -> Seq<char> {
        "/osmosis.gamm.v1beta1.MsgExitSwapShareAmountIn"@
    }

    fn path(&self) -> (r: &str) {
        "/osmosis.gamm.v1beta1.MsgExitSwapShareAmountIn"
    }
}

/// Lock coins of `owner` for a duration, in seconds.
#[derive(Debug, Clone, PartialEq, Eq)]
pub struct MsgLockTokens {
    pub owner: String,
    pub duration: u64,
    pub coins: Vec<ProtoCoin>,
}

pub struct MsgLockTokensView {
    pub owner: Seq<char>,
    pub duration: u64,
    pub coins: Seq<ProtoCoinView>,
}

impl View for MsgLockTokens {
    type V = MsgLockTokensView;

    open spec fn view(&self) -> MsgLockTokensView {
        MsgLockTokensView {
            owner: self.owner@,
            duration: self.duration,
            coins: self.coins.deep_view(),
        }
    }
}

impl ProtoUrl for MsgLockTokens {
    open spec fn spec_path(&self) -> Seq<char> {
        "/osmosis.lockup.MsgLockTokens"@
    }

    fn path(&self) -> (r: &str) {
        "/osmosis.lockup.MsgLockTokens"
    }
}

/// Begin to unlock the lock `id` of `owner`.
#[derive(Debug, Clone, PartialEq, Eq)]
pub struct MsgBeginUnlocking {
    pub owner: String,
    pub id: u64,
}

pub struct MsgBeginUnlockingView {
    pub owner: Seq<char>,
    pub id: u64,
}

impl View for MsgBeginUnlocking {
    type V = MsgBeginUnlockingView;

    open spec fn view(&self) -> MsgBeginUnlockingView {
        MsgBeginUnlockingView { owner: self.owner@, id: self.id }
    }
}

impl ProtoUrl for MsgBeginUnlocking {
    open spec fn spec_path(&self) -> Seq<char> {
        "/osmosis.lockup.MsgBeginUnlocking"@
    }

    fn path(&self) -> (r: &str) {
        "/osmosis.lockup.MsgBeginUnlocking"
    }
}

} // verus!
