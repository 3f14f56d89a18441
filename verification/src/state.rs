//! The state of the endpoint: the channels it knows, the escrow ledger, the
//! slot of the pending continuation and the lockup accounts.

use vstd::prelude::*;
use crate::error::{ContractError, ErrorView};
use crate::msg::{IbcEndpoint, IbcEndpointView};
use crate::vec_map::{Pair, PairKey, VecMap};

verus! {

/// What the endpoint remembers of its own set-up.
#[derive(Debug, Clone, Copy, PartialEq, Eq, Structural)]
pub struct Config {
    /// Whether the endpoint's one channel has been connected.
    pub init_channel: bool,
}

/// A channel as it was connected.
#[derive(Debug, Clone, PartialEq, Eq)]
pub struct ChannelInfo {
    pub id: String,
    pub counterparty_endpoint: IbcEndpoint,
    pub connection_id: String,
}

pub struct ChannelInfoView {
    pub id: Seq<char>,
    pub counterparty_endpoint: IbcEndpointView,
    pub connection_id: Seq<char>,
}

impl View for ChannelInfo {
    type V = ChannelInfoView;

    open spec fn view(&self) -> ChannelInfoView {
        ChannelInfoView {
            id: self.id@,
            counterparty_endpoint: self.counterparty_endpoint@,
            connection_id: self.connection_id@,
        }
    }
}

/// The two counters that the ledger keeps for a channel and denomination.
#[derive(Debug, Clone, Copy, PartialEq, Eq, Structural)]
pub struct ChannelState {
    /// What the endpoint holds in escrow now.
    pub outstanding: u128,
    /// What was ever put into escrow.
    pub total_sent: u128,
}

impl View for ChannelState {
    type V = ChannelState;

    open spec fn view(&self) -> ChannelState {
        *self
    }
}

/// The ledger as a mathematical map from channel and denomination to the
/// counters; a pair without an entry holds nothing.
pub type Balances = Map<PairKey, ChannelState>;

/// The counters of a channel and denomination.
pub open spec fn counters(balances: Balances, key: PairKey) -> ChannelState {
    if balances.contains_key(key) {
        balances[key]
    } else {
        ChannelState { outstanding: 0, total_sent: 0 }
    }
}

/// What the endpoint holds in escrow for a channel and denomination.
pub open spec fn balance(balances: Balances, key: PairKey) -> nat {
    counters(balances, key).outstanding as nat
}

/// The ledger after new escrow of `amount` was recorded: both counters grow
/// by it. It fails where a counter would pass the largest amount; an amount
/// of zero changes nothing.
pub open spec fn credit_spec(balances: Balances, key: PairKey, amount: u128) -> Result<
    Balances,
    ErrorView,
> {
    let c = counters(balances, key);
    if amount == 0 {
        Ok(balances)
    } else if c.outstanding + amount > u128::MAX || c.total_sent + amount > u128::MAX {
        Err(ErrorView::Overflow)
    } else {
        Ok(
            balances.insert(
                key,
                ChannelState {
                    outstanding: (c.outstanding + amount) as u128,
                    total_sent: (c.total_sent + amount) as u128,
                },
            ),
        )
    }
}

/// The ledger after a debit of `amount` was taken back: the escrow grows by
/// it, and what was ever sent stays.
pub open spec fn restore_spec(balances: Balances, key: PairKey, amount: u128) -> Result<
    Balances,
    ErrorView,
> {
    let c = counters(balances, key);
    if amount == 0 {
        Ok(balances)
    } else if c.outstanding + amount > u128::MAX {
        Err(ErrorView::Overflow)
    } else {
        Ok(
            balances.insert(
                key,
                ChannelState {
                    outstanding: (c.outstanding + amount) as u128,
                    total_sent: c.total_sent,
                },
            ),
        )
    }
}

/// The ledger after `amount` left the escrow. It fails, and nothing changes,
/// where the escrow holds less.
pub open spec fn debit_spec(balances: Balances, key: PairKey, amount: u128) -> Result<
    Balances,
    ErrorView,
> {
    let c = counters(balances, key);
    if c.outstanding < amount {
        Err(ErrorView::InsufficientFunds)
    } else if amount == 0 {
        Ok(balances)
    } else {
        Ok(
            balances.insert(
                key,
                ChannelState {
                    outstanding: (c.outstanding - amount) as u128,
                    total_sent: c.total_sent,
                },
            ),
        )
    }
}

/// The context of the nested call that is under way: whose funds it moves,
/// and how much of what.
#[derive(Debug, Clone, PartialEq, Eq)]
pub struct ReplyArgs {
    pub channel: String,
    pub denom: String,
    pub amount: u128,
    pub sender: String,
}

pub struct ReplyArgsView {
    pub channel: Seq<char>,
    pub denom: Seq<char>,
    pub amount: u128,
    pub sender: Seq<char>,
}

impl View for ReplyArgs {
    type V = ReplyArgsView;

    open spec fn view(&self) -> ReplyArgsView {
        ReplyArgsView {
            channel: self.channel@,
            denom: self.denom@,
            amount: self.amount,
            sender: self.sender@,
        }
    }
}

impl DeepView for ReplyArgs {
    type V = ReplyArgsView;

    open spec fn deep_view(&self) -> ReplyArgsView {
        self@
    }
}

/// All that the endpoint keeps between two calls of its handlers.
#[derive(Debug)]
pub struct State {
    pub config: Config,
    /// The channels that were connected, by their id.
    pub channels: VecMap<String, ChannelInfo>,
    /// The escrow ledger, by channel and denomination.
    pub balances: VecMap<Pair, ChannelState>,
    /// The slot of the pending continuation.
    pub reply_args: Option<ReplyArgs>,
    /// The lockup accounts, by channel and sender.
    pub lockups: VecMap<Pair, String>,
}

pub struct StateView {
    pub config: Config,
    pub channels: Map<Seq<char>, ChannelInfoView>,
    pub balances: Balances,
    pub reply_args: Option<ReplyArgsView>,
    pub lockups: Map<PairKey, Seq<char>>,
}

impl View for State {
    type V = StateView;

    open spec fn view(&self) -> StateView {
        StateView {
            config: self.config,
            channels: self.channels@,
            balances: self.balances@,
            reply_args: self.reply_args.deep_view(),
            lockups: self.lockups@,
        }
    }
}

impl StateView {
    /// The state of an endpoint that has seen nothing yet.
    pub open spec fn init() -> StateView {
        StateView {
            config: Config { init_channel: false },
            channels: Map::empty(),
            balances: Map::empty(),
            reply_args: None,
            lockups: Map::empty(),
        }
    }

    /// The state with another ledger.
    pub open spec fn with_balances(self, balances: Balances) -> StateView {
        StateView { balances, ..self }
    }

    /// The state after new escrow was recorded.
    pub open spec fn credit(self, key: PairKey, amount: u128) -> Result<StateView, ErrorView> {
        match credit_spec(self.balances, key, amount) {
            Ok(b) => Ok(self.with_balances(b)),
            Err(e) => Err(e),
        }
    }

    /// The state after an amount left the escrow.
    pub open spec fn debit(self, key: PairKey, amount: u128) -> Result<StateView, ErrorView> {
        match debit_spec(self.balances, key, amount) {
            Ok(b) => Ok(self.with_balances(b)),
            Err(e) => Err(e),
        }
    }

    /// The state after the pending continuation was consumed and its debit
    /// taken back. It fails where no continuation is recorded.
    pub open spec fn restore_reply(self) -> Result<StateView, ErrorView> {
        match self.reply_args {
            None => Err(ErrorView::NoReplyArgs),
            Some(args) => match restore_spec(
                self.balances,
                (args.channel, args.denom),
                args.amount,
            ) {
                Ok(b) => Ok(StateView { balances: b, reply_args: None, ..self }),
                Err(e) => Err(e),
            },
        }
    }
}

/// Whether a call that may fail went as the transition function says: on
/// success the state is the one it gives, on failure the failure is the one
/// it gives and the state is as before.
pub open spec fn steps_to(
    r: Result<(), ContractError>,
    before: StateView,
    after: StateView,
    expected: Result<StateView, ErrorView>,
) -> bool {
    match r {
        Ok(()) => expected == Ok::<StateView, ErrorView>(after),
        Err(e) => expected == Err::<StateView, ErrorView>(e@) && after == before,
    }
}

impl State {
    /// The state of an endpoint that has seen nothing yet: no channel is
    /// connected, the ledger, the slot and the lockup accounts are empty, and
    /// none of the three maps lists an entry.
    pub fn new() -> (r: State)
        ensures
            r@ == StateView::init(),
            r.channels.entries() == Seq::<(Seq<char>, ChannelInfoView)>::empty(),
            r.balances.entries() == Seq::<(PairKey, ChannelState)>::empty(),
            r.lockups.entries() == Seq::<(PairKey, Seq<char>)>::empty(),
    {
        State {
            config: Config { init_channel: false },
            channels: VecMap::new(),
            balances: VecMap::new(),
            reply_args: None,
            lockups: VecMap::new(),
        }
    }

    /// The counters of a channel and denomination.
    pub fn channel_state(&self, channel: &String, denom: &String) -> (r: ChannelState)
        ensures
            r == counters(self@.balances, (channel@, denom@)),
    {
        match self.balances.get(&Pair::of(channel, denom)) {
            Some(c) => *c,
            None => ChannelState { outstanding: 0, total_sent: 0 },
        }
    }

    /// Records the context of the nested call that is about to be issued, in
    /// place of whatever the slot held.
    pub fn save_reply_args(&mut self, args: ReplyArgs)
        ensures
            final(self)@ == (StateView { reply_args: Some(args@), ..old(self)@ }),
    {
        self.reply_args = Some(args);
    }

    /// Takes the pending continuation out of its slot. It fails, and nothing
    /// changes, where the slot is empty.
    pub fn take_reply_args(&mut self) -> (r: Result<ReplyArgs, ContractError>)
        ensures
            match r {
                Ok(args) => {
                    &&& old(self)@.reply_args == Some(args@)
                    &&& final(self)@ == (StateView { reply_args: None, ..old(self)@ })
                },
                Err(e) => {
                    &&& old(self)@.reply_args is None
                    &&& e@ == ErrorView::NoReplyArgs
                    &&& final(self)@ == old(self)@
                },
            },
    {
        match self.reply_args.take() {
            Some(args) => Ok(args),
            None => Err(ContractError::NoReplyArgs),
        }
    }
}

/// Records new escrow of `amount` for a channel and denomination.
pub fn increase_channel_balance(
    state: &mut State,
    channel: &String,
    denom: &String,
    amount: u128,
) -> (r: Result<(), ContractError>)
    ensures
        steps_to(r, old(state)@, final(state)@, old(state)@.credit((channel@, denom@), amount)),
{
    let c = state.channel_state(channel, denom);
    if amount == 0 {
        return Ok(());
    }
    if amount > u128::MAX - c.outstanding || amount > u128::MAX - c.total_sent {
        return Err(ContractError::Overflow);
    }
    state.balances.insert(
        Pair::of(channel, denom),
        ChannelState { outstanding: c.outstanding + amount, total_sent: c.total_sent + amount },
    );
    Ok(())
}

/// Takes `amount` out of the escrow of a channel and denomination. It fails,
/// and nothing changes, where the escrow holds less.
pub fn reduce_channel_balance(
    state: &mut State,
    channel: &String,
    denom: &String,
    amount: u128,
) -> (r: Result<(), ContractError>)
    ensures
        steps_to(r, old(state)@, final(state)@, old(state)@.debit((channel@, denom@), amount)),
{
    let c = state.channel_state(channel, denom);
    if c.outstanding < amount {
        return Err(ContractError::InsufficientFunds);
    }
    if amount == 0 {
        return Ok(());
    }
    state.balances.insert(
        Pair::of(channel, denom),
        ChannelState { outstanding: c.outstanding - amount, total_sent: c.total_sent },
    );
    Ok(())
}

/// Consumes the pending continuation and puts its amount back into the
/// escrow it was taken from.
pub fn restore_balance_reply(state: &mut State) -> (r: Result<(), ContractError>)
    ensures
        steps_to(r, old(state)@, final(state)@, old(state)@.restore_reply()),
{
    let (key, amount) = match &state.reply_args {
        None => {
            return Err(ContractError::NoReplyArgs);
        },
        Some(args) => (Pair::of(&args.channel, &args.denom), args.amount),
    };
    let c = state.channel_state(&key.0, &key.1);
    if amount > 0 {
        if amount > u128::MAX - c.outstanding {
            return Err(ContractError::Overflow);
        }
        state.balances.insert(
            key,
            ChannelState { outstanding: c.outstanding + amount, total_sent: c.total_sent },
        );
    }
    state.reply_args = None;
    Ok(())
}

} // verus!
