//! What an outside caller may ask of the endpoint.

use vstd::prelude::*;
use crate::amount::{Amount, AmountView};
use crate::error::{ContractError, ErrorView};
use crate::state::{ChannelInfo, ChannelInfoView, ChannelState, State};
use crate::vec_map::PairKey;

verus! {

/// A channel with what the endpoint holds and has ever held for it.
#[derive(Debug, Clone, PartialEq, Eq)]
pub struct ChannelResponse {
    /// The channel as it was connected.
    pub info: ChannelInfo,
    /// What is in escrow now, one amount for each denomination.
    pub balances: Vec<Amount>,
    /// What was ever put into escrow, one amount for each denomination.
    pub total_sent: Vec<Amount>,
}

pub struct ChannelResponseView {
    pub info: ChannelInfoView,
    pub balances: Seq<AmountView>,
    pub total_sent: Seq<AmountView>,
}

impl View for ChannelResponse {
    type V = ChannelResponseView;

    open spec fn view(&self) -> ChannelResponseView {
        ChannelResponseView {
            info: self.info@,
            balances: self.balances.deep_view(),
            total_sent: self.total_sent.deep_view(),
        }
    }
}

/// The escrow of a channel, one amount for each entry of the ledger that
/// belongs to it, in the order of the entries.
pub open spec fn channel_balances(entries: Seq<(PairKey, ChannelState)>, id: Seq<char>) -> Seq<
    AmountView,
>
    decreases entries.len(),
{
    if entries.len() == 0 {
        Seq::empty()
    } else {
        let rest = channel_balances(entries.drop_last(), id);
        let (key, counters) = entries.last();
        if key.0 == id {
            rest.push(AmountView::from_parts(key.1, counters.outstanding))
        } else {
            rest
        }
    }
}

/// What was ever put into escrow for a channel, one amount for each entry
/// of the ledger that belongs to it, in the order of the entries.
pub open spec fn channel_total_sent(entries: Seq<(PairKey, ChannelState)>, id: Seq<char>) -> Seq<
    AmountView,
>
    decreases entries.len(),
{
    if entries.len() == 0 {
        Seq::empty()
    } else {
        let rest = channel_total_sent(entries.drop_last(), id);
        let (key, counters) = entries.last();
        if key.0 == id {
            rest.push(AmountView::from_parts(key.1, counters.total_sent))
        } else {
            rest
        }
    }
}

/// The channel of an id with its amounts, for every denomination that the
/// ledger knows of it, in the order in which the denominations came into
/// the ledger. It fails where no channel of that id was connected.
pub fn query_channel(state: &State, id: String) -> (r: Result<ChannelResponse, ContractError>)
    ensures
        match r {
            Ok(resp) => {
                &&& state@.channels.contains_key(id@)
                &&& resp@.info == state@.channels[id@]
                &&& resp@.balances == channel_balances(state.balances.entries(), id@)
                &&& resp@.total_sent == channel_total_sent(state.balances.entries(), id@)
            },
            Err(e) => !state@.channels.contains_key(id@) && e@ == (ErrorView::NoSuchChannel {
                channel: id@,
            }),
        },
{
    let info = match state.channels.get(&id) {
        Some(info) => ChannelInfo {
            id: info.id.clone(),
            counterparty_endpoint: crate::msg::IbcEndpoint {
                port_id: info.counterparty_endpoint.port_id.clone(),
                channel_id: info.counterparty_endpoint.channel_id.clone(),
            },
            connection_id: info.connection_id.clone(),
        },
        None => {
            return Err(ContractError::NoSuchChannel { channel: id });
        },
    };
    let mut balances: Vec<Amount> = Vec::new();
    let mut total_sent: Vec<Amount> = Vec::new();
    let n = state.balances.len();
    let ghost entries = state.balances.entries();
    let mut i: usize = 0;
    while i < n
        invariant
            i <= n,
            n == entries.len(),
            entries == state.balances.entries(),
            balances.deep_view() == channel_balances(entries.take(i as int), id@),
            total_sent.deep_view() == channel_total_sent(entries.take(i as int), id@),
        decreases n - i,
    {
        let (key, counters) = state.balances.entry(i);
        proof {
            assert(entries.take(i + 1).drop_last() =~= entries.take(i as int));
            assert(entries.take(i + 1).last() == entries[i as int]);
        }
        if key.0 == id {
            let ghost b = balances.deep_view();
            let ghost t = total_sent.deep_view();
            let held = Amount::from_parts(key.1.clone(), counters.outstanding);
            let sent = Amount::from_parts(key.1.clone(), counters.total_sent);
            balances.push(held);
            total_sent.push(sent);
            assert(balances.deep_view() =~= b.push(held@));
            assert(total_sent.deep_view() =~= t.push(sent@));
        }
        i += 1;
    }
    assert(entries.take(n as int) =~= entries);
    Ok(ChannelResponse { info, balances, total_sent })
}

} // verus!
