//! The books of the escrow: every change of the ledger is a credit or a
//! debit, every event of the endpoint performs a known list of them, and the
//! balance is what was credited less what was debited.

use vstd::prelude::*;
use crate::continuation::ReplyKind;
use crate::error::ErrorView;
use crate::ibc::{
    do_packet_receive_spec,
    on_packet_failure_spec,
    packet_ack_spec,
    packet_receive_spec,
    parse_voucher_spec,
    reply_spec,
    timeout_reason,
};
use crate::ibc_msg::{AckDataView, Ics20AckView};
use crate::msg::{
    EnvView,
    IbcPacketAckMsgView,
    IbcPacketView,
    ReplyOn,
    ReplyView,
    ResponseView,
    SubMsgResponseView,
};
use crate::state::{balance, credit_spec, debit_spec, restore_spec, Balances, StateView};
use crate::vec_map::PairKey;

verus! {

/// One change of the ledger.
pub enum LedgerOp {
    /// New escrow is recorded.
    Credit { key: PairKey, amount: u128 },
    /// A debit is taken back.
    Restore { key: PairKey, amount: u128 },
    /// An amount leaves the escrow.
    Debit { key: PairKey, amount: u128 },
}

impl LedgerOp {
    /// The ledger after the change, or the failure where it cannot be made.
    pub open spec fn apply(self, balances: Balances) -> Result<Balances, ErrorView> {
        match self {
            LedgerOp::Credit { key, amount } => credit_spec(balances, key, amount),
            LedgerOp::Restore { key, amount } => restore_spec(balances, key, amount),
            LedgerOp::Debit { key, amount } => debit_spec(balances, key, amount),
        }
    }

    /// What the change adds to the escrow under `key`.
    pub open spec fn credit(self, key: PairKey) -> nat {
        match self {
            LedgerOp::Credit { key: k, amount } => if k == key {
                amount as nat
            } else {
                0
            },
            LedgerOp::Restore { key: k, amount } => if k == key {
                amount as nat
            } else {
                0
            },
            LedgerOp::Debit { .. } => 0,
        }
    }

    /// What the change takes from the escrow under `key`.
    pub open spec fn debit(self, key: PairKey) -> nat {
        match self {
            LedgerOp::Debit { key: k, amount } => if k == key {
                amount as nat
            } else {
                0
            },
            _ => 0,
        }
    }
}

/// The ledger after a list of changes, made in order, or the first failure.
pub open spec fn replay(balances: Balances, ops: Seq<LedgerOp>) -> Result<Balances, ErrorView>
    decreases ops.len(),
{
    if ops.len() == 0 {
        Ok(balances)
    } else {
        match replay(balances, ops.drop_last()) {
            Err(e) => Err(e),
            Ok(b) => ops.last().apply(b),
        }
    }
}

/// The sum of what a list of changes adds to the escrow under `key`.
pub open spec fn credits(ops: Seq<LedgerOp>, key: PairKey) -> nat
    decreases ops.len(),
{
    if ops.len() == 0 {
        0
    } else {
        credits(ops.drop_last(), key) + ops.last().credit(key)
    }
}

/// The sum of what a list of changes takes from the escrow under `key`.
pub open spec fn debits(ops: Seq<LedgerOp>, key: PairKey) -> nat
    decreases ops.len(),
{
    if ops.len() == 0 {
        0
    } else {
        debits(ops.drop_last(), key) + ops.last().debit(key)
    }
}

/// A change that can be made moves the balance by its credit less its
/// debit.
pub proof fn lemma_apply_conserves(balances: Balances, op: LedgerOp, key: PairKey)
    requires
        op.apply(balances) is Ok,
    ensures
        balance(op.apply(balances)->Ok_0, key) + op.debit(key) == balance(balances, key)
            + op.credit(key),
{
}

/// Escrow conservation for the ledger: after any list of changes that could
/// all be made, the balance of every channel and denomination is the
/// balance before, plus what was credited, less what was debited.
pub proof fn lemma_replay_conserves(balances: Balances, ops: Seq<LedgerOp>, key: PairKey)
    requires
        replay(balances, ops) is Ok,
    ensures
        balance(replay(balances, ops)->Ok_0, key) + debits(ops, key) == balance(balances, key)
            + credits(ops, key),
    decreases ops.len(),
{
    if ops.len() > 0 {
        lemma_replay_conserves(balances, ops.drop_last(), key);
        lemma_apply_conserves(replay(balances, ops.drop_last())->Ok_0, ops.last(), key);
    }
}

/// A list of changes that could all be made never overdrew the escrow: at
/// every point on the way the changes so far could be made, and what was
/// debited so far is covered by the balance at the start and what was
/// credited so far.
pub proof fn lemma_replay_never_negative(
    balances: Balances,
    ops: Seq<LedgerOp>,
    key: PairKey,
    i: int,
)
    requires
        replay(balances, ops) is Ok,
        0 <= i <= ops.len(),
    ensures
        replay(balances, ops.take(i)) is Ok,
        debits(ops.take(i), key) <= balance(balances, key) + credits(ops.take(i), key),
    decreases ops.len(),
{
    if i == ops.len() {
        assert(ops.take(i) =~= ops);
    } else {
        assert(ops.drop_last().take(i) =~= ops.take(i));
        lemma_replay_never_negative(balances, ops.drop_last(), key, i);
    }
    lemma_replay_conserves(balances, ops.take(i), key);
}

/// Making two lists of changes one after the other is making them as one
/// list.
pub proof fn lemma_replay_concat(balances: Balances, first: Seq<LedgerOp>, second: Seq<LedgerOp>)
    ensures
        replay(balances, first + second) == match replay(balances, first) {
            Err(e) => Err::<Balances, ErrorView>(e),
            Ok(b) => replay(b, second),
        },
    decreases second.len(),
{
    if second.len() == 0 {
        assert(first + second =~= first);
    } else {
        assert((first + second).drop_last() =~= first + second.drop_last());
        lemma_replay_concat(balances, first, second.drop_last());
    }
}

/// The sums of credits and of debits of two lists add up.
pub proof fn lemma_sums_concat(first: Seq<LedgerOp>, second: Seq<LedgerOp>, key: PairKey)
    ensures
        credits(first + second, key) == credits(first, key) + credits(second, key),
        debits(first + second, key) == debits(first, key) + debits(second, key),
    decreases second.len(),
{
    if second.len() == 0 {
        assert(first + second =~= first);
    } else {
        assert((first + second).drop_last() =~= first + second.drop_last());
        lemma_sums_concat(first, second.drop_last(), key);
    }
}

/// What can happen to the endpoint.
pub enum Event {
    /// Funds of this side are put into escrow to be sent over a channel.
    Escrow { key: PairKey, amount: u128 },
    /// A packet arrives.
    Receive { env: EnvView, packet: IbcPacketView },
    /// The host reports how a nested call went.
    Reply { reply: ReplyView },
    /// The other side answers a packet of this side.
    Ack { msg: IbcPacketAckMsgView },
    /// A packet of this side times out.
    Timeout { packet: IbcPacketView },
}

/// The state after an event. An event whose handler fails is undone by the
/// host, and leaves the state as it was.
pub open spec fn step(s: StateView, event: Event) -> StateView {
    match event {
        Event::Escrow { key, amount } => match s.credit(key, amount) {
            Ok(next) => next,
            Err(_) => s,
        },
        Event::Receive { env, packet } => packet_receive_spec(s, env, packet).0,
        Event::Reply { reply } => match reply_spec(s, reply) {
            Ok(next) => next.0,
            Err(_) => s,
        },
        Event::Ack { msg } => match packet_ack_spec(s, msg) {
            Ok(next) => next.0,
            Err(_) => s,
        },
        Event::Timeout { packet } => match on_packet_failure_spec(s, packet, timeout_reason()) {
            Ok(next) => next.0,
            Err(_) => s,
        },
    }
}

/// The changes of the ledger that the settlement of a failed packet of this
/// side makes: its amount leaves the escrow of the channel it left by.
pub open spec fn failure_ops(s: StateView, packet: IbcPacketView, err: Seq<char>) -> Seq<
    LedgerOp,
> {
    if on_packet_failure_spec(s, packet, err) is Ok {
        seq![
            LedgerOp::Debit {
                key: (packet.src.channel_id, packet.data->Ok_0.denom),
                amount: packet.data->Ok_0.amount,
            },
        ]
    } else {
        Seq::empty()
    }
}

/// The changes of the ledger that a reply makes: the amount that a nested
/// call yielded is credited to the channel of its continuation; the amount
/// of a nested call that carries value and failed, or gave no result, is
/// restored.
pub open spec fn reply_ops(s: StateView, reply: ReplyView) -> Seq<LedgerOp> {
    if reply_spec(s, reply) is Err {
        Seq::empty()
    } else {
        let kind = ReplyKind::spec_from_id(reply.id)->0;
        let args = s.reply_args->0;
        let restore = seq![
            LedgerOp::Restore { key: (args.channel, args.denom), amount: args.amount },
        ];
        match reply.result {
            Err(_) => if kind.spec_restores() {
                restore
            } else {
                Seq::empty()
            },
            Ok(out) => if kind.spec_reply_on() == ReplyOn::Error {
                Seq::empty()
            } else if kind.spec_yields_amount() {
                match out.amount {
                    Some(coin) => seq![
                        LedgerOp::Credit { key: (args.channel, coin.denom), amount: coin.amount },
                    ],
                    None => restore,
                }
            } else if kind == ReplyKind::LockToken && out.data is None {
                restore
            } else {
                Seq::empty()
            },
        }
    }
}

/// The changes of the ledger that an event makes, in order.
pub open spec fn event_ops(s: StateView, event: Event) -> Seq<LedgerOp> {
    match event {
        Event::Escrow { key, amount } => if s.credit(key, amount) is Ok {
            seq![LedgerOp::Credit { key, amount }]
        } else {
            Seq::empty()
        },
        Event::Receive { env, packet } => if do_packet_receive_spec(s, env, packet) is Ok {
            seq![
                LedgerOp::Debit {
                    key: (
                        packet.dest.channel_id,
                        parse_voucher_spec(packet.data->Ok_0.denom, packet.src)->Ok_0.denom,
                    ),
                    amount: packet.data->Ok_0.amount,
                },
            ]
        } else {
            Seq::empty()
        },
        Event::Reply { reply } => reply_ops(s, reply),
        Event::Ack { msg } => match msg.acknowledgement {
            Ok(Ics20AckView::Error(err)) => failure_ops(s, msg.original_packet, err),
            _ => Seq::empty(),
        },
        Event::Timeout { packet } => failure_ops(s, packet, timeout_reason()),
    }
}

/// The ledger after an event is the ledger before it with the changes of
/// the event made, and all of them can be made.
pub proof fn lemma_step_ledger(s: StateView, event: Event)
    ensures
        replay(s.balances, event_ops(s, event)) == Ok::<Balances, ErrorView>(
            step(s, event).balances,
        ),
{
    let ops = event_ops(s, event);
    reveal_with_fuel(replay, 2);
    if ops.len() == 1 {
        assert(ops.drop_last() =~= Seq::<LedgerOp>::empty());
        assert(ops.last() == ops[0]);
    }
}

/// The state after a list of events, taken in order.
pub open spec fn run(s: StateView, events: Seq<Event>) -> StateView
    decreases events.len(),
{
    if events.len() == 0 {
        s
    } else {
        step(run(s, events.drop_last()), events.last())
    }
}

/// The changes of the ledger that a list of events makes, in order.
pub open spec fn run_ops(s: StateView, events: Seq<Event>) -> Seq<LedgerOp>
    decreases events.len(),
{
    if events.len() == 0 {
        Seq::empty()
    } else {
        run_ops(s, events.drop_last()) + event_ops(run(s, events.drop_last()), events.last())
    }
}

/// The ledger after a list of events is the ledger at the start with the
/// changes of the events made in order, and all of them can be made.
pub proof fn lemma_run_ledger(s: StateView, events: Seq<Event>)
    ensures
        replay(s.balances, run_ops(s, events)) == Ok::<Balances, ErrorView>(
            run(s, events).balances,
        ),
    decreases events.len(),
{
    if events.len() > 0 {
        let before = events.drop_last();
        lemma_run_ledger(s, before);
        lemma_step_ledger(run(s, before), events.last());
        lemma_replay_concat(
            s.balances,
            run_ops(s, before),
            event_ops(run(s, before), events.last()),
        );
    }
}

/// Escrow conservation: after any list of events, the balance of every
/// channel and denomination is the balance at the start, plus what the
/// events credited, less what they debited; and what they debited is
/// covered, so that no balance is ever negative.
pub proof fn lemma_escrow_conservation(s: StateView, events: Seq<Event>, key: PairKey)
    ensures
        balance(run(s, events).balances, key) + debits(run_ops(s, events), key) == balance(
            s.balances,
            key,
        ) + credits(run_ops(s, events), key),
        debits(run_ops(s, events), key) <= balance(s.balances, key) + credits(
            run_ops(s, events),
            key,
        ),
{
    lemma_run_ledger(s, events);
    lemma_replay_conserves(s.balances, run_ops(s, events), key);
}

/// The state on the way: after the first `i` events of a list the endpoint
/// is in the state that those events alone lead to, and the changes made so
/// far are the first of the changes of the whole list.
pub proof fn lemma_run_prefix(s: StateView, events: Seq<Event>, i: int)
    requires
        0 <= i <= events.len(),
    ensures
        run_ops(s, events.take(i)).len() <= run_ops(s, events).len(),
        run_ops(s, events.take(i)) == run_ops(s, events).take(
            run_ops(s, events.take(i)).len() as int,
        ),
    decreases events.len(),
{
    if i == events.len() {
        assert(events.take(i) =~= events);
        assert(run_ops(s, events).take(run_ops(s, events).len() as int) =~= run_ops(s, events));
    } else {
        let before = events.drop_last();
        assert(before.take(i) =~= events.take(i));
        lemma_run_prefix(s, before, i);
        let n = run_ops(s, events.take(i)).len() as int;
        assert(run_ops(s, events).take(n) =~= run_ops(s, before).take(n));
    }
}

/// No funds are stranded by a nested call that fails: when a packet was
/// accepted and the nested call it issued is then reported as failed, the
/// ledger is again what it was before the packet, the slot is empty, and
/// the acknowledgement becomes the failure's text.
pub proof fn lemma_failed_call_restores_escrow(
    s: StateView,
    env: EnvView,
    packet: IbcPacketView,
    err: Seq<char>,
)
    requires
        do_packet_receive_spec(s, env, packet) is Ok,
    ensures
        ({
            let (received, resp) = do_packet_receive_spec(s, env, packet)->Ok_0;
            let reply = ReplyView { id: resp.messages[0].id, result: Err(err) };
            &&& reply_spec(received, reply) is Ok
            &&& reply_spec(received, reply)->Ok_0.0.balances == s.balances
            &&& reply_spec(received, reply)->Ok_0.0.reply_args is None
            &&& reply_spec(received, reply)->Ok_0.1 == ResponseView::with_data(
                Ics20AckView::Error(err),
            )
        }),
{
    let (received, resp) = do_packet_receive_spec(s, env, packet)->Ok_0;
    let reply = ReplyView { id: resp.messages[0].id, result: Err(err) };
    assert(reply_spec(received, reply) is Ok);
    assert(reply_spec(received, reply)->Ok_0.0.balances =~= s.balances);
}

/// No funds are stranded by a settlement that fails: when a failed packet
/// of this side was settled and the payout to its sender is then reported
/// as failed, the ledger is again what it was before the settlement.
pub proof fn lemma_failed_settlement_restores_escrow(
    s: StateView,
    packet: IbcPacketView,
    reason: Seq<char>,
    err: Seq<char>,
)
    requires
        on_packet_failure_spec(s, packet, reason) is Ok,
    ensures
        ({
            let (settled, resp) = on_packet_failure_spec(s, packet, reason)->Ok_0;
            let reply = ReplyView { id: resp.messages[0].id, result: Err(err) };
            &&& resp.messages.len() == 1
            &&& reply_spec(settled, reply) is Ok
            &&& reply_spec(settled, reply)->Ok_0.0.balances == s.balances
            &&& reply_spec(settled, reply)->Ok_0.1 == ResponseView::with_data(
                Ics20AckView::Error(err),
            )
        }),
{
    let (settled, resp) = on_packet_failure_spec(s, packet, reason)->Ok_0;
    let reply = ReplyView { id: resp.messages[0].id, result: Err(err) };
    assert(reply_spec(settled, reply) is Ok);
    assert(reply_spec(settled, reply)->Ok_0.0.balances =~= s.balances);
}

/// What a nested call yields is escrowed for the channel of its packet:
/// when a packet was accepted whose action yields an amount, and the nested
/// call is then reported to have yielded one, the escrow of the packet's
/// channel in the yielded denomination grows by the yielded amount, every
/// other balance stays, the slot is empty, and the acknowledgement carries
/// the yielded amount.
pub proof fn lemma_yield_is_escrowed(
    s: StateView,
    env: EnvView,
    packet: IbcPacketView,
    out: SubMsgResponseView,
    key: PairKey,
)
    requires
        do_packet_receive_spec(s, env, packet) is Ok,
        out.amount is Some,
        ({
            let (received, resp) = do_packet_receive_spec(s, env, packet)->Ok_0;
            let reply = ReplyView { id: resp.messages[0].id, result: Ok(out) };
            &&& ReplyKind::spec_from_id(reply.id) is Some
            &&& ReplyKind::spec_from_id(reply.id)->0.spec_yields_amount()
            &&& reply_spec(received, reply) is Ok
        }),
    ensures
        ({
            let (received, resp) = do_packet_receive_spec(s, env, packet)->Ok_0;
            let reply = ReplyView { id: resp.messages[0].id, result: Ok(out) };
            let (settled, answer) = reply_spec(received, reply)->Ok_0;
            let coin = out.amount->0;
            &&& balance(settled.balances, key) == balance(received.balances, key) + (if key == (
                packet.dest.channel_id,
                coin.denom,
            ) {
                coin.amount as nat
            } else {
                0
            })
            &&& settled.reply_args is None
            &&& answer == ResponseView::with_data(
                Ics20AckView::Result(AckDataView::Amount(coin)),
            )
        }),
{
}

/// At most one continuation is pending: every event issues at most one
/// nested call, a reply issues none, and where a packet or a settlement
/// issues one, the slot holds the context of exactly that call.
pub proof fn lemma_one_nested_call(s: StateView, env: EnvView, packet: IbcPacketView, reply: ReplyView)
    ensures
        packet_receive_spec(s, env, packet).1.messages.len() <= 1,
        packet_receive_spec(s, env, packet).1.messages.len() == 1 ==> packet_receive_spec(
            s,
            env,
            packet,
        ).0.reply_args is Some,
        reply_spec(s, reply) is Ok ==> reply_spec(s, reply)->Ok_0.1.messages.len() == 0,
        forall|reason: Seq<char>| #[trigger]
            on_packet_failure_spec(s, packet, reason) is Ok ==> {
                let (settled, resp) = on_packet_failure_spec(s, packet, reason)->Ok_0;
                resp.messages.len() == 1 && settled.reply_args is Some
            },
{
}

} // verus!
