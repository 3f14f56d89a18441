//! The action that a transfer carries: for each one the nested call that
//! runs it, the checks that come before, and the answer that goes back at
//! once.

use vstd::prelude::*;
use vstd::string::*;
use crate::amount::{Amount, AmountView, Coin, CoinView};
use crate::continuation::ReplyKind;
use crate::decimal::{decimal, lemma_decimal_injective, parse_u64, u128_to_string};
use crate::error::{ContractError, ErrorView};
use crate::ibc::{ack_success, ack_success_spec};
use crate::ibc_msg::{
    Ics20Packet,
    Ics20PacketView,
    OsmoPacket,
    OsmoPacketView,
    SwapPacket,
    SwapPacketView,
};
use crate::msg::{
    attr,
    attr_view,
    Attribute,
    AttributeView,
    CosmosMsg,
    CosmosMsgView,
    Env,
    EnvView,
    IbcReceiveResponse,
    IbcReceiveResponseView,
    SubMsg,
    SubMsgView,
};
use crate::payout::{send_amount, send_amount_spec};
use crate::proto::{
    MsgExitSwapShareAmountIn,
    MsgExitSwapShareAmountInView,
    MsgJoinSwapExternAmountIn,
    MsgJoinSwapExternAmountInView,
    MsgSwapExactAmountIn,
    MsgSwapExactAmountInView,
    ProtoCoin,
    ProtoCoinView,
};
use crate::text::{chars_of, starts_with};
use crate::vec_map::{Pair, PairKey, VecMap};

verus! {

/// The lockup accounts as a mathematical map from channel and sender to the
/// account's address.
pub type Lockups = Map<PairKey, Seq<char>>;

/// The text before the pool's number in the denomination of a pool share.
pub open spec fn pool_share_prefix() -> Seq<char> {
    "gamm-pool-"@
}

/// The denomination of the shares of a pool.
pub open spec fn pool_share_denom(pool_id: u64) -> Seq<char> {
    pool_share_prefix() + decimal(pool_id as nat)
}

/// The pool whose shares a denomination names, if it names any.
pub open spec fn pool_share_id(denom: Seq<char>) -> Option<u64> {
    if exists|id: u64| denom == pool_share_denom(id) {
        Some(choose|id: u64| denom == pool_share_denom(id))
    } else {
        None
    }
}

/// The shares of different pools have different denominations, so the
/// denomination of a pool's shares names that pool.
pub proof fn lemma_pool_share_id(pool_id: u64)
    ensures
        pool_share_id(pool_share_denom(pool_id)) == Some(pool_id),
{
    let denom = pool_share_denom(pool_id);
    let other = choose|id: u64| denom == pool_share_denom(id);
    let p = pool_share_prefix();
    assert(denom.skip(p.len() as int) =~= decimal(pool_id as nat));
    assert(pool_share_denom(other).skip(p.len() as int) =~= decimal(other as nat));
    lemma_decimal_injective(pool_id as nat, other as nat);
}

/// Reads a denomination as that of a pool's shares.
pub fn parse_pool_share(denom: &String) -> (r: Option<u64>)
    ensures
        r == pool_share_id(denom@),
{
    let chars = chars_of(denom.as_str());
    let ghost p = pool_share_prefix();
    proof {
        reveal_strlit("gamm-pool-");
    }
    if !starts_with(&chars, "gamm-pool-") {
        proof {
            assert forall|id: u64| denom@ != pool_share_denom(id) by {
                assert(pool_share_denom(id).take(p.len() as int) =~= p);
            }
        }
        return None;
    }
    let found = parse_u64(&chars, 10);
    proof {
        let rest = denom@.skip(10);
        assert(p + rest =~= denom@);
        assert forall|id: u64| denom@ == pool_share_denom(id) implies rest == decimal(
            id as nat,
        ) by {
            assert(pool_share_denom(id).skip(10) =~= decimal(id as nat));
        }
        if let Some(id) = found {
            lemma_pool_share_id(id);
        }
    }
    found
}

/// The event of an action that was accepted.
pub open spec fn action_attrs(
    action: Seq<char>,
    sender: Seq<char>,
    denom: Seq<char>,
    amount: u128,
) -> Seq<AttributeView> {
    seq![
        attr_view("action"@, action),
        attr_view("sender"@, sender),
        attr_view("denom"@, denom),
        attr_view("amount"@, decimal(amount as nat)),
        attr_view("success"@, "true"@),
    ]
}

/// The event of a plain transfer that was accepted.
pub open spec fn receive_attrs(
    sender: Seq<char>,
    receiver: Seq<char>,
    denom: Seq<char>,
    amount: u128,
) -> Seq<AttributeView> {
    seq![
        attr_view("action"@, "receive"@),
        attr_view("sender"@, sender),
        attr_view("receiver"@, receiver),
        attr_view("denom"@, denom),
        attr_view("amount"@, decimal(amount as nat)),
        attr_view("success"@, "true"@),
    ]
}

fn action_attributes(action: &str, sender: String, denom: String, amount: u128) -> (r: Vec<
    Attribute,
>)
    ensures
        r.deep_view() == action_attrs(action@, sender@, denom@, amount),
{
    let mut v: Vec<Attribute> = Vec::new();
    v.push(attr("action", action));
    v.push(Attribute { key: String::from_str("sender"), value: sender });
    v.push(Attribute { key: String::from_str("denom"), value: denom });
    v.push(Attribute { key: String::from_str("amount"), value: u128_to_string(amount) });
    v.push(attr("success", "true"));
    assert(v.deep_view() =~= action_attrs(action@, sender@, denom@, amount));
    v
}

/// The answer to a packet whose nested call was issued: the plain
/// acknowledgement of success, the one nested call, and the event.
pub open spec fn optimistic_response(
    submsg: SubMsgView,
    attributes: Seq<AttributeView>,
) -> IbcReceiveResponseView {
    IbcReceiveResponseView {
        acknowledgement: ack_success_spec(),
        messages: seq![submsg],
        attributes,
    }
}

fn optimistic(submsg: SubMsg, attributes: Vec<Attribute>) -> (r: IbcReceiveResponse)
    ensures
        r@ == optimistic_response(submsg@, attributes.deep_view()),
{
    let mut messages: Vec<SubMsg> = Vec::new();
    messages.push(submsg);
    assert(messages.deep_view() =~= seq![submsg@]);
    IbcReceiveResponse { acknowledgement: ack_success(), messages, attributes }
}

/// An answer or the failure to give one, as a mathematical value.
pub open spec fn receive_view(r: Result<IbcReceiveResponse, ContractError>) -> Result<
    IbcReceiveResponseView,
    ErrorView,
> {
    match r {
        Ok(resp) => Ok(resp@),
        Err(e) => Err(e@),
    }
}

/// The coin of an amount as chain messages write it.
pub open spec fn proto_coin(token: AmountView) -> ProtoCoinView {
    ProtoCoinView { denom: token.denom(), amount: decimal(token.amount() as nat) }
}

fn to_proto_coin(token: &Amount) -> (r: ProtoCoin)
    ensures
        r@ == proto_coin(token@),
{
    ProtoCoin { denom: token.denom(), amount: u128_to_string(token.amount()) }
}

/// The answer to a swap: the endpoint itself swaps `token_in` along the
/// routes for at least the least amount, and hears of the outcome whatever
/// it is.
pub open spec fn swap_receive_spec(
    swap: SwapPacketView,
    sender: Seq<char>,
    token_in: AmountView,
    contract: Seq<char>,
) -> IbcReceiveResponseView {
    optimistic_response(
        ReplyKind::Swap.spec_submsg(
            CosmosMsgView::Swap(
                MsgSwapExactAmountInView {
                    sender: contract,
                    routes: swap.routes,
                    token_in: proto_coin(token_in),
                    token_out_min_amount: decimal(swap.token_out_min_amount as nat),
                },
            ),
        ),
        action_attrs("swap_receive"@, sender, token_in.denom(), token_in.amount()),
    )
}

/// Issues the swap that a packet asks for.
pub fn swap_receive(swap: SwapPacket, sender: String, token_in: Amount, contract: String) -> (r:
    Result<IbcReceiveResponse, ContractError>)
    ensures
        receive_view(r) == Ok::<IbcReceiveResponseView, ErrorView>(
            swap_receive_spec(swap@, sender@, token_in@, contract@),
        ),
{
    let tx = MsgSwapExactAmountIn {
        sender: contract,
        token_in: to_proto_coin(&token_in),
        routes: swap.routes,
        token_out_min_amount: u128_to_string(swap.token_out_min_amount),
    };
    let submsg = ReplyKind::Swap.submsg(CosmosMsg::Swap(tx));
    let attributes = action_attributes(
        "swap_receive",
        sender,
        token_in.denom(),
        token_in.amount(),
    );
    Ok(optimistic(submsg, attributes))
}

/// The answer to a deposit: the endpoint itself puts `token_in` into the
/// pool for at least the least number of shares.
pub open spec fn join_pool_receive_spec(
    pool_id: u64,
    share_out_min_amount: u128,
    sender: Seq<char>,
    token_in: AmountView,
    contract: Seq<char>,
) -> IbcReceiveResponseView {
    optimistic_response(
        ReplyKind::JoinPool.spec_submsg(
            CosmosMsgView::JoinPool(
                MsgJoinSwapExternAmountInView {
                    sender: contract,
                    pool_id,
                    token_in: proto_coin(token_in),
                    share_out_min_amount: decimal(share_out_min_amount as nat),
                },
            ),
        ),
        action_attrs("join_pool_receive"@, sender, token_in.denom(), token_in.amount()),
    )
}

/// Issues the deposit that a packet asks for.
pub fn join_pool_receive(
    pool_id: u64,
    share_out_min_amount: u128,
    sender: String,
    token_in: Amount,
    contract: String,
) -> (r: Result<IbcReceiveResponse, ContractError>)
    ensures
        receive_view(r) == Ok::<IbcReceiveResponseView, ErrorView>(
            join_pool_receive_spec(
                pool_id,
                share_out_min_amount,
                sender@,
                token_in@,
                contract@,
            ),
        ),
{
    let tx = MsgJoinSwapExternAmountIn {
        sender: contract,
        pool_id,
        token_in: to_proto_coin(&token_in),
        share_out_min_amount: u128_to_string(share_out_min_amount),
    };
    let submsg = ReplyKind::JoinPool.submsg(CosmosMsg::JoinPool(tx));
    let attributes = action_attributes(
        "join_pool_receive",
        sender,
        token_in.denom(),
        token_in.amount(),
    );
    Ok(optimistic(submsg, attributes))
}

/// The answer to a withdrawal: the transferred amount must be shares of a
/// pool, and the endpoint gives them back to that pool for at least the least
/// amount of the denomination asked for.
pub open spec fn exit_pool_receive_spec(
    token_out_denom: Seq<char>,
    token_out_min_amount: u128,
    sender: Seq<char>,
    token_in: AmountView,
    contract: Seq<char>,
) -> Result<IbcReceiveResponseView, ErrorView> {
    match pool_share_id(token_in.denom()) {
        None => Err(ErrorView::NotPoolShare { denom: token_in.denom() }),
        Some(pool_id) => Ok(
            optimistic_response(
                ReplyKind::ExitPool.spec_submsg(
                    CosmosMsgView::ExitPool(
                        MsgExitSwapShareAmountInView {
                            sender: contract,
                            pool_id,
                            token_out_denom,
                            share_in_amount: decimal(token_in.amount() as nat),
                            token_out_min_amount: decimal(token_out_min_amount as nat),
                        },
                    ),
                ),
                action_attrs("exit_pool_receive"@, sender, token_in.denom(), token_in.amount()),
            ),
        ),
    }
}

/// Issues the withdrawal that a packet asks for.
pub fn exit_pool_receive(
    token_out_denom: String,
    token_out_min_amount: u128,
    sender: String,
    token_in: Amount,
    contract: String,
) -> (r: Result<IbcReceiveResponse, ContractError>)
    ensures
        receive_view(r) == exit_pool_receive_spec(
            token_out_denom@,
            token_out_min_amount,
            sender@,
            token_in@,
            contract@,
        ),
{
    let denom = token_in.denom();
    let pool_id = match parse_pool_share(&denom) {
        Some(id) => id,
        None => {
            return Err(ContractError::NotPoolShare { denom });
        },
    };
    let tx = MsgExitSwapShareAmountIn {
        sender: contract,
        pool_id,
        token_out_denom,
        share_in_amount: u128_to_string(token_in.amount()),
        token_out_min_amount: u128_to_string(token_out_min_amount),
    };
    let submsg = ReplyKind::ExitPool.submsg(CosmosMsg::ExitPool(tx));
    let attributes = action_attributes("exit_pool_receive", sender, denom, token_in.amount());
    Ok(optimistic(submsg, attributes))
}

/// The answer to the creation of a lockup account: the transfer must carry
/// no value, and the sender must have no account on the channel yet.
pub open spec fn create_lockup_receive_spec(
    lockups: Lockups,
    channel: Seq<char>,
    sender: Seq<char>,
    token_in: AmountView,
    contract: Seq<char>,
) -> Result<IbcReceiveResponseView, ErrorView> {
    if token_in.amount() != 0 {
        Err(ErrorView::NonPayable)
    } else if lockups.contains_key((channel, sender)) {
        Err(ErrorView::OnlyLockupByChannel)
    } else {
        Ok(
            optimistic_response(
                ReplyKind::CreateLockup.spec_submsg(
                    CosmosMsgView::CreateLockup { admin: contract, channel, sender },
                ),
                action_attrs(
                    "create_lockup_receive"@,
                    sender,
                    token_in.denom(),
                    token_in.amount(),
                ),
            ),
        )
    }
}

/// Issues the creation of the sender's lockup account.
pub fn create_lockup_receive(
    lockups: &VecMap<Pair, String>,
    channel: String,
    sender: String,
    token_in: Amount,
    contract: String,
) -> (r: Result<IbcReceiveResponse, ContractError>)
    ensures
        receive_view(r) == create_lockup_receive_spec(
            lockups@,
            channel@,
            sender@,
            token_in@,
            contract@,
        ),
{
    if token_in.amount() != 0 {
        return Err(ContractError::NonPayable);
    }
    if lockups.get(&Pair::of(&channel, &sender)).is_some() {
        return Err(ContractError::OnlyLockupByChannel);
    }
    let attributes = action_attributes(
        "create_lockup_receive",
        sender.clone(),
        token_in.denom(),
        token_in.amount(),
    );
    let submsg = ReplyKind::CreateLockup.submsg(
        CosmosMsg::CreateLockup { admin: contract, channel, sender },
    );
    Ok(optimistic(submsg, attributes))
}

/// The answer to a lock: the sender must have a lockup account on the
/// channel, and the transferred amount goes to it with the duration.
pub open spec fn lock_receive_spec(
    lockups: Lockups,
    channel: Seq<char>,
    sender: Seq<char>,
    duration: u64,
    token_in: AmountView,
) -> Result<IbcReceiveResponseView, ErrorView> {
    if !lockups.contains_key((channel, sender)) {
        Err(ErrorView::LockupNotFound)
    } else {
        Ok(
            optimistic_response(
                ReplyKind::LockToken.spec_submsg(
                    CosmosMsgView::Lock {
                        contract_addr: lockups[(channel, sender)],
                        funds: CoinView { denom: token_in.denom(), amount: token_in.amount() },
                        duration,
                    },
                ),
                action_attrs("lock_receive"@, sender, token_in.denom(), token_in.amount()),
            ),
        )
    }
}

/// Issues the lock that a packet asks for.
pub fn lock_receive(
    lockups: &VecMap<Pair, String>,
    channel: String,
    sender: String,
    duration: u64,
    token_in: Amount,
) -> (r: Result<IbcReceiveResponse, ContractError>)
    ensures
        receive_view(r) == lock_receive_spec(lockups@, channel@, sender@, duration, token_in@),
{
    let contract_addr = match lockups.get(&Pair::of(&channel, &sender)) {
        Some(addr) => addr.clone(),
        None => {
            return Err(ContractError::LockupNotFound);
        },
    };
    let funds = Coin { denom: token_in.denom(), amount: token_in.amount() };
    let submsg = ReplyKind::LockToken.submsg(CosmosMsg::Lock { contract_addr, funds, duration });
    let attributes = action_attributes(
        "lock_receive",
        sender,
        token_in.denom(),
        token_in.amount(),
    );
    Ok(optimistic(submsg, attributes))
}

/// The answer to a claim: the transfer must carry no value, the sender must
/// have a lockup account on the channel, and the account is asked to claim
/// what it holds of the denomination.
pub open spec fn claim_receive_spec(
    lockups: Lockups,
    channel: Seq<char>,
    sender: Seq<char>,
    denom: Seq<char>,
    token_in: AmountView,
) -> Result<IbcReceiveResponseView, ErrorView> {
    if token_in.amount() != 0 {
        Err(ErrorView::NonPayable)
    } else if !lockups.contains_key((channel, sender)) {
        Err(ErrorView::LockupNotFound)
    } else {
        Ok(
            optimistic_response(
                ReplyKind::ClaimToken.spec_submsg(
                    CosmosMsgView::Claim { contract_addr: lockups[(channel, sender)], denom },
                ),
                action_attrs("claim_receive"@, sender, token_in.denom(), token_in.amount()),
            ),
        )
    }
}

/// Issues the claim that a packet asks for.
pub fn claim_receive(
    lockups: &VecMap<Pair, String>,
    channel: String,
    sender: String,
    denom: String,
    token_in: Amount,
) -> (r: Result<IbcReceiveResponse, ContractError>)
    ensures
        receive_view(r) == claim_receive_spec(lockups@, channel@, sender@, denom@, token_in@),
{
    if token_in.amount() != 0 {
        return Err(ContractError::NonPayable);
    }
    let contract_addr = match lockups.get(&Pair::of(&channel, &sender)) {
        Some(addr) => addr.clone(),
        None => {
            return Err(ContractError::LockupNotFound);
        },
    };
    let submsg = ReplyKind::ClaimToken.submsg(CosmosMsg::Claim { contract_addr, denom });
    let attributes = action_attributes(
        "claim_receive",
        sender,
        token_in.denom(),
        token_in.amount(),
    );
    Ok(optimistic(submsg, attributes))
}

/// The answer to an unlock: the transfer must carry no value, the sender
/// must have a lockup account on the channel, and the account is asked to
/// begin unlocking the lock.
pub open spec fn unlock_receive_spec(
    lockups: Lockups,
    channel: Seq<char>,
    sender: Seq<char>,
    id: u64,
    token_in: AmountView,
) -> Result<IbcReceiveResponseView, ErrorView> {
    if token_in.amount() != 0 {
        Err(ErrorView::NonPayable)
    } else if !lockups.contains_key((channel, sender)) {
        Err(ErrorView::LockupNotFound)
    } else {
        Ok(
            optimistic_response(
                ReplyKind::UnlockToken.spec_submsg(
                    CosmosMsgView::Unlock { contract_addr: lockups[(channel, sender)], id },
                ),
                action_attrs("unlock_receive"@, sender, token_in.denom(), token_in.amount()),
            ),
        )
    }
}

/// Issues the unlock that a packet asks for.
pub fn unlock_receive(
    lockups: &VecMap<Pair, String>,
    channel: String,
    sender: String,
    id: u64,
    token_in: Amount,
) -> (r: Result<IbcReceiveResponse, ContractError>)
    ensures
        receive_view(r) == unlock_receive_spec(lockups@, channel@, sender@, id, token_in@),
{
    if token_in.amount() != 0 {
        return Err(ContractError::NonPayable);
    }
    let contract_addr = match lockups.get(&Pair::of(&channel, &sender)) {
        Some(addr) => addr.clone(),
        None => {
            return Err(ContractError::LockupNotFound);
        },
    };
    let submsg = ReplyKind::UnlockToken.submsg(CosmosMsg::Unlock { contract_addr, id });
    let attributes = action_attributes(
        "unlock_receive",
        sender,
        token_in.denom(),
        token_in.amount(),
    );
    Ok(optimistic(submsg, attributes))
}

/// The answer to a plain transfer: the amount is paid out to the receiver,
/// and the endpoint hears of the payout only if it fails.
pub open spec fn payout_receive_spec(
    sender: Seq<char>,
    receiver: Seq<char>,
    to_send: AmountView,
) -> Result<IbcReceiveResponseView, ErrorView> {
    match send_amount_spec(to_send, receiver) {
        Err(e) => Err(e),
        Ok(send) => Ok(
            optimistic_response(
                ReplyKind::Receive.spec_submsg(send),
                receive_attrs(sender, receiver, to_send.denom(), to_send.amount()),
            ),
        ),
    }
}

/// Issues the payout of a plain transfer.
pub fn payout_receive(sender: String, receiver: String, to_send: Amount) -> (r: Result<
    IbcReceiveResponse,
    ContractError,
>)
    ensures
        receive_view(r) == payout_receive_spec(sender@, receiver@, to_send@),
{
    let denom = to_send.denom();
    let amount = to_send.amount();
    let send = match send_amount(to_send, receiver.clone()) {
        Ok(send) => send,
        Err(e) => {
            return Err(e);
        },
    };
    let submsg = ReplyKind::Receive.submsg(send);
    let mut attributes: Vec<Attribute> = Vec::new();
    attributes.push(attr("action", "receive"));
    attributes.push(Attribute { key: String::from_str("sender"), value: sender });
    attributes.push(Attribute { key: String::from_str("receiver"), value: receiver });
    attributes.push(Attribute { key: String::from_str("denom"), value: denom });
    attributes.push(Attribute { key: String::from_str("amount"), value: u128_to_string(amount) });
    attributes.push(attr("success", "true"));
    assert(attributes.deep_view() =~= receive_attrs(
        sender@,
        receiver@,
        to_send@.denom(),
        to_send@.amount(),
    ));
    Ok(optimistic(submsg, attributes))
}

/// The answer to a packet whose amount the escrow covers: the one nested
/// call of its action, or of the payout where it carries none. `channel` is
/// the channel the packet arrived on, `denom` the denomination on this side.
pub open spec fn dispatch_spec(
    lockups: Lockups,
    env: EnvView,
    channel: Seq<char>,
    denom: Seq<char>,
    msg: Ics20PacketView,
) -> Result<IbcReceiveResponseView, ErrorView> {
    let to_send = AmountView::from_parts(denom, msg.amount);
    match msg.action {
        None => payout_receive_spec(msg.sender, msg.receiver, to_send),
        Some(OsmoPacketView::Swap(swap)) => Ok(
            swap_receive_spec(swap, msg.sender, to_send, env.contract),
        ),
        Some(OsmoPacketView::JoinPool { pool_id, share_out_min_amount }) => Ok(
            join_pool_receive_spec(
                pool_id,
                share_out_min_amount,
                msg.sender,
                to_send,
                env.contract,
            ),
        ),
        Some(
            OsmoPacketView::ExitPool { token_out_denom, token_out_min_amount },
        ) => exit_pool_receive_spec(
            token_out_denom,
            token_out_min_amount,
            msg.sender,
            to_send,
            env.contract,
        ),
        Some(OsmoPacketView::LockupAccount) => create_lockup_receive_spec(
            lockups,
            channel,
            msg.sender,
            to_send,
            env.contract,
        ),
        Some(OsmoPacketView::Lock { duration }) => lock_receive_spec(
            lockups,
            channel,
            msg.sender,
            duration,
            to_send,
        ),
        Some(OsmoPacketView::Claim { denom: claimed }) => claim_receive_spec(
            lockups,
            channel,
            msg.sender,
            claimed,
            to_send,
        ),
        Some(OsmoPacketView::Unlock { id }) => unlock_receive_spec(
            lockups,
            channel,
            msg.sender,
            id,
            to_send,
        ),
    }
}

/// Builds the one nested call that a packet asks for, after the checks of
/// its action.
pub fn dispatch(
    lockups: &VecMap<Pair, String>,
    env: &Env,
    channel: &String,
    denom: &String,
    msg: Ics20Packet,
) -> (r: Result<IbcReceiveResponse, ContractError>)
    ensures
        receive_view(r) == dispatch_spec(lockups@, env@, channel@, denom@, msg@),
{
    let to_send = Amount::from_parts(denom.clone(), msg.amount);
    let sender = msg.sender;
    match msg.action {
        None => payout_receive(sender, msg.receiver, to_send),
        Some(OsmoPacket::Swap(swap)) => swap_receive(swap, sender, to_send, env.contract.clone()),
        Some(OsmoPacket::JoinPool { pool_id, share_out_min_amount }) => join_pool_receive(
            pool_id,
            share_out_min_amount,
            sender,
            to_send,
            env.contract.clone(),
        ),
        Some(OsmoPacket::ExitPool { token_out_denom, token_out_min_amount }) => exit_pool_receive(
            token_out_denom,
            token_out_min_amount,
            sender,
            to_send,
            env.contract.clone(),
        ),
        Some(OsmoPacket::LockupAccount) => create_lockup_receive(
            lockups,
            channel.clone(),
            sender,
            to_send,
            env.contract.clone(),
        ),
        Some(OsmoPacket::Lock { duration }) => lock_receive(
            lockups,
            channel.clone(),
            sender,
            duration,
            to_send,
        ),
        Some(OsmoPacket::Claim { denom: claimed }) => claim_receive(
            lockups,
            channel.clone(),
            sender,
            claimed,
            to_send,
        ),
        Some(OsmoPacket::Unlock { id }) => unlock_receive(
            lockups,
            channel.clone(),
            sender,
            id,
            to_send,
        ),
    }
}

} // verus!
