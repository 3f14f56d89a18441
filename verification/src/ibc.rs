//! The handlers of the endpoint: the channel handshake, the receipt of a
//! packet with its action, the continuation after a nested call, and the
//! settlement of packets that the other side refused or never saw.

use vstd::prelude::*;
use vstd::string::*;
use crate::action::{dispatch, dispatch_spec};
use crate::amount::{Amount, AmountView};
use crate::continuation::ReplyKind;
use crate::decimal::{decimal, u128_to_string};
use crate::error::{ContractError, ErrorView};
use crate::ibc_msg::{
    success_marker,
    AckData,
    AckDataView,
    Ics20Ack,
    Ics20AckView,
    Ics20Packet,
    Ics20PacketView,
    Voucher,
    VoucherView,
};
use crate::msg::{
    attr,
    attr_view,
    Attribute,
    AttributeView,
    Env,
    EnvView,
    HandshakeView,
    IbcBasicResponse,
    IbcBasicResponseView,
    IbcChannel,
    IbcChannelCloseMsg,
    IbcChannelConnectMsg,
    IbcChannelOpenMsg,
    IbcChannelView,
    IbcEndpoint,
    IbcEndpointView,
    IbcOrder,
    IbcPacket,
    IbcPacketAckMsg,
    IbcPacketAckMsgView,
    IbcPacketReceiveMsg,
    IbcPacketTimeoutMsg,
    IbcPacketView,
    IbcReceiveResponse,
    IbcReceiveResponseView,
    Reply,
    ReplyOn,
    ReplyView,
    Response,
    ResponseView,
    SubMsg,
    SubMsgResponseView,
};
use crate::payout::{send_amount, send_amount_spec};
use crate::state::{
    credit_spec,
    increase_channel_balance,
    reduce_channel_balance,
    restore_balance_reply,
    restore_spec,
    ChannelInfo,
    ChannelInfoView,
    Config,
    ReplyArgs,
    ReplyArgsView,
    State,
    StateView,
};
use crate::text::{
    chars_of,
    find_from,
    first_index,
    lemma_first_index,
    lemma_first_index_is,
    split,
    substring,
};

verus! {

/// Protocol version that every channel of this endpoint must speak.
pub const ICS20_VERSION: &'static str = "ics20-1";

/// The ordering that every channel of this endpoint must have.
pub const ICS20_ORDERING: IbcOrder = IbcOrder::Unordered;

/// The protocol version as a sequence of characters.
pub open spec fn ics20_version() -> Seq<char> {
    "ics20-1"@
}

/// An acknowledgement of success that carries `data`.
pub fn ack_success_with_body(data: AckData) -> (r: Ics20Ack)
    ensures
        r@ == Ics20AckView::Result(data@),
{
    Ics20Ack::Result(data)
}

/// The plain acknowledgement of success.
pub open spec fn ack_success_spec() -> Ics20AckView {
    Ics20AckView::Result(AckDataView::Raw(success_marker()))
}

/// The plain acknowledgement of success: its marker is the one byte `1`.
pub fn ack_success() -> (r: Ics20Ack)
    ensures
        r@ == ack_success_spec(),
{
    let mut marker: Vec<u8> = Vec::new();
    marker.push(0x31u8);
    assert(marker@ =~= success_marker());
    Ics20Ack::Result(AckData::Raw(marker))
}

/// An acknowledgement of failure with the failure's text.
pub fn ack_fail(err: String) -> (r: Ics20Ack)
    ensures
        r@ == Ics20AckView::Error(err@),
{
    Ics20Ack::Error(err)
}

/// Whether a channel may be used: it speaks the protocol version, so does
/// the other side where it has said what it speaks, and it is unordered. The
/// first of these that fails is the one reported.
pub open spec fn enforce_order_and_version_spec(
    channel: IbcChannelView,
    counterparty_version: Option<Seq<char>>,
) -> Result<(), ErrorView> {
    if channel.version != ics20_version() {
        Err(ErrorView::InvalidIbcVersion { version: channel.version })
    } else if counterparty_version is Some && counterparty_version->0 != ics20_version() {
        Err(ErrorView::InvalidIbcVersion { version: counterparty_version->0 })
    } else if channel.order != ICS20_ORDERING {
        Err(ErrorView::OnlyOrderedChannel)
    } else {
        Ok(())
    }
}

/// A result without a value, as a mathematical value.
pub open spec fn unit_view(r: Result<(), ContractError>) -> Result<(), ErrorView> {
    match r {
        Ok(()) => Ok(()),
        Err(e) => Err(e@),
    }
}

/// Checks the version and the ordering of a channel.
pub fn enforce_order_and_version(
    channel: &IbcChannel,
    counterparty_version: &Option<String>,
) -> (r: Result<(), ContractError>)
    ensures
        unit_view(r) == enforce_order_and_version_spec(
            channel@,
            counterparty_version.deep_view(),
        ),
{
    let expected = String::from_str(ICS20_VERSION);
    if channel.version != expected {
        return Err(ContractError::InvalidIbcVersion { version: channel.version.clone() });
    }
    if let Some(version) = counterparty_version {
        if *version != expected {
            return Err(ContractError::InvalidIbcVersion { version: version.clone() });
        }
    }
    if channel.order != ICS20_ORDERING {
        return Err(ContractError::OnlyOrderedChannel);
    }
    Ok(())
}

/// Whether a channel may be opened: it must pass the checks of version and
/// ordering, and the endpoint must not have connected its one channel yet.
pub open spec fn channel_open_spec(s: StateView, msg: HandshakeView) -> Result<(), ErrorView> {
    match enforce_order_and_version_spec(msg.channel, msg.counterparty_version) {
        Err(e) => Err(e),
        Ok(()) => if s.config.init_channel {
            Err(ErrorView::OnlyOneChannel)
        } else {
            Ok(())
        },
    }
}

/// Decides whether a channel may be opened.
pub fn ibc_channel_open(state: &State, _env: &Env, msg: &IbcChannelOpenMsg) -> (r: Result<
    (),
    ContractError,
>)
    ensures
        unit_view(r) == channel_open_spec(state@, msg@),
{
    match enforce_order_and_version(&msg.channel, &msg.counterparty_version) {
        Err(e) => {
            return Err(e);
        },
        Ok(()) => {},
    }
    if state.config.init_channel {
        return Err(ContractError::OnlyOneChannel);
    }
    Ok(())
}

/// What the endpoint records of a channel.
pub open spec fn channel_info(channel: IbcChannelView) -> ChannelInfoView {
    ChannelInfoView {
        id: channel.endpoint.channel_id,
        counterparty_endpoint: channel.counterparty_endpoint,
        connection_id: channel.connection_id,
    }
}

/// The state after a channel was connected: the channel is recorded under
/// its id, and the endpoint has its one channel. A channel that does not
/// pass the checks of version and ordering is refused.
pub open spec fn channel_connect_spec(s: StateView, msg: HandshakeView) -> Result<
    (StateView, IbcBasicResponseView),
    ErrorView,
> {
    match enforce_order_and_version_spec(msg.channel, msg.counterparty_version) {
        Err(e) => Err(e),
        Ok(()) => Ok(
            (
                StateView {
                    config: Config { init_channel: true },
                    channels: s.channels.insert(
                        msg.channel.endpoint.channel_id,
                        channel_info(msg.channel),
                    ),
                    ..s
                },
                IbcBasicResponseView::empty(),
            ),
        ),
    }
}

/// Whether a handler that answers the host went as its transition function
/// says: on success state and answer are the ones it gives, on failure the
/// failure is the one it gives and the state is as before.
pub open spec fn basic_step(
    r: Result<IbcBasicResponse, ContractError>,
    before: StateView,
    after: StateView,
    expected: Result<(StateView, IbcBasicResponseView), ErrorView>,
) -> bool {
    match r {
        Ok(resp) => expected == Ok::<(StateView, IbcBasicResponseView), ErrorView>(
            (after, resp@),
        ),
        Err(e) => expected == Err::<(StateView, IbcBasicResponseView), ErrorView>(e@) && after
            == before,
    }
}

/// Records a channel that was connected.
pub fn ibc_channel_connect(state: &mut State, _env: &Env, msg: IbcChannelConnectMsg) -> (r:
    Result<IbcBasicResponse, ContractError>)
    ensures
        basic_step(r, old(state)@, final(state)@, channel_connect_spec(old(state)@, msg@)),
{
    match enforce_order_and_version(&msg.channel, &msg.counterparty_version) {
        Err(e) => {
            return Err(e);
        },
        Ok(()) => {},
    }
    let channel = msg.channel;
    let info = ChannelInfo {
        id: channel.endpoint.channel_id,
        counterparty_endpoint: channel.counterparty_endpoint,
        connection_id: channel.connection_id,
    };
    state.channels.insert(info.id.clone(), info);
    state.config.init_channel = true;
    Ok(IbcBasicResponse::new())
}

/// Whether a channel may be closed: the other side may close it, this side
/// may not.
pub open spec fn channel_close_spec(msg: IbcChannelCloseMsg) -> Result<
    IbcBasicResponseView,
    ErrorView,
> {
    match msg {
        IbcChannelCloseMsg::CloseConfirm => Ok(IbcBasicResponseView::empty()),
        IbcChannelCloseMsg::CloseInit => Err(ErrorView::CannotClose),
    }
}

/// Decides whether a channel may be closed.
pub fn ibc_channel_close(_state: &State, _env: &Env, channel: IbcChannelCloseMsg) -> (r: Result<
    IbcBasicResponse,
    ContractError,
>)
    ensures
        match r {
            Ok(resp) => channel_close_spec(channel) == Ok::<IbcBasicResponseView, ErrorView>(
                resp@,
            ),
            Err(e) => channel_close_spec(channel) == Err::<IbcBasicResponseView, ErrorView>(e@),
        },
{
    match channel {
        IbcChannelCloseMsg::CloseConfirm => Ok(IbcBasicResponse::new()),
        IbcChannelCloseMsg::CloseInit => Err(ContractError::CannotClose),
    }
}

/// The character that separates the parts of a voucher.
pub open spec fn voucher_separator() -> char {
    '/'
}

/// The denomination on this side that a voucher stands for. The voucher has
/// exactly three parts between separators: the port and the channel of the
/// end that the packet came from, and the denomination.
pub open spec fn parse_voucher_spec(voucher_denom: Seq<char>, remote: IbcEndpointView) -> Result<
    VoucherView,
    ErrorView,
> {
    let parts = split(voucher_denom, voucher_separator());
    if parts.len() != 3 {
        Err(ErrorView::NoForeignTokens)
    } else if parts[0] != remote.port_id {
        Err(ErrorView::FromOtherPort { port: parts[0] })
    } else if parts[1] != remote.channel_id {
        Err(ErrorView::FromOtherChannel { channel: parts[1] })
    } else {
        Ok(VoucherView { denom: parts[2] })
    }
}

/// The voucher under which an asset of this side travels after it left by
/// the channel whose other end is `remote`.
pub open spec fn voucher_denom(remote: IbcEndpointView, denom: Seq<char>) -> Seq<char> {
    remote.port_id + seq![voucher_separator()] + remote.channel_id + seq![voucher_separator()]
        + denom
}

/// A voucher that was written for a channel is read back on that channel:
/// where port, channel and denomination hold no separator, the voucher made
/// of them gives the denomination.
pub proof fn lemma_voucher_round_trip(remote: IbcEndpointView, denom: Seq<char>)
    requires
        !remote.port_id.contains(voucher_separator()),
        !remote.channel_id.contains(voucher_separator()),
        !denom.contains(voucher_separator()),
    ensures
        parse_voucher_spec(voucher_denom(remote, denom), remote) == Ok::<VoucherView, ErrorView>(
            VoucherView { denom },
        ),
{
    let sep = voucher_separator();
    let s = voucher_denom(remote, denom);
    let p = remote.port_id.len() as int;
    let c = remote.channel_id.len() as int;
    let s1 = remote.channel_id + seq![sep] + denom;
    reveal_with_fuel(split, 4);
    lemma_first_index_is(s, sep, p);
    assert(s.take(p) =~= remote.port_id);
    assert(s.skip(p + 1) =~= s1);
    lemma_first_index_is(s1, sep, c);
    assert(s1.take(c) =~= remote.channel_id);
    assert(s1.skip(c + 1) =~= denom);
    lemma_first_index_is(denom, sep, denom.len() as int);
}

/// Only a voucher that was written for the channel is read: a denomination
/// that is read as a voucher is the voucher made of the port and the channel
/// of the other end and of the denomination it gives, and that denomination
/// holds no separator.
pub proof fn lemma_voucher_is_exact(voucher: Seq<char>, remote: IbcEndpointView)
    requires
        parse_voucher_spec(voucher, remote) is Ok,
    ensures
        voucher == voucher_denom(remote, parse_voucher_spec(voucher, remote)->Ok_0.denom),
        !parse_voucher_spec(voucher, remote)->Ok_0.denom.contains(voucher_separator()),
{
    let sep = voucher_separator();
    reveal_with_fuel(split, 4);
    lemma_first_index(voucher, sep);
    let i = first_index(voucher, sep);
    let s1 = voucher.skip(i + 1);
    lemma_first_index(s1, sep);
    let j = first_index(s1, sep);
    let s2 = s1.skip(j + 1);
    lemma_first_index(s2, sep);
    let denom = parse_voucher_spec(voucher, remote)->Ok_0.denom;
    assert(denom == s2);
    assert(voucher =~= voucher.take(i) + seq![sep] + s1.take(j) + seq![sep] + s2);
    assert forall|k: int| 0 <= k < s2.len() implies s2[k] != sep by {}
}

/// A voucher or the failure to read one, as a mathematical value.
pub open spec fn voucher_view(r: Result<Voucher, ContractError>) -> Result<
    VoucherView,
    ErrorView,
> {
    match r {
        Ok(v) => Ok(v@),
        Err(e) => Err(e@),
    }
}

/// Reads a denomination as the voucher of an asset of this side that comes
/// back over the channel it left by.
pub fn parse_voucher(voucher_denom: String, remote_endpoint: &IbcEndpoint) -> (r: Result<
    Voucher,
    ContractError,
>)
    ensures
        voucher_view(r) == parse_voucher_spec(voucher_denom@, remote_endpoint@),
{
    let text = voucher_denom.as_str();
    let chars = chars_of(text);
    let len = chars.len();
    let ghost s = voucher_denom@;
    let ghost parts = split(s, '/');
    proof {
        reveal_with_fuel(split, 4);
        lemma_first_index(s, '/');
    }
    let first = find_from(&chars, 0, '/');
    assert(s.skip(0) =~= s);
    if first == len {
        return Err(ContractError::NoForeignTokens);
    }
    let ghost s1 = s.skip(first + 1);
    proof {
        lemma_first_index(s1, '/');
    }
    let second = find_from(&chars, first + 1, '/');
    if second == len {
        return Err(ContractError::NoForeignTokens);
    }
    let ghost s2 = s1.skip(second - first);
    proof {
        assert(s2 =~= s.skip(second + 1));
        lemma_first_index(s2, '/');
    }
    let third = find_from(&chars, second + 1, '/');
    if third != len {
        proof {
            assert(split(s2, '/').len() >= 2) by {
                reveal_with_fuel(split, 2);
            }
        }
        return Err(ContractError::NoForeignTokens);
    }
    let port = substring(text, 0, first);
    let channel = substring(text, first + 1, second);
    let denom = substring(text, second + 1, len);
    proof {
        assert(parts.len() == 3);
        assert(port@ =~= parts[0]);
        assert(channel@ =~= parts[1]);
        assert(denom@ =~= parts[2]);
    }
    if port != remote_endpoint.port_id {
        return Err(ContractError::FromOtherPort { port });
    }
    if channel != remote_endpoint.channel_id {
        return Err(ContractError::FromOtherChannel { channel });
    }
    Ok(Voucher { denom })
}

/// The state and the answer after a packet was received and accepted. The
/// payload must have been decoded; its denomination must be the voucher of
/// an asset of this side that comes back over the channel it left by; the
/// escrow of the channel must cover the amount; and the checks of the action
/// must pass. Then the amount has left the escrow, the slot holds the
/// continuation, and the answer carries the one nested call. The first check
/// that fails is the failure.
pub open spec fn do_packet_receive_spec(s: StateView, env: EnvView, packet: IbcPacketView) -> Result<
    (StateView, IbcReceiveResponseView),
    ErrorView,
> {
    match packet.data {
        Err(msg) => Err(ErrorView::Std { msg }),
        Ok(msg) => match parse_voucher_spec(msg.denom, packet.src) {
            Err(e) => Err(e),
            Ok(voucher) => {
                let channel = packet.dest.channel_id;
                match s.debit((channel, voucher.denom), msg.amount) {
                    Err(e) => Err(e),
                    Ok(debited) => match dispatch_spec(
                        s.lockups,
                        env,
                        channel,
                        voucher.denom,
                        msg,
                    ) {
                        Err(e) => Err(e),
                        Ok(resp) => Ok(
                            (
                                StateView {
                                    reply_args: Some(
                                        ReplyArgsView {
                                            channel,
                                            denom: voucher.denom,
                                            amount: msg.amount,
                                            sender: msg.sender,
                                        },
                                    ),
                                    ..debited
                                },
                                resp,
                            ),
                        ),
                    },
                }
            },
        },
    }
}

/// Whether the receipt of a packet went as its transition function says.
pub open spec fn receive_step(
    r: Result<IbcReceiveResponse, ContractError>,
    before: StateView,
    after: StateView,
    expected: Result<(StateView, IbcReceiveResponseView), ErrorView>,
) -> bool {
    match r {
        Ok(resp) => expected == Ok::<(StateView, IbcReceiveResponseView), ErrorView>(
            (after, resp@),
        ),
        Err(e) => expected == Err::<(StateView, IbcReceiveResponseView), ErrorView>(e@) && after
            == before,
    }
}

/// Receives a packet: takes its amount out of the escrow, records the
/// continuation and issues the nested call of its action.
pub fn do_ibc_packet_receive(state: &mut State, env: &Env, packet: IbcPacket) -> (r: Result<
    IbcReceiveResponse,
    ContractError,
>)
    ensures
        receive_step(
            r,
            old(state)@,
            final(state)@,
            do_packet_receive_spec(old(state)@, env@, packet@),
        ),
{
    let msg = match packet.data {
        Ok(msg) => msg,
        Err(e) => {
            return Err(ContractError::Std { msg: e });
        },
    };
    let channel = packet.dest.channel_id;
    let voucher = match parse_voucher(msg.denom.clone(), &packet.src) {
        Ok(v) => v,
        Err(e) => {
            return Err(e);
        },
    };
    let denom = voucher.denom;
    if state.channel_state(&channel, &denom).outstanding < msg.amount {
        return Err(ContractError::InsufficientFunds);
    }
    let amount = msg.amount;
    let sender = msg.sender.clone();
    let resp = match dispatch(&state.lockups, env, &channel, &denom, msg) {
        Ok(resp) => resp,
        Err(e) => {
            return Err(e);
        },
    };
    match reduce_channel_balance(state, &channel, &denom, amount) {
        Ok(()) => {},
        Err(e) => {
            return Err(e);
        },
    }
    state.save_reply_args(ReplyArgs { channel, denom, amount, sender });
    Ok(resp)
}

/// The answer to a packet that was refused: the failure's text as the
/// acknowledgement, no nested call, and the event of the failure.
pub open spec fn refusal(e: ErrorView) -> IbcReceiveResponseView {
    IbcReceiveResponseView {
        acknowledgement: Ics20AckView::Error(e.message()),
        messages: Seq::empty(),
        attributes: seq![
            attr_view("action"@, "receive"@),
            attr_view("success"@, "false"@),
            attr_view("error"@, e.message()),
        ],
    }
}

/// The state and the answer after a packet was received: those of the
/// accepted packet, or the state as it was with the refusal.
pub open spec fn packet_receive_spec(s: StateView, env: EnvView, packet: IbcPacketView) -> (
    StateView,
    IbcReceiveResponseView,
) {
    match do_packet_receive_spec(s, env, packet) {
        Ok(next) => next,
        Err(e) => (s, refusal(e)),
    }
}

/// An accepted packet issues exactly one nested call, acknowledges success,
/// and leaves the context of that call in the slot.
pub proof fn lemma_accepted_packet(s: StateView, env: EnvView, packet: IbcPacketView)
    requires
        do_packet_receive_spec(s, env, packet) is Ok,
    ensures
        ({
            let (next, resp) = do_packet_receive_spec(s, env, packet)->Ok_0;
            &&& resp.messages.len() == 1
            &&& resp.acknowledgement == ack_success_spec()
            &&& next.reply_args is Some
            &&& next.reply_args->0.channel == packet.dest.channel_id
            &&& next.reply_args->0.amount == packet.data->Ok_0.amount
            &&& next.reply_args->0.sender == packet.data->Ok_0.sender
        }),
{
}

/// Receives a packet. Whatever the packet holds, the host gets an
/// acknowledgement: a packet that cannot be accepted is answered with the
/// failure's text, and leaves the state as it was.
pub fn ibc_packet_receive(state: &mut State, env: &Env, msg: IbcPacketReceiveMsg) -> (r:
    IbcReceiveResponse)
    ensures
        (final(state)@, r@) == packet_receive_spec(old(state)@, env@, msg.packet@),
        r@.messages.len() <= 1,
        r@.messages.len() == 1 <==> r@.acknowledgement is Result,
        r@.messages.len() == 1 ==> final(state)@.reply_args is Some,
        r@.acknowledgement is Error ==> final(state)@ == old(state)@,
{
    proof {
        if do_packet_receive_spec(state@, env@, msg.packet@) is Ok {
            lemma_accepted_packet(state@, env@, msg.packet@);
        }
    }
    match do_ibc_packet_receive(state, env, msg.packet) {
        Ok(resp) => resp,
        Err(err) => {
            let text = err.message();
            let mut attributes: Vec<Attribute> = Vec::new();
            attributes.push(attr("action", "receive"));
            attributes.push(attr("success", "false"));
            attributes.push(Attribute { key: String::from_str("error"), value: text.clone() });
            let resp = IbcReceiveResponse {
                acknowledgement: ack_fail(text),
                messages: Vec::new(),
                attributes,
            };
            assert(resp@.messages =~= Seq::empty());
            assert(resp@.attributes =~= refusal(err@).attributes);
            resp
        },
    }
}

/// The state and the answer after a nested call failed, or succeeded
/// without the result its continuation needs. `s` is the state with the
/// continuation `args` already taken out of its slot. The amount goes back
/// into the escrow it was taken from, where the kind of call carries value,
/// and the acknowledgement becomes the failure's text.
pub open spec fn settle_failure(
    s: StateView,
    args: ReplyArgsView,
    kind: ReplyKind,
    msg: Seq<char>,
) -> Result<(StateView, ResponseView), ErrorView> {
    if kind.spec_restores() {
        match restore_spec(s.balances, (args.channel, args.denom), args.amount) {
            Err(e) => Err(e),
            Ok(b) => Ok(
                (s.with_balances(b), ResponseView::with_data(Ics20AckView::Error(msg))),
            ),
        }
    } else {
        Ok((s, ResponseView::with_data(Ics20AckView::Error(msg))))
    }
}

/// The state and the answer after a nested call succeeded whose outcome is
/// always reported. `s` is the state with the continuation `args` already
/// taken out of its slot. An amount that the call yielded goes into the
/// escrow of the channel and is acknowledged; a lockup account that it
/// created is bound to channel and sender and acknowledged; the bytes that a
/// lock returned are acknowledged as they are. Where the call gave no such
/// result, it is settled as a failure.
pub open spec fn settle_success(
    s: StateView,
    args: ReplyArgsView,
    kind: ReplyKind,
    out: SubMsgResponseView,
) -> Result<(StateView, ResponseView), ErrorView> {
    let missing = ErrorView::MissingReplyResult.message();
    if kind.spec_yields_amount() {
        match out.amount {
            None => settle_failure(s, args, kind, missing),
            Some(coin) => match credit_spec(s.balances, (args.channel, coin.denom), coin.amount) {
                Err(e) => Err(e),
                Ok(b) => Ok(
                    (
                        s.with_balances(b),
                        ResponseView::with_data(Ics20AckView::Result(AckDataView::Amount(coin))),
                    ),
                ),
            },
        }
    } else if kind == ReplyKind::CreateLockup {
        match out.contract_address {
            None => settle_failure(s, args, kind, missing),
            Some(contract_address) => Ok(
                (
                    StateView {
                        lockups: s.lockups.insert((args.channel, args.sender), contract_address),
                        ..s
                    },
                    ResponseView::with_data(
                        Ics20AckView::Result(AckDataView::Contract { contract_address }),
                    ),
                ),
            ),
        }
    } else {
        match out.data {
            None => settle_failure(s, args, kind, missing),
            Some(bytes) => Ok(
                (s, ResponseView::with_data(Ics20AckView::Result(AckDataView::Raw(bytes)))),
            ),
        }
    }
}

/// The state and the answer after a failure when the continuation is still
/// in its slot: without a continuation nothing can be settled.
pub open spec fn fail_spec(s: StateView, kind: ReplyKind, msg: Seq<char>) -> Result<
    (StateView, ResponseView),
    ErrorView,
> {
    match s.reply_args {
        None => Err(ErrorView::NoReplyArgs),
        Some(args) => settle_failure(StateView { reply_args: None, ..s }, args, kind, msg),
    }
}

/// The state and the answer after the host reported how a nested call went.
/// The identifier must be that of a kind of call the endpoint issues. A
/// success of a call of which only failures are reported changes nothing.
/// Every other outcome consumes the continuation, and is settled as a
/// success or as a failure; without a continuation it cannot be settled.
pub open spec fn reply_spec(s: StateView, reply: ReplyView) -> Result<
    (StateView, ResponseView),
    ErrorView,
> {
    match ReplyKind::spec_from_id(reply.id) {
        None => Err(ErrorView::UnknownReplyId { id: reply.id }),
        Some(kind) => match reply.result {
            Err(msg) => fail_spec(s, kind, msg),
            Ok(out) => if kind.spec_reply_on() == ReplyOn::Error {
                Ok((s, ResponseView::empty()))
            } else {
                match s.reply_args {
                    None => Err(ErrorView::NoReplyArgs),
                    Some(args) => settle_success(
                        StateView { reply_args: None, ..s },
                        args,
                        kind,
                        out,
                    ),
                }
            },
        },
    }
}

/// Whether the continuation after a nested call went as its transition
/// function says.
pub open spec fn reply_step(
    r: Result<Response, ContractError>,
    before: StateView,
    after: StateView,
    expected: Result<(StateView, ResponseView), ErrorView>,
) -> bool {
    match r {
        Ok(resp) => expected == Ok::<(StateView, ResponseView), ErrorView>((after, resp@)),
        Err(e) => expected == Err::<(StateView, ResponseView), ErrorView>(e@) && after == before,
    }
}

fn fail(state: &mut State, kind: ReplyKind, msg: String) -> (r: Result<Response, ContractError>)
    ensures
        reply_step(r, old(state)@, final(state)@, fail_spec(old(state)@, kind, msg@)),
{
    if kind.restores() {
        match restore_balance_reply(state) {
            Ok(()) => {},
            Err(e) => {
                return Err(e);
            },
        }
    } else {
        match state.take_reply_args() {
            Ok(_) => {},
            Err(e) => {
                return Err(e);
            },
        }
    }
    Ok(Response::new().set_data(ack_fail(msg)))
}

/// Goes on after a nested call: settles the ledger and the lockup accounts
/// by its outcome and gives the acknowledgement that replaces the one given
/// at receive. It issues no nested call.
pub fn reply(state: &mut State, _env: &Env, msg: Reply) -> (r: Result<Response, ContractError>)
    ensures
        reply_step(r, old(state)@, final(state)@, reply_spec(old(state)@, msg@)),
        r matches Ok(resp) ==> resp@.messages.len() == 0,
{
    let kind = match ReplyKind::from_id(msg.id) {
        Some(kind) => kind,
        None => {
            return Err(ContractError::UnknownReplyId { id: msg.id });
        },
    };
    let out = match msg.result {
        Ok(out) => out,
        Err(text) => {
            return fail(state, kind, text);
        },
    };
    match kind.reply_on() {
        ReplyOn::Error => {
            return Ok(Response::new());
        },
        ReplyOn::Always => {},
    }
    let (channel, sender) = match &state.reply_args {
        Some(args) => (args.channel.clone(), args.sender.clone()),
        None => {
            return Err(ContractError::NoReplyArgs);
        },
    };
    if kind.yields_amount() {
        match out.amount {
            Some(coin) => {
                match increase_channel_balance(state, &channel, &coin.denom, coin.amount) {
                    Ok(()) => {},
                    Err(e) => {
                        return Err(e);
                    },
                }
                state.reply_args = None;
                Ok(Response::new().set_data(ack_success_with_body(AckData::Amount(coin))))
            },
            None => fail(state, kind, ContractError::MissingReplyResult.message()),
        }
    } else if kind.id() == ReplyKind::CreateLockup.id() {
        match out.contract_address {
            Some(contract_address) => {
                state.lockups.insert(
                    crate::vec_map::Pair(channel, sender),
                    contract_address.clone(),
                );
                state.reply_args = None;
                Ok(
                    Response::new().set_data(
                        ack_success_with_body(AckData::Contract { contract_address }),
                    ),
                )
            },
            None => fail(state, kind, ContractError::MissingReplyResult.message()),
        }
    } else {
        match out.data {
            Some(bytes) => {
                state.reply_args = None;
                Ok(Response::new().set_data(ack_success_with_body(AckData::Raw(bytes))))
            },
            None => fail(state, kind, ContractError::MissingReplyResult.message()),
        }
    }
}

/// The event of a packet of this side that the other side has answered or
/// that timed out.
pub open spec fn acknowledge_attrs(msg: Ics20PacketView, success: Seq<char>) -> Seq<
    AttributeView,
> {
    seq![
        attr_view("action"@, "acknowledge"@),
        attr_view("sender"@, msg.sender),
        attr_view("receiver"@, msg.receiver),
        attr_view("denom"@, msg.denom),
        attr_view("amount"@, decimal(msg.amount as nat)),
        attr_view("success"@, success),
    ]
}

fn acknowledge_attributes(msg: &Ics20Packet, success: &str) -> (r: Vec<Attribute>)
    ensures
        r.deep_view() == acknowledge_attrs(msg@, success@),
{
    let mut v: Vec<Attribute> = Vec::new();
    v.push(attr("action", "acknowledge"));
    v.push(Attribute { key: String::from_str("sender"), value: msg.sender.clone() });
    v.push(Attribute { key: String::from_str("receiver"), value: msg.receiver.clone() });
    v.push(Attribute { key: String::from_str("denom"), value: msg.denom.clone() });
    v.push(Attribute { key: String::from_str("amount"), value: u128_to_string(msg.amount) });
    v.push(attr("success", success));
    assert(v.deep_view() =~= acknowledge_attrs(msg@, success@));
    v
}

/// The answer to the host when the other side has accepted a packet: the
/// event of the success and nothing else. The payload of the packet must
/// have been decoded.
pub open spec fn on_packet_success_spec(packet: IbcPacketView) -> Result<
    IbcBasicResponseView,
    ErrorView,
> {
    match packet.data {
        Err(msg) => Err(ErrorView::Std { msg }),
        Ok(msg) => Ok(
            IbcBasicResponseView {
                messages: Seq::empty(),
                attributes: acknowledge_attrs(msg, "true"@),
            },
        ),
    }
}

/// An answer to the host or the failure to give one, as a mathematical
/// value.
pub open spec fn basic_view(r: Result<IbcBasicResponse, ContractError>) -> Result<
    IbcBasicResponseView,
    ErrorView,
> {
    match r {
        Ok(resp) => Ok(resp@),
        Err(e) => Err(e@),
    }
}

/// Reports that the other side has accepted a packet.
pub fn on_packet_success(packet: IbcPacket) -> (r: Result<IbcBasicResponse, ContractError>)
    ensures
        basic_view(r) == on_packet_success_spec(packet@),
{
    let msg = match packet.data {
        Ok(msg) => msg,
        Err(e) => {
            return Err(ContractError::Std { msg: e });
        },
    };
    let attributes = acknowledge_attributes(&msg, "true");
    let resp = IbcBasicResponse { messages: Vec::new(), attributes };
    assert(resp@.messages =~= Seq::empty());
    Ok(resp)
}

/// The state and the answer after a packet of this side failed with the
/// reason `err`. The payload must have been decoded, and the escrow of the
/// channel the packet left by must cover its amount. Then the amount has
/// left the escrow, the slot holds the continuation, and the answer carries
/// the payout that gives the amount back to the sender, of which only a
/// failure is reported, and the event of the failure.
pub open spec fn on_packet_failure_spec(s: StateView, packet: IbcPacketView, err: Seq<char>) -> Result<
    (StateView, IbcBasicResponseView),
    ErrorView,
> {
    match packet.data {
        Err(msg) => Err(ErrorView::Std { msg }),
        Ok(msg) => {
            let channel = packet.src.channel_id;
            match s.debit((channel, msg.denom), msg.amount) {
                Err(e) => Err(e),
                Ok(debited) => match send_amount_spec(
                    AmountView::from_parts(msg.denom, msg.amount),
                    msg.sender,
                ) {
                    Err(e) => Err(e),
                    Ok(send) => Ok(
                        (
                            StateView {
                                reply_args: Some(
                                    ReplyArgsView {
                                        channel,
                                        denom: msg.denom,
                                        amount: msg.amount,
                                        sender: msg.sender,
                                    },
                                ),
                                ..debited
                            },
                            IbcBasicResponseView {
                                messages: seq![ReplyKind::AckFailure.spec_submsg(send)],
                                attributes: acknowledge_attrs(msg, "false"@).push(
                                    attr_view("error"@, err),
                                ),
                            },
                        ),
                    ),
                },
            }
        },
    }
}

/// Settles a packet of this side that failed: releases its escrow and gives
/// the amount back to the sender.
pub fn on_packet_failure(state: &mut State, packet: IbcPacket, err: String) -> (r: Result<
    IbcBasicResponse,
    ContractError,
>)
    ensures
        basic_step(
            r,
            old(state)@,
            final(state)@,
            on_packet_failure_spec(old(state)@, packet@, err@),
        ),
{
    let msg = match packet.data {
        Ok(msg) => msg,
        Err(e) => {
            return Err(ContractError::Std { msg: e });
        },
    };
    let channel = packet.src.channel_id;
    if state.channel_state(&channel, &msg.denom).outstanding < msg.amount {
        return Err(ContractError::InsufficientFunds);
    }
    let to_send = Amount::from_parts(msg.denom.clone(), msg.amount);
    let send = match send_amount(to_send, msg.sender.clone()) {
        Ok(send) => send,
        Err(e) => {
            return Err(e);
        },
    };
    match reduce_channel_balance(state, &channel, &msg.denom, msg.amount) {
        Ok(()) => {},
        Err(e) => {
            return Err(e);
        },
    }
    let mut attributes = acknowledge_attributes(&msg, "false");
    let ghost before = attributes.deep_view();
    attributes.push(Attribute { key: String::from_str("error"), value: err });
    assert(attributes.deep_view() =~= before.push(attr_view("error"@, err@)));
    let mut messages: Vec<SubMsg> = Vec::new();
    let submsg = ReplyKind::AckFailure.submsg(send);
    messages.push(submsg);
    assert(messages.deep_view() =~= seq![submsg@]);
    state.save_reply_args(
        ReplyArgs { channel, denom: msg.denom, amount: msg.amount, sender: msg.sender },
    );
    Ok(IbcBasicResponse { messages, attributes })
}

/// The state and the answer after the other side has answered a packet of
/// this side. The acknowledgement must have been decoded. A success is
/// reported and changes nothing; a failure is settled with its text as the
/// reason.
pub open spec fn packet_ack_spec(s: StateView, msg: IbcPacketAckMsgView) -> Result<
    (StateView, IbcBasicResponseView),
    ErrorView,
> {
    match msg.acknowledgement {
        Err(text) => Err(ErrorView::Std { msg: text }),
        Ok(Ics20AckView::Result(_)) => match on_packet_success_spec(msg.original_packet) {
            Err(e) => Err(e),
            Ok(resp) => Ok((s, resp)),
        },
        Ok(Ics20AckView::Error(err)) => on_packet_failure_spec(s, msg.original_packet, err),
    }
}

/// Handles the answer of the other side to a packet of this side.
pub fn ibc_packet_ack(state: &mut State, _env: &Env, msg: IbcPacketAckMsg) -> (r: Result<
    IbcBasicResponse,
    ContractError,
>)
    ensures
        basic_step(r, old(state)@, final(state)@, packet_ack_spec(old(state)@, msg@)),
        r matches Ok(resp) ==> resp@.messages.len() <= 1,
{
    let ics20msg = match msg.acknowledgement {
        Ok(ack) => ack,
        Err(e) => {
            return Err(ContractError::Std { msg: e });
        },
    };
    match ics20msg {
        Ics20Ack::Result(_) => on_packet_success(msg.original_packet),
        Ics20Ack::Error(err) => on_packet_failure(state, msg.original_packet, err),
    }
}

/// The reason that a timed-out packet fails with.
pub open spec fn timeout_reason() -> Seq<char> {
    "timeout"@
}

/// Handles a packet of this side that timed out: it is settled as a failure
/// with the reason `timeout`.
pub fn ibc_packet_timeout(state: &mut State, _env: &Env, msg: IbcPacketTimeoutMsg) -> (r: Result<
    IbcBasicResponse,
    ContractError,
>)
    ensures
        basic_step(
            r,
            old(state)@,
            final(state)@,
            on_packet_failure_spec(old(state)@, msg.packet@, timeout_reason()),
        ),
        r matches Ok(resp) ==> resp@.messages.len() == 1,
{
    on_packet_failure(state, msg.packet, String::from_str("timeout"))
}

} // verus!
