use ics20_swap::amount::{Amount, Coin};
use ics20_swap::continuation::{
    ACK_FAILURE_ID, CLAIM_TOKEN_ID, CREATE_LOCKUP_ID, EXIT_POOL_ID, JOIN_POOL_ID, LOCK_TOKEN_ID,
    RECEIVE_ID, SWAP_ID, UNLOCK_TOKEN_ID,
};
use ics20_swap::error::ContractError;
use ics20_swap::ibc::{
    ack_fail, ack_success, ack_success_with_body, enforce_order_and_version, ibc_channel_close,
    ibc_channel_connect, ibc_channel_open, ibc_packet_ack, ibc_packet_receive,
    ibc_packet_timeout, parse_voucher, reply, ICS20_ORDERING, ICS20_VERSION,
};
use ics20_swap::ibc_msg::{AckData, Ics20Ack, Ics20Packet, OsmoPacket, SwapPacket, Voucher};
use ics20_swap::msg::{
    Attribute, CosmosMsg, Env, IbcBasicResponse, IbcChannel, IbcChannelCloseMsg,
    IbcChannelConnectMsg, IbcChannelOpenMsg, IbcEndpoint, IbcOrder, IbcPacket, IbcPacketAckMsg,
    IbcPacketReceiveMsg, IbcPacketTimeoutMsg, Reply, ReplyOn, Response, SubMsg, SubMsgResponse,
};
use ics20_swap::proto::{
    MsgExitSwapShareAmountIn, MsgJoinSwapExternAmountIn, MsgSwapExactAmountIn, ProtoCoin,
    SwapAmountInRoute,
};
use ics20_swap::query::query_channel;
use ics20_swap::state::{
    increase_channel_balance, reduce_channel_balance, ChannelState, ReplyArgs, State,
};

const REMOTE_PORT: &str = "transfer";
const CONTRACT_PORT: &str = "wasm.cosmos2contract";
const CONNECTION: &str = "connection-2";
const CONTRACT: &str = "cosmos2contract";

fn env() -> Env {
    Env { contract: CONTRACT.to_string() }
}

fn mock_channel(channel_id: &str) -> IbcChannel {
    IbcChannel {
        endpoint: IbcEndpoint {
            port_id: CONTRACT_PORT.to_string(),
            channel_id: channel_id.to_string(),
        },
        counterparty_endpoint: IbcEndpoint {
            port_id: REMOTE_PORT.to_string(),
            channel_id: format!("{}5", channel_id),
        },
        order: ICS20_ORDERING,
        version: ICS20_VERSION.to_string(),
        connection_id: CONNECTION.to_string(),
    }
}

fn setup(channels: &[&str]) -> State {
    let mut state = State::new();
    for channel_id in channels {
        let open = IbcChannelOpenMsg { channel: mock_channel(channel_id), counterparty_version: None };
        ibc_channel_open(&state, &env(), &open).unwrap();
        let connect = IbcChannelConnectMsg {
            channel: mock_channel(channel_id),
            counterparty_version: Some(ICS20_VERSION.to_string()),
        };
        ibc_channel_connect(&mut state, &env(), connect).unwrap();
    }
    state
}

fn native_payment(amount: u128, denom: &str, recipient: &str) -> SubMsg {
    SubMsg::reply_on_error(
        CosmosMsg::Send {
            to_address: recipient.into(),
            amount: Coin { denom: denom.to_string(), amount },
        },
        RECEIVE_ID,
    )
}

fn mock_action_packet(
    my_channel: &str,
    amount: u128,
    denom: &str,
    receiver: &str,
    action: Option<OsmoPacket>,
) -> IbcPacket {
    let data = Ics20Packet {
        denom: format!("{}/{}/{}", REMOTE_PORT, "channel-1234", denom),
        amount,
        sender: "remote-sender".to_string(),
        receiver: receiver.to_string(),
        action,
    };
    IbcPacket {
        data: Ok(data),
        src: IbcEndpoint { port_id: REMOTE_PORT.to_string(), channel_id: "channel-1234".to_string() },
        dest: IbcEndpoint { port_id: CONTRACT_PORT.to_string(), channel_id: my_channel.to_string() },
    }
}

fn mock_receive_packet(my_channel: &str, amount: u128, denom: &str, receiver: &str) -> IbcPacket {
    mock_action_packet(my_channel, amount, denom, receiver, None)
}

fn mock_sent_packet(my_channel: &str, amount: u128, denom: &str, sender: &str) -> IbcPacket {
    let data = Ics20Packet {
        denom: denom.to_string(),
        amount,
        sender: sender.to_string(),
        receiver: "remote-rcpt".to_string(),
        action: None,
    };
    IbcPacket {
        data: Ok(data),
        src: IbcEndpoint { port_id: CONTRACT_PORT.to_string(), channel_id: my_channel.to_string() },
        dest: IbcEndpoint { port_id: REMOTE_PORT.to_string(), channel_id: "channel-1234".to_string() },
    }
}

fn balance(state: &State, channel: &str, denom: &str) -> u128 {
    state.channel_state(&channel.to_string(), &denom.to_string()).outstanding
}

fn ok_reply(id: u64, amount: Option<Coin>, contract_address: Option<&str>, data: Option<&[u8]>) -> Reply {
    Reply {
        id,
        result: Ok(SubMsgResponse {
            amount,
            contract_address: contract_address.map(|a| a.to_string()),
            data: data.map(|d| d.to_vec()),
        }),
    }
}

fn err_reply(id: u64, msg: &str) -> Reply {
    Reply { id, result: Err(msg.to_string()) }
}

fn attrs(pairs: &[(&str, &str)]) -> Vec<Attribute> {
    pairs
        .iter()
        .map(|(k, v)| Attribute { key: k.to_string(), value: v.to_string() })
        .collect()
}

#[test]
fn send_receive_native() {
    let send_channel = "channel-9";
    let mut deps = setup(&[send_channel]);

    let denom = "uatom";

    // prepare some mock packets
    let recv_packet = || mock_receive_packet(send_channel, 876543210, denom, "local-rcpt");
    let recv_high_packet = mock_receive_packet(send_channel, 1876543210, denom, "local-rcpt");

    // cannot receive this denom yet
    let msg = IbcPacketReceiveMsg { packet: recv_packet() };
    let res = ibc_packet_receive(&mut deps, &env(), msg);
    assert!(res.messages.is_empty());
    let ack: Ics20Ack = res.acknowledgement;
    let no_funds = Ics20Ack::Error(ContractError::InsufficientFunds {}.message());
    assert_eq!(ack, no_funds);

    // we transfer some tokens
    increase_channel_balance(&mut deps, &send_channel.to_string(), &denom.to_string(), 987654321)
        .unwrap();

    // query channel state
    let state = query_channel(&deps, send_channel.to_string()).unwrap();
    assert_eq!(state.balances, vec![Amount::native(987654321, denom)]);
    assert_eq!(state.total_sent, vec![Amount::native(987654321, denom)]);

    // cannot receive more than we sent
    let msg = IbcPacketReceiveMsg { packet: recv_high_packet };
    let res = ibc_packet_receive(&mut deps, &env(), msg);
    assert!(res.messages.is_empty());
    let ack: Ics20Ack = res.acknowledgement;
    assert_eq!(ack, no_funds);

    // we can receive less than we sent
    let msg = IbcPacketReceiveMsg { packet: recv_packet() };
    let res = ibc_packet_receive(&mut deps, &env(), msg);
    assert_eq!(1, res.messages.len());
    assert_eq!(native_payment(876543210, denom, "local-rcpt"), res.messages[0]);
    let ack: Ics20Ack = res.acknowledgement;
    assert!(matches!(ack, Ics20Ack::Result(_)));

    // only need to call reply block on error case

    // query channel state
    let state = query_channel(&deps, send_channel.to_string()).unwrap();
    assert_eq!(state.balances, vec![Amount::native(111111111, denom)]);
    assert_eq!(state.total_sent, vec![Amount::native(987654321, denom)]);
}

#[test]
fn insufficient_funds_is_acknowledged_and_changes_nothing() {
    let mut state = setup(&["channel-9"]);
    let packet = mock_receive_packet("channel-9", 1876543210, "uatom", "local-rcpt");
    let res = ibc_packet_receive(&mut state, &env(), IbcPacketReceiveMsg { packet });
    assert_eq!(res.acknowledgement, Ics20Ack::Error("insufficient funds".to_string()));
    assert!(res.messages.is_empty());
    assert_eq!(
        res.attributes,
        attrs(&[("action", "receive"), ("success", "false"), ("error", "insufficient funds")])
    );
    assert_eq!(balance(&state, "channel-9", "uatom"), 0);
    assert_eq!(state.reply_args, None);
}

#[test]
fn partial_receive_then_reply_success() {
    let mut state = setup(&["channel-9"]);
    increase_channel_balance(&mut state, &"channel-9".to_string(), &"uatom".to_string(), 987654321)
        .unwrap();
    let packet = mock_receive_packet("channel-9", 876543210, "uatom", "local-rcpt");
    let res = ibc_packet_receive(&mut state, &env(), IbcPacketReceiveMsg { packet });
    assert_eq!(balance(&state, "channel-9", "uatom"), 111111111);
    assert_eq!(res.messages, vec![native_payment(876543210, "uatom", "local-rcpt")]);
    assert_eq!(res.acknowledgement, ack_success());
    assert_eq!(
        res.attributes,
        attrs(&[
            ("action", "receive"),
            ("sender", "remote-sender"),
            ("receiver", "local-rcpt"),
            ("denom", "uatom"),
            ("amount", "876543210"),
            ("success", "true"),
        ])
    );
    assert_eq!(
        state.reply_args,
        Some(ReplyArgs {
            channel: "channel-9".to_string(),
            denom: "uatom".to_string(),
            amount: 876543210,
            sender: "remote-sender".to_string(),
        })
    );

    let res = reply(&mut state, &env(), ok_reply(RECEIVE_ID, None, None, None)).unwrap();
    assert_eq!(res, Response { data: None, messages: vec![] });
    assert_eq!(balance(&state, "channel-9", "uatom"), 111111111);
}

#[test]
fn payout_failure_restores_escrow() {
    let mut state = setup(&["channel-9"]);
    increase_channel_balance(&mut state, &"channel-9".to_string(), &"uatom".to_string(), 987654321)
        .unwrap();
    let packet = mock_receive_packet("channel-9", 876543210, "uatom", "local-rcpt");
    ibc_packet_receive(&mut state, &env(), IbcPacketReceiveMsg { packet });
    let res = reply(&mut state, &env(), err_reply(RECEIVE_ID, "no such account")).unwrap();
    assert_eq!(res.data, Some(ack_fail("no such account".to_string())));
    assert!(res.messages.is_empty());
    assert_eq!(
        state.channel_state(&"channel-9".to_string(), &"uatom".to_string()),
        ChannelState { outstanding: 987654321, total_sent: 987654321 }
    );
    assert_eq!(state.reply_args, None);
}

fn swap_action() -> OsmoPacket {
    OsmoPacket::Swap(SwapPacket {
        routes: vec![SwapAmountInRoute { pool_id: 1, token_out_denom: "uosmo".to_string() }],
        token_out_min_amount: 1,
    })
}

#[test]
fn swap_reply_updates_ledger() {
    let mut state = setup(&["channel-9"]);
    increase_channel_balance(&mut state, &"channel-9".to_string(), &"uatom".to_string(), 987654321)
        .unwrap();
    let packet = mock_action_packet("channel-9", 876543210, "uatom", "local-rcpt", Some(swap_action()));
    let res = ibc_packet_receive(&mut state, &env(), IbcPacketReceiveMsg { packet });
    assert_eq!(res.acknowledgement, ack_success());
    assert_eq!(
        res.messages,
        vec![SubMsg {
            id: SWAP_ID,
            msg: CosmosMsg::Swap(MsgSwapExactAmountIn {
                sender: CONTRACT.to_string(),
                routes: vec![SwapAmountInRoute { pool_id: 1, token_out_denom: "uosmo".to_string() }],
                token_in: ProtoCoin { denom: "uatom".to_string(), amount: "876543210".to_string() },
                token_out_min_amount: "1".to_string(),
            }),
            reply_on: ReplyOn::Always,
        }]
    );
    assert_eq!(
        res.attributes,
        attrs(&[
            ("action", "swap_receive"),
            ("sender", "remote-sender"),
            ("denom", "uatom"),
            ("amount", "876543210"),
            ("success", "true"),
        ])
    );
    assert_eq!(balance(&state, "channel-9", "uatom"), 111111111);

    let out = Coin { denom: "uosmo".to_string(), amount: 36601070 };
    let res = reply(&mut state, &env(), ok_reply(SWAP_ID, Some(out.clone()), None, None)).unwrap();
    assert_eq!(res.data, Some(Ics20Ack::Result(AckData::Amount(out))));
    assert!(res.messages.is_empty());
    assert_eq!(
        state.channel_state(&"channel-9".to_string(), &"uosmo".to_string()),
        ChannelState { outstanding: 36601070, total_sent: 36601070 }
    );
    assert_eq!(balance(&state, "channel-9", "uatom"), 111111111);
    assert_eq!(state.reply_args, None);
}

#[test]
fn swap_reply_without_amount_is_a_failure() {
    let mut state = setup(&["channel-9"]);
    increase_channel_balance(&mut state, &"channel-9".to_string(), &"uatom".to_string(), 1000)
        .unwrap();
    let packet = mock_action_packet("channel-9", 400, "uatom", "local-rcpt", Some(swap_action()));
    ibc_packet_receive(&mut state, &env(), IbcPacketReceiveMsg { packet });
    assert_eq!(balance(&state, "channel-9", "uatom"), 600);
    let res = reply(&mut state, &env(), ok_reply(SWAP_ID, None, None, None)).unwrap();
    assert_eq!(res.data, Some(Ics20Ack::Error("nested call gave no result".to_string())));
    assert_eq!(balance(&state, "channel-9", "uatom"), 1000);
}

#[test]
fn lockup_double_create_rejected() {
    let mut state = setup(&["channel-9"]);
    let create = || {
        mock_action_packet("channel-9", 0, "uatom", "local-rcpt", Some(OsmoPacket::LockupAccount))
    };
    let res = ibc_packet_receive(&mut state, &env(), IbcPacketReceiveMsg { packet: create() });
    assert_eq!(res.acknowledgement, ack_success());
    assert_eq!(
        res.messages,
        vec![SubMsg {
            id: CREATE_LOCKUP_ID,
            msg: CosmosMsg::CreateLockup {
                admin: CONTRACT.to_string(),
                channel: "channel-9".to_string(),
                sender: "remote-sender".to_string(),
            },
            reply_on: ReplyOn::Always,
        }]
    );
    let res =
        reply(&mut state, &env(), ok_reply(CREATE_LOCKUP_ID, None, Some("lockup-1"), None)).unwrap();
    assert_eq!(
        res.data,
        Some(Ics20Ack::Result(AckData::Contract { contract_address: "lockup-1".to_string() }))
    );
    assert_eq!(
        state.lockups.get(&ics20_swap::vec_map::Pair(
            "channel-9".to_string(),
            "remote-sender".to_string()
        )),
        Some(&"lockup-1".to_string())
    );

    let res = ibc_packet_receive(&mut state, &env(), IbcPacketReceiveMsg { packet: create() });
    assert_eq!(
        res.acknowledgement,
        Ics20Ack::Error(ContractError::OnlyLockupByChannel.message())
    );
    assert!(res.messages.is_empty());
}

#[test]
fn create_lockup_with_value_is_non_payable() {
    let mut state = setup(&["channel-9"]);
    increase_channel_balance(&mut state, &"channel-9".to_string(), &"uatom".to_string(), 10).unwrap();
    let packet =
        mock_action_packet("channel-9", 5, "uatom", "local-rcpt", Some(OsmoPacket::LockupAccount));
    let res = ibc_packet_receive(&mut state, &env(), IbcPacketReceiveMsg { packet });
    assert_eq!(res.acknowledgement, Ics20Ack::Error("action requires zero value".to_string()));
    assert!(res.messages.is_empty());
    assert_eq!(balance(&state, "channel-9", "uatom"), 10);
}

#[test]
fn create_lockup_failure_changes_no_balance() {
    let mut state = setup(&["channel-9"]);
    let packet =
        mock_action_packet("channel-9", 0, "uatom", "local-rcpt", Some(OsmoPacket::LockupAccount));
    ibc_packet_receive(&mut state, &env(), IbcPacketReceiveMsg { packet });
    let res = reply(&mut state, &env(), err_reply(CREATE_LOCKUP_ID, "no code")).unwrap();
    assert_eq!(res.data, Some(Ics20Ack::Error("no code".to_string())));
    assert_eq!(balance(&state, "channel-9", "uatom"), 0);
    assert_eq!(state.lockups.len(), 0);
}

#[test]
fn nested_call_failure_restores_escrow() {
    let mut state = setup(&["channel-9"]);
    increase_channel_balance(&mut state, &"channel-9".to_string(), &"uosmo".to_string(), 5000)
        .unwrap();
    let action = OsmoPacket::JoinPool { pool_id: 3, share_out_min_amount: 7 };
    let packet = mock_action_packet("channel-9", 1000, "uosmo", "local-rcpt", Some(action));
    let res = ibc_packet_receive(&mut state, &env(), IbcPacketReceiveMsg { packet });
    assert_eq!(
        res.messages,
        vec![SubMsg {
            id: JOIN_POOL_ID,
            msg: CosmosMsg::JoinPool(MsgJoinSwapExternAmountIn {
                sender: CONTRACT.to_string(),
                pool_id: 3,
                token_in: ProtoCoin { denom: "uosmo".to_string(), amount: "1000".to_string() },
                share_out_min_amount: "7".to_string(),
            }),
            reply_on: ReplyOn::Always,
        }]
    );
    assert_eq!(balance(&state, "channel-9", "uosmo"), 4000);

    let res = reply(&mut state, &env(), err_reply(JOIN_POOL_ID, "slippage exceeded")).unwrap();
    assert_eq!(res.data, Some(Ics20Ack::Error("slippage exceeded".to_string())));
    assert_eq!(balance(&state, "channel-9", "uosmo"), 5000);
}

#[test]
fn exit_pool_reads_the_pool_from_the_denomination() {
    let mut state = setup(&["channel-9"]);
    increase_channel_balance(&mut state, &"channel-9".to_string(), &"gamm-pool-42".to_string(), 90)
        .unwrap();
    let action =
        OsmoPacket::ExitPool { token_out_denom: "uosmo".to_string(), token_out_min_amount: 3 };
    let packet = mock_action_packet("channel-9", 60, "gamm-pool-42", "local-rcpt", Some(action));
    let res = ibc_packet_receive(&mut state, &env(), IbcPacketReceiveMsg { packet });
    assert_eq!(
        res.messages,
        vec![SubMsg {
            id: EXIT_POOL_ID,
            msg: CosmosMsg::ExitPool(MsgExitSwapShareAmountIn {
                sender: CONTRACT.to_string(),
                pool_id: 42,
                token_out_denom: "uosmo".to_string(),
                share_in_amount: "60".to_string(),
                token_out_min_amount: "3".to_string(),
            }),
            reply_on: ReplyOn::Always,
        }]
    );
    assert_eq!(balance(&state, "channel-9", "gamm-pool-42"), 30);
}

#[test]
fn exit_pool_refuses_other_denominations() {
    let mut state = setup(&["channel-9"]);
    increase_channel_balance(&mut state, &"channel-9".to_string(), &"uatom".to_string(), 90).unwrap();
    let action =
        OsmoPacket::ExitPool { token_out_denom: "uosmo".to_string(), token_out_min_amount: 3 };
    let packet = mock_action_packet("channel-9", 60, "uatom", "local-rcpt", Some(action));
    let res = ibc_packet_receive(&mut state, &env(), IbcPacketReceiveMsg { packet });
    assert_eq!(
        res.acknowledgement,
        Ics20Ack::Error("not a pool share denomination: uatom".to_string())
    );
    assert_eq!(balance(&state, "channel-9", "uatom"), 90);
}

fn with_lockup(state: &mut State) {
    let packet =
        mock_action_packet("channel-9", 0, "uatom", "local-rcpt", Some(OsmoPacket::LockupAccount));
    ibc_packet_receive(state, &env(), IbcPacketReceiveMsg { packet });
    reply(state, &env(), ok_reply(CREATE_LOCKUP_ID, None, Some("lockup-1"), None)).unwrap();
}

#[test]
fn lock_needs_a_lockup_account() {
    let mut state = setup(&["channel-9"]);
    increase_channel_balance(&mut state, &"channel-9".to_string(), &"uatom".to_string(), 90).unwrap();
    let packet = mock_action_packet(
        "channel-9",
        60,
        "uatom",
        "local-rcpt",
        Some(OsmoPacket::Lock { duration: 86400 }),
    );
    let res = ibc_packet_receive(&mut state, &env(), IbcPacketReceiveMsg { packet });
    assert_eq!(res.acknowledgement, Ics20Ack::Error(ContractError::LockupNotFound.message()));
    assert_eq!(balance(&state, "channel-9", "uatom"), 90);
}

#[test]
fn lock_forwards_funds_and_passes_the_reply_through() {
    let mut state = setup(&["channel-9"]);
    with_lockup(&mut state);
    increase_channel_balance(&mut state, &"channel-9".to_string(), &"uatom".to_string(), 90).unwrap();
    let packet = mock_action_packet(
        "channel-9",
        60,
        "uatom",
        "local-rcpt",
        Some(OsmoPacket::Lock { duration: 86400 }),
    );
    let res = ibc_packet_receive(&mut state, &env(), IbcPacketReceiveMsg { packet });
    assert_eq!(
        res.messages,
        vec![SubMsg {
            id: LOCK_TOKEN_ID,
            msg: CosmosMsg::Lock {
                contract_addr: "lockup-1".to_string(),
                funds: Coin { denom: "uatom".to_string(), amount: 60 },
                duration: 86400,
            },
            reply_on: ReplyOn::Always,
        }]
    );
    assert_eq!(balance(&state, "channel-9", "uatom"), 30);
    let res =
        reply(&mut state, &env(), ok_reply(LOCK_TOKEN_ID, None, None, Some(b"lock-7"))).unwrap();
    assert_eq!(res.data, Some(ack_success_with_body(AckData::Raw(b"lock-7".to_vec()))));
    assert_eq!(balance(&state, "channel-9", "uatom"), 30);
}

#[test]
fn lock_failure_restores_escrow() {
    let mut state = setup(&["channel-9"]);
    with_lockup(&mut state);
    increase_channel_balance(&mut state, &"channel-9".to_string(), &"uatom".to_string(), 90).unwrap();
    let packet = mock_action_packet(
        "channel-9",
        60,
        "uatom",
        "local-rcpt",
        Some(OsmoPacket::Lock { duration: 86400 }),
    );
    ibc_packet_receive(&mut state, &env(), IbcPacketReceiveMsg { packet });
    let res = reply(&mut state, &env(), err_reply(LOCK_TOKEN_ID, "too short")).unwrap();
    assert_eq!(res.data, Some(Ics20Ack::Error("too short".to_string())));
    assert_eq!(balance(&state, "channel-9", "uatom"), 90);
}

#[test]
fn claim_and_unlock_go_to_the_lockup_account() {
    let mut state = setup(&["channel-9"]);
    with_lockup(&mut state);
    let packet = mock_action_packet(
        "channel-9",
        0,
        "uatom",
        "local-rcpt",
        Some(OsmoPacket::Claim { denom: "uosmo".to_string() }),
    );
    let res = ibc_packet_receive(&mut state, &env(), IbcPacketReceiveMsg { packet });
    assert_eq!(
        res.messages,
        vec![SubMsg {
            id: CLAIM_TOKEN_ID,
            msg: CosmosMsg::Claim { contract_addr: "lockup-1".to_string(), denom: "uosmo".to_string() },
            reply_on: ReplyOn::Always,
        }]
    );
    let out = Coin { denom: "uosmo".to_string(), amount: 12 };
    let res = reply(&mut state, &env(), ok_reply(CLAIM_TOKEN_ID, Some(out.clone()), None, None)).unwrap();
    assert_eq!(res.data, Some(Ics20Ack::Result(AckData::Amount(out))));
    assert_eq!(balance(&state, "channel-9", "uosmo"), 12);

    let packet =
        mock_action_packet("channel-9", 0, "uatom", "local-rcpt", Some(OsmoPacket::Unlock { id: 7 }));
    let res = ibc_packet_receive(&mut state, &env(), IbcPacketReceiveMsg { packet });
    assert_eq!(
        res.messages,
        vec![SubMsg {
            id: UNLOCK_TOKEN_ID,
            msg: CosmosMsg::Unlock { contract_addr: "lockup-1".to_string(), id: 7 },
            reply_on: ReplyOn::Error,
        }]
    );
    let res = reply(&mut state, &env(), ok_reply(UNLOCK_TOKEN_ID, None, None, None)).unwrap();
    assert_eq!(res.data, None);
    let res = reply(&mut state, &env(), err_reply(UNLOCK_TOKEN_ID, "not yours")).unwrap();
    assert_eq!(res.data, Some(Ics20Ack::Error("not yours".to_string())));
    assert_eq!(balance(&state, "channel-9", "uatom"), 0);
}

#[test]
fn claim_with_value_is_non_payable() {
    let mut state = setup(&["channel-9"]);
    with_lockup(&mut state);
    increase_channel_balance(&mut state, &"channel-9".to_string(), &"uatom".to_string(), 9).unwrap();
    let packet = mock_action_packet(
        "channel-9",
        1,
        "uatom",
        "local-rcpt",
        Some(OsmoPacket::Claim { denom: "uosmo".to_string() }),
    );
    let res = ibc_packet_receive(&mut state, &env(), IbcPacketReceiveMsg { packet });
    assert_eq!(res.acknowledgement, Ics20Ack::Error(ContractError::NonPayable.message()));
    assert_eq!(balance(&state, "channel-9", "uatom"), 9);
}

#[test]
fn undecoded_payload_is_acknowledged_as_error() {
    let mut state = setup(&["channel-9"]);
    let packet = IbcPacket {
        data: Err("Error parsing into type Ics20Packet".to_string()),
        src: IbcEndpoint { port_id: REMOTE_PORT.to_string(), channel_id: "channel-1234".to_string() },
        dest: IbcEndpoint { port_id: CONTRACT_PORT.to_string(), channel_id: "channel-9".to_string() },
    };
    let res = ibc_packet_receive(&mut state, &env(), IbcPacketReceiveMsg { packet });
    assert_eq!(
        res.acknowledgement,
        Ics20Ack::Error("Error parsing into type Ics20Packet".to_string())
    );
    assert!(res.messages.is_empty());
}

#[test]
fn reply_with_unknown_id_is_fatal() {
    let mut state = setup(&["channel-9"]);
    let err = reply(&mut state, &env(), ok_reply(4711, None, None, None)).unwrap_err();
    assert_eq!(err, ContractError::UnknownReplyId { id: 4711 });
    assert_eq!(err.message(), "unknown reply id: 4711");
}

#[test]
fn reply_without_continuation_is_fatal() {
    let mut state = setup(&["channel-9"]);
    let err = reply(&mut state, &env(), err_reply(SWAP_ID, "boom")).unwrap_err();
    assert_eq!(err, ContractError::NoReplyArgs);
    let out = Coin { denom: "uosmo".to_string(), amount: 1 };
    let err = reply(&mut state, &env(), ok_reply(SWAP_ID, Some(out), None, None)).unwrap_err();
    assert_eq!(err, ContractError::NoReplyArgs);
}

#[test]
fn reply_credit_overflow_is_fatal_and_changes_nothing() {
    let mut state = setup(&["channel-9"]);
    increase_channel_balance(&mut state, &"channel-9".to_string(), &"uosmo".to_string(), u128::MAX)
        .unwrap();
    increase_channel_balance(&mut state, &"channel-9".to_string(), &"uatom".to_string(), 10).unwrap();
    let packet = mock_action_packet("channel-9", 10, "uatom", "local-rcpt", Some(swap_action()));
    ibc_packet_receive(&mut state, &env(), IbcPacketReceiveMsg { packet });
    let args = state.reply_args.clone();
    let out = Coin { denom: "uosmo".to_string(), amount: 1 };
    let err = reply(&mut state, &env(), ok_reply(SWAP_ID, Some(out), None, None)).unwrap_err();
    assert_eq!(err, ContractError::Overflow);
    assert_eq!(state.reply_args, args);
    assert_eq!(balance(&state, "channel-9", "uosmo"), u128::MAX);
}

#[test]
fn ack_success_reports_and_changes_nothing() {
    let mut state = setup(&["channel-9"]);
    increase_channel_balance(&mut state, &"channel-9".to_string(), &"uatom".to_string(), 500).unwrap();
    let msg = IbcPacketAckMsg {
        acknowledgement: Ok(ack_success()),
        original_packet: mock_sent_packet("channel-9", 200, "uatom", "local-sender"),
    };
    let res = ibc_packet_ack(&mut state, &env(), msg).unwrap();
    assert!(res.messages.is_empty());
    assert_eq!(
        res.attributes,
        attrs(&[
            ("action", "acknowledge"),
            ("sender", "local-sender"),
            ("receiver", "remote-rcpt"),
            ("denom", "uatom"),
            ("amount", "200"),
            ("success", "true"),
        ])
    );
    assert_eq!(balance(&state, "channel-9", "uatom"), 500);
}

#[test]
fn ack_error_releases_escrow_and_pays_the_sender() {
    let mut state = setup(&["channel-9"]);
    increase_channel_balance(&mut state, &"channel-9".to_string(), &"uatom".to_string(), 500).unwrap();
    let msg = IbcPacketAckMsg {
        acknowledgement: Ok(ack_fail("bad coin".to_string())),
        original_packet: mock_sent_packet("channel-9", 200, "uatom", "local-sender"),
    };
    let res = ibc_packet_ack(&mut state, &env(), msg).unwrap();
    assert_eq!(
        res.messages,
        vec![SubMsg {
            id: ACK_FAILURE_ID,
            msg: CosmosMsg::Send {
                to_address: "local-sender".to_string(),
                amount: Coin { denom: "uatom".to_string(), amount: 200 },
            },
            reply_on: ReplyOn::Error,
        }]
    );
    assert_eq!(
        res.attributes,
        attrs(&[
            ("action", "acknowledge"),
            ("sender", "local-sender"),
            ("receiver", "remote-rcpt"),
            ("denom", "uatom"),
            ("amount", "200"),
            ("success", "false"),
            ("error", "bad coin"),
        ])
    );
    assert_eq!(balance(&state, "channel-9", "uatom"), 300);

    // the payout fails: the escrow is restored
    let res = reply(&mut state, &env(), err_reply(ACK_FAILURE_ID, "blocked")).unwrap();
    assert_eq!(res.data, Some(Ics20Ack::Error("blocked".to_string())));
    assert_eq!(balance(&state, "channel-9", "uatom"), 500);
}

#[test]
fn timeout_is_settled_like_an_error() {
    let mut state = setup(&["channel-9"]);
    increase_channel_balance(&mut state, &"channel-9".to_string(), &"uatom".to_string(), 500).unwrap();
    let msg = IbcPacketTimeoutMsg { packet: mock_sent_packet("channel-9", 200, "uatom", "local-sender") };
    let res = ibc_packet_timeout(&mut state, &env(), msg).unwrap();
    assert_eq!(res.messages.len(), 1);
    assert_eq!(res.messages[0].id, ACK_FAILURE_ID);
    assert_eq!(res.attributes[6], Attribute { key: "error".to_string(), value: "timeout".to_string() });
    assert_eq!(balance(&state, "channel-9", "uatom"), 300);
}

#[test]
fn ack_error_without_escrow_fails_and_changes_nothing() {
    let mut state = setup(&["channel-9"]);
    let msg = IbcPacketAckMsg {
        acknowledgement: Ok(ack_fail("bad coin".to_string())),
        original_packet: mock_sent_packet("channel-9", 200, "uatom", "local-sender"),
    };
    let err = ibc_packet_ack(&mut state, &env(), msg).unwrap_err();
    assert_eq!(err, ContractError::InsufficientFunds);
    let msg = IbcPacketAckMsg {
        acknowledgement: Err("not an acknowledgement".to_string()),
        original_packet: mock_sent_packet("channel-9", 200, "uatom", "local-sender"),
    };
    let err = ibc_packet_ack(&mut state, &env(), msg).unwrap_err();
    assert_eq!(err, ContractError::Std { msg: "not an acknowledgement".to_string() });
}

#[test]
fn cw20_payout_calls_the_token_contract() {
    let mut state = setup(&["channel-9"]);
    increase_channel_balance(&mut state, &"channel-9".to_string(), &"cw20:token-addr".to_string(), 500)
        .unwrap();
    let packet = mock_receive_packet("channel-9", 123, "cw20:token-addr", "local-rcpt");
    let res = ibc_packet_receive(&mut state, &env(), IbcPacketReceiveMsg { packet });
    assert_eq!(
        res.messages,
        vec![SubMsg {
            id: RECEIVE_ID,
            msg: CosmosMsg::Execute {
                contract_addr: "token-addr".to_string(),
                msg: br#"{"transfer":{"recipient":"local-rcpt","amount":"123"}}"#.to_vec(),
            },
            reply_on: ReplyOn::Error,
        }]
    );
    assert_eq!(balance(&state, "channel-9", "cw20:token-addr"), 377);
}

#[test]
fn handshake_checks_version_and_order() {
    let good = mock_channel("channel-3");
    assert_eq!(enforce_order_and_version(&good, &None), Ok(()));
    assert_eq!(enforce_order_and_version(&good, &Some("ics20-1".to_string())), Ok(()));

    let mut wrong_version = mock_channel("channel-3");
    wrong_version.version = "reflect".to_string();
    assert_eq!(
        enforce_order_and_version(&wrong_version, &Some("ics20-2".to_string())),
        Err(ContractError::InvalidIbcVersion { version: "reflect".to_string() })
    );
    assert_eq!(
        enforce_order_and_version(&good, &Some("ics20-2".to_string())),
        Err(ContractError::InvalidIbcVersion { version: "ics20-2".to_string() })
    );
    let mut ordered = mock_channel("channel-3");
    ordered.order = IbcOrder::Ordered;
    assert_eq!(enforce_order_and_version(&ordered, &None), Err(ContractError::OnlyOrderedChannel));
}

#[test]
fn second_channel_is_refused() {
    let state = setup(&["channel-9"]);
    assert!(state.config.init_channel);
    let open = IbcChannelOpenMsg { channel: mock_channel("channel-10"), counterparty_version: None };
    assert_eq!(ibc_channel_open(&state, &env(), &open), Err(ContractError::OnlyOneChannel));
    let info = query_channel(&state, "channel-9".to_string()).unwrap().info;
    assert_eq!(info.id, "channel-9");
    assert_eq!(info.connection_id, CONNECTION);
    assert_eq!(info.counterparty_endpoint.channel_id, "channel-95");
    assert_eq!(
        query_channel(&state, "channel-10".to_string()),
        Err(ContractError::NoSuchChannel { channel: "channel-10".to_string() })
    );
}

#[test]
fn connect_refuses_a_wrong_version_and_records_nothing() {
    let mut state = State::new();
    let connect = IbcChannelConnectMsg {
        channel: mock_channel("channel-9"),
        counterparty_version: Some("ics20-9".to_string()),
    };
    assert_eq!(
        ibc_channel_connect(&mut state, &env(), connect),
        Err(ContractError::InvalidIbcVersion { version: "ics20-9".to_string() })
    );
    assert!(!state.config.init_channel);
    assert_eq!(state.channels.len(), 0);
}

#[test]
fn only_the_other_side_may_close() {
    let state = setup(&["channel-9"]);
    assert_eq!(
        ibc_channel_close(&state, &env(), IbcChannelCloseMsg::CloseConfirm),
        Ok(IbcBasicResponse { messages: vec![], attributes: vec![] })
    );
    assert_eq!(
        ibc_channel_close(&state, &env(), IbcChannelCloseMsg::CloseInit),
        Err(ContractError::CannotClose)
    );
}

fn remote() -> IbcEndpoint {
    IbcEndpoint { port_id: "transfer".to_string(), channel_id: "channel-1234".to_string() }
}

#[test]
fn voucher_of_three_parts_is_read() {
    assert_eq!(
        parse_voucher("transfer/channel-1234/uatom".to_string(), &remote()),
        Ok(Voucher { denom: "uatom".to_string() })
    );
    assert_eq!(
        parse_voucher("transfer/channel-1234/".to_string(), &remote()),
        Ok(Voucher { denom: "".to_string() })
    );
}

#[test]
fn voucher_of_fewer_or_more_parts_is_refused() {
    for denom in ["uatom", "", "transfer/uatom", "transfer/channel-1234/gamm/pool", "a/b/c/d/e"] {
        assert_eq!(
            parse_voucher(denom.to_string(), &remote()),
            Err(ContractError::NoForeignTokens),
            "{}",
            denom
        );
    }
}

#[test]
fn voucher_of_another_port_or_channel_is_refused() {
    assert_eq!(
        parse_voucher("other/channel-1234/uatom".to_string(), &remote()),
        Err(ContractError::FromOtherPort { port: "other".to_string() })
    );
    assert_eq!(
        parse_voucher("transfer/channel-5/uatom".to_string(), &remote()),
        Err(ContractError::FromOtherChannel { channel: "channel-5".to_string() })
    );
    // the port is looked at first
    assert_eq!(
        parse_voucher("other/channel-5/uatom".to_string(), &remote()),
        Err(ContractError::FromOtherPort { port: "other".to_string() })
    );
    assert_eq!(
        ContractError::FromOtherPort { port: "other".to_string() }.message(),
        "wrong port: other"
    );
    assert_eq!(
        ContractError::FromOtherChannel { channel: "channel-5".to_string() }.message(),
        "wrong channel: channel-5"
    );
}

#[test]
fn ledger_debit_and_credit() {
    let mut state = State::new();
    let c = "channel-1".to_string();
    let d = "uatom".to_string();
    assert_eq!(reduce_channel_balance(&mut state, &c, &d, 0), Ok(()));
    assert_eq!(state.balances.len(), 0);
    assert_eq!(reduce_channel_balance(&mut state, &c, &d, 1), Err(ContractError::InsufficientFunds));
    assert_eq!(increase_channel_balance(&mut state, &c, &d, 10), Ok(()));
    assert_eq!(increase_channel_balance(&mut state, &c, &d, 5), Ok(()));
    assert_eq!(reduce_channel_balance(&mut state, &c, &d, 4), Ok(()));
    assert_eq!(state.channel_state(&c, &d), ChannelState { outstanding: 11, total_sent: 15 });
    assert_eq!(reduce_channel_balance(&mut state, &c, &d, 12), Err(ContractError::InsufficientFunds));
    assert_eq!(state.channel_state(&c, &d), ChannelState { outstanding: 11, total_sent: 15 });
    assert_eq!(
        increase_channel_balance(&mut state, &c, &d, u128::MAX - 14),
        Err(ContractError::Overflow)
    );
    assert_eq!(state.channel_state(&c, &d), ChannelState { outstanding: 11, total_sent: 15 });
    // another denomination and another channel are other accounts
    assert_eq!(state.channel_state(&c, &"uosmo".to_string()).outstanding, 0);
    assert_eq!(state.channel_state(&"channel-2".to_string(), &d).outstanding, 0);
}

#[test]
fn escrow_is_conserved_over_a_run() {
    // credits less debits is the balance after every event
    let mut state = setup(&["channel-9"]);
    let mut credits: u128 = 0;
    let mut debits: u128 = 0;
    let check = |state: &State, credits: u128, debits: u128| {
        assert_eq!(balance(state, "channel-9", "uatom"), credits - debits);
    };
    increase_channel_balance(&mut state, &"channel-9".to_string(), &"uatom".to_string(), 1000).unwrap();
    credits += 1000;
    check(&state, credits, debits);

    let packet = mock_receive_packet("channel-9", 300, "uatom", "local-rcpt");
    ibc_packet_receive(&mut state, &env(), IbcPacketReceiveMsg { packet });
    debits += 300;
    check(&state, credits, debits);

    reply(&mut state, &env(), err_reply(RECEIVE_ID, "failed")).unwrap();
    credits += 300;
    check(&state, credits, debits);

    let packet = mock_receive_packet("channel-9", 5000, "uatom", "local-rcpt");
    ibc_packet_receive(&mut state, &env(), IbcPacketReceiveMsg { packet });
    check(&state, credits, debits);

    let msg = IbcPacketTimeoutMsg { packet: mock_sent_packet("channel-9", 250, "uatom", "local-sender") };
    ibc_packet_timeout(&mut state, &env(), msg).unwrap();
    debits += 250;
    check(&state, credits, debits);

    let msg = IbcPacketAckMsg {
        acknowledgement: Ok(ack_fail("no".to_string())),
        original_packet: mock_sent_packet("channel-9", 750, "uatom", "local-sender"),
    };
    ibc_packet_ack(&mut state, &env(), msg).unwrap();
    debits += 750;
    check(&state, credits, debits);
    assert_eq!(balance(&state, "channel-9", "uatom"), 0);
}

#[test]
fn new_state_holds_nothing() {
    let state = State::new();
    assert!(!state.config.init_channel);
    assert_eq!(state.channels.len(), 0);
    assert_eq!(state.balances.len(), 0);
    assert_eq!(state.lockups.len(), 0);
    assert_eq!(state.reply_args, None);
    assert_eq!(
        state.channel_state(&"channel-9".to_string(), &"uatom".to_string()),
        ChannelState { outstanding: 0, total_sent: 0 }
    );
    assert_eq!(
        query_channel(&state, "channel-9".to_string()),
        Err(ContractError::NoSuchChannel { channel: "channel-9".to_string() })
    );
}
