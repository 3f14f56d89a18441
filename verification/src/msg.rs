//! What the host hands to the handlers and what it takes back from them.

use vstd::prelude::*;
use vstd::string::*;
use crate::amount::{Coin, CoinView};
use crate::ibc_msg::{Ics20Ack, Ics20AckView, Ics20Packet, Ics20PacketView};
use crate::proto::{
    MsgExitSwapShareAmountIn,
    MsgExitSwapShareAmountInView,
    MsgJoinSwapExternAmountIn,
    MsgJoinSwapExternAmountInView,
    MsgSwapExactAmountIn,
    MsgSwapExactAmountInView,
};

verus! {

/// One end of a channel.
#[derive(Debug, Clone, PartialEq, Eq)]
pub struct IbcEndpoint {
    pub port_id: String,
    pub channel_id: String,
}

pub struct IbcEndpointView {
    pub port_id: Seq<char>,
    pub channel_id: Seq<char>,
}

impl View for IbcEndpoint {
    type V = IbcEndpointView;

    open spec fn view(&self) -> IbcEndpointView {
        IbcEndpointView { port_id: self.port_id@, channel_id: self.channel_id@ }
    }
}

/// Whether a channel delivers its packets in order.
#[derive(Debug, Clone, Copy, PartialEq, Eq, Structural)]
pub enum IbcOrder {
    Unordered,
    Ordered,
}

/// A channel as the handshake presents it.
#[derive(Debug, Clone, PartialEq, Eq)]
pub struct IbcChannel {
    pub endpoint: IbcEndpoint,
    pub counterparty_endpoint: IbcEndpoint,
    pub order: IbcOrder,
    pub version: String,
    pub connection_id: String,
}

pub struct IbcChannelView {
    pub endpoint: IbcEndpointView,
    pub counterparty_endpoint: IbcEndpointView,
    pub order: IbcOrder,
    pub version: Seq<char>,
    pub connection_id: Seq<char>,
}

impl View for IbcChannel {
    type V = IbcChannelView;

    open spec fn view(&self) -> IbcChannelView {
        IbcChannelView {
            endpoint: self.endpoint@,
            counterparty_endpoint: self.counterparty_endpoint@,
            order: self.order,
            version: self.version@,
            connection_id: self.connection_id@,
        }
    }
}

/// A channel at a step of its handshake, with the version that the other
/// side gave, where it has given one.
pub struct HandshakeView {
    pub channel: IbcChannelView,
    pub counterparty_version: Option<Seq<char>>,
}

/// The first steps of the handshake: the channel is proposed.
#[derive(Debug, Clone, PartialEq, Eq)]
pub struct IbcChannelOpenMsg {
    pub channel: IbcChannel,
    pub counterparty_version: Option<String>,
}

impl View for IbcChannelOpenMsg {
    type V = HandshakeView;

    open spec fn view(&self) -> HandshakeView {
        HandshakeView {
            channel: self.channel@,
            counterparty_version: self.counterparty_version.deep_view(),
        }
    }
}

/// The last steps of the handshake: the channel is established.
#[derive(Debug, Clone, PartialEq, Eq)]
pub struct IbcChannelConnectMsg {
    pub channel: IbcChannel,
    pub counterparty_version: Option<String>,
}

impl View for IbcChannelConnectMsg {
    type V = HandshakeView;

    open spec fn view(&self) -> HandshakeView {
        HandshakeView {
            channel: self.channel@,
            counterparty_version: self.counterparty_version.deep_view(),
        }
    }
}

/// Who asks for a channel to be closed.
#[derive(Debug, Clone, Copy, PartialEq, Eq, Structural)]
pub enum IbcChannelCloseMsg {
    /// This side asks.
    CloseInit,
    /// The other side has closed, and this side confirms.
    CloseConfirm,
}

/// The payload of a packet as the codec read it: the payload, or what the
/// codec reported when the bytes were no payload.
pub open spec fn payload_view(data: Result<Ics20Packet, String>) -> Result<
    Ics20PacketView,
    Seq<char>,
> {
    match data {
        Ok(p) => Ok(p@),
        Err(e) => Err(e@),
    }
}

/// A packet with its two ends.
#[derive(Debug, PartialEq, Eq)]
pub struct IbcPacket {
    pub data: Result<Ics20Packet, String>,
    pub src: IbcEndpoint,
    pub dest: IbcEndpoint,
}

pub struct IbcPacketView {
    pub data: Result<Ics20PacketView, Seq<char>>,
    pub src: IbcEndpointView,
    pub dest: IbcEndpointView,
}

impl View for IbcPacket {
    type V = IbcPacketView;

    open spec fn view(&self) -> IbcPacketView {
        IbcPacketView { data: payload_view(self.data), src: self.src@, dest: self.dest@ }
    }
}

/// A packet that arrived for this side.
#[derive(Debug, PartialEq, Eq)]
pub struct IbcPacketReceiveMsg {
    pub packet: IbcPacket,
}

/// A packet of this side that timed out on its way.
#[derive(Debug, PartialEq, Eq)]
pub struct IbcPacketTimeoutMsg {
    pub packet: IbcPacket,
}

/// The acknowledgement as the codec read it.
pub open spec fn ack_view(ack: Result<Ics20Ack, String>) -> Result<Ics20AckView, Seq<char>> {
    match ack {
        Ok(a) => Ok(a@),
        Err(e) => Err(e@),
    }
}

/// A packet of this side that the other side has answered.
#[derive(Debug, PartialEq, Eq)]
pub struct IbcPacketAckMsg {
    pub acknowledgement: Result<Ics20Ack, String>,
    pub original_packet: IbcPacket,
}

pub struct IbcPacketAckMsgView {
    pub acknowledgement: Result<Ics20AckView, Seq<char>>,
    pub original_packet: IbcPacketView,
}

impl View for IbcPacketAckMsg {
    type V = IbcPacketAckMsgView;

    open spec fn view(&self) -> IbcPacketAckMsgView {
        IbcPacketAckMsgView {
            acknowledgement: ack_view(self.acknowledgement),
            original_packet: self.original_packet@,
        }
    }
}

/// What a handler knows of where it runs.
#[derive(Debug, Clone, PartialEq, Eq)]
pub struct Env {
    /// The address of the endpoint itself.
    pub contract: String,
}

pub struct EnvView {
    pub contract: Seq<char>,
}

impl View for Env {
    type V = EnvView;

    open spec fn view(&self) -> EnvView {
        EnvView { contract: self.contract@ }
    }
}

/// A request to the chain or to another contract.
#[derive(Debug, Clone, PartialEq, Eq)]
pub enum CosmosMsg {
    /// Pay native coins out to an address.
    Send { to_address: String, amount: Coin },
    /// Call a contract with an encoded message and no funds.
    Execute { contract_addr: String, msg: Vec<u8> },
    Swap(MsgSwapExactAmountIn),
    JoinPool(MsgJoinSwapExternAmountIn),
    ExitPool(MsgExitSwapShareAmountIn),
    /// Create the lockup account of `sender` on `channel`, administered by
    /// `admin`.
    CreateLockup { admin: String, channel: String, sender: String },
    /// Hand funds to a lockup account to lock for `duration` seconds.
    Lock { contract_addr: String, funds: Coin, duration: u64 },
    /// Ask a lockup account to claim what it holds of `denom`.
    Claim { contract_addr: String, denom: String },
    /// Ask a lockup account to begin unlocking the lock `id`.
    Unlock { contract_addr: String, id: u64 },
}

pub enum CosmosMsgView {
    Send { to_address: Seq<char>, amount: CoinView },
    Execute { contract_addr: Seq<char>, msg: Seq<u8> },
    Swap(MsgSwapExactAmountInView),
    JoinPool(MsgJoinSwapExternAmountInView),
    ExitPool(MsgExitSwapShareAmountInView),
    CreateLockup { admin: Seq<char>, channel: Seq<char>, sender: Seq<char> },
    Lock { contract_addr: Seq<char>, funds: CoinView, duration: u64 },
    Claim { contract_addr: Seq<char>, denom: Seq<char> },
    Unlock { contract_addr: Seq<char>, id: u64 },
}

impl View for CosmosMsg {
    type V = CosmosMsgView;

    open spec fn view(&self) -> CosmosMsgView {
        match self {
            CosmosMsg::Send { to_address, amount } => CosmosMsgView::Send {
                to_address: to_address@,
                amount: amount@,
            },
            CosmosMsg::Execute { contract_addr, msg } => CosmosMsgView::Execute {
                contract_addr: contract_addr@,
                msg: msg@,
            },
            CosmosMsg::Swap(m) => CosmosMsgView::Swap(m@),
            CosmosMsg::JoinPool(m) => CosmosMsgView::JoinPool(m@),
            CosmosMsg::ExitPool(m) => CosmosMsgView::ExitPool(m@),
            CosmosMsg::CreateLockup { admin, channel, sender } => CosmosMsgView::CreateLockup {
                admin: admin@,
                channel: channel@,
                sender: sender@,
            },
            CosmosMsg::Lock { contract_addr, funds, duration } => CosmosMsgView::Lock {
                contract_addr: contract_addr@,
                funds: funds@,
                duration: *duration,
            },
            CosmosMsg::Claim { contract_addr, denom } => CosmosMsgView::Claim {
                contract_addr: contract_addr@,
                denom: denom@,
            },
            CosmosMsg::Unlock { contract_addr, id } => CosmosMsgView::Unlock {
                contract_addr: contract_addr@,
                id: *id,
            },
        }
    }
}

/// When the host reports back how a nested call went.
#[derive(Debug, Clone, Copy, PartialEq, Eq, Structural)]
pub enum ReplyOn {
    /// Whatever the outcome.
    Always,
    /// Only when it failed.
    Error,
}

/// A nested call: a request, the continuation that its outcome goes to, and
/// when the host reports back.
#[derive(Debug, Clone, PartialEq, Eq)]
pub struct SubMsg {
    pub id: u64,
    pub msg: CosmosMsg,
    pub reply_on: ReplyOn,
}

pub struct SubMsgView {
    pub id: u64,
    pub msg: CosmosMsgView,
    pub reply_on: ReplyOn,
}

impl View for SubMsg {
    type V = SubMsgView;

    open spec fn view(&self) -> SubMsgView {
        SubMsgView { id: self.id, msg: self.msg@, reply_on: self.reply_on }
    }
}

impl DeepView for SubMsg {
    type V = SubMsgView;

    open spec fn deep_view(&self) -> SubMsgView {
        self@
    }
}

impl SubMsg {
    /// A nested call whose outcome is always reported.
    pub fn reply_always(msg: CosmosMsg, id: u64) -> (r: SubMsg)
        ensures
            r@ == (SubMsgView { id, msg: msg@, reply_on: ReplyOn::Always }),
    {
        SubMsg { id, msg, reply_on: ReplyOn::Always }
    }

    /// A nested call of which only a failure is reported.
    pub fn reply_on_error(msg: CosmosMsg, id: u64) -> (r: SubMsg)
        ensures
            r@ == (SubMsgView { id, msg: msg@, reply_on: ReplyOn::Error }),
    {
        SubMsg { id, msg, reply_on: ReplyOn::Error }
    }
}

/// One key and value of the event that a handler emits.
#[derive(Debug, Clone, PartialEq, Eq)]
pub struct Attribute {
    pub key: String,
    pub value: String,
}

pub struct AttributeView {
    pub key: Seq<char>,
    pub value: Seq<char>,
}

impl View for Attribute {
    type V = AttributeView;

    open spec fn view(&self) -> AttributeView {
        AttributeView { key: self.key@, value: self.value@ }
    }
}

impl DeepView for Attribute {
    type V = AttributeView;

    open spec fn deep_view(&self) -> AttributeView {
        self@
    }
}

/// An attribute of the two texts.
pub open spec fn attr_view(key: Seq<char>, value: Seq<char>) -> AttributeView {
    AttributeView { key, value }
}

/// An attribute of the two texts.
pub fn attr(key: &str, value: &str) -> (r: Attribute)
    ensures
        r@ == attr_view(key@, value@),
{
    Attribute { key: String::from_str(key), value: String::from_str(value) }
}

/// What the receive handler gives back: the acknowledgement, at most one
/// nested call, and the event.
#[derive(Debug, Clone, PartialEq, Eq)]
pub struct IbcReceiveResponse {
    pub acknowledgement: Ics20Ack,
    pub messages: Vec<SubMsg>,
    pub attributes: Vec<Attribute>,
}

pub struct IbcReceiveResponseView {
    pub acknowledgement: Ics20AckView,
    pub messages: Seq<SubMsgView>,
    pub attributes: Seq<AttributeView>,
}

impl View for IbcReceiveResponse {
    type V = IbcReceiveResponseView;

    open spec fn view(&self) -> IbcReceiveResponseView {
        IbcReceiveResponseView {
            acknowledgement: self.acknowledgement@,
            messages: self.messages.deep_view(),
            attributes: self.attributes.deep_view(),
        }
    }
}

/// What the other channel handlers give back: nested calls and the event.
#[derive(Debug, Clone, PartialEq, Eq)]
pub struct IbcBasicResponse {
    pub messages: Vec<SubMsg>,
    pub attributes: Vec<Attribute>,
}

pub struct IbcBasicResponseView {
    pub messages: Seq<SubMsgView>,
    pub attributes: Seq<AttributeView>,
}

impl View for IbcBasicResponse {
    type V = IbcBasicResponseView;

    open spec fn view(&self) -> IbcBasicResponseView {
        IbcBasicResponseView {
            messages: self.messages.deep_view(),
            attributes: self.attributes.deep_view(),
        }
    }
}

impl IbcBasicResponseView {
    /// The response that asks for nothing and reports nothing.
    pub open spec fn empty() -> IbcBasicResponseView {
        IbcBasicResponseView { messages: Seq::empty(), attributes: Seq::empty() }
    }
}

impl IbcBasicResponse {
    /// The response that asks for nothing and reports nothing.
    pub fn new() -> (r: IbcBasicResponse)
        ensures
            r@ == IbcBasicResponseView::empty(),
    {
        let r = IbcBasicResponse { messages: Vec::new(), attributes: Vec::new() };
        assert(r@.messages =~= Seq::empty());
        assert(r@.attributes =~= Seq::empty());
        r
    }
}

/// What the reply handler gives back: the acknowledgement that replaces the
/// one given at receive, if any, and the nested calls it asks for.
#[derive(Debug, Clone, PartialEq, Eq)]
pub struct Response {
    pub data: Option<Ics20Ack>,
    pub messages: Vec<SubMsg>,
}

pub struct ResponseView {
    pub data: Option<Ics20AckView>,
    pub messages: Seq<SubMsgView>,
}

impl View for Response {
    type V = ResponseView;

    open spec fn view(&self) -> ResponseView {
        ResponseView { data: self.data.deep_view(), messages: self.messages.deep_view() }
    }
}

impl ResponseView {
    /// The response that leaves the acknowledgement as it is.
    pub open spec fn empty() -> ResponseView {
        ResponseView { data: None, messages: Seq::empty() }
    }

    /// The response that replaces the acknowledgement.
    pub open spec fn with_data(ack: Ics20AckView) -> ResponseView {
        ResponseView { data: Some(ack), messages: Seq::empty() }
    }
}

impl Response {
    /// The response that leaves the acknowledgement as it is.
    pub fn new() -> (r: Response)
        ensures
            r@ == ResponseView::empty(),
    {
        let r = Response { data: None, messages: Vec::new() };
        assert(r@.messages =~= Seq::empty());
        r
    }

    /// Replaces the acknowledgement.
    pub fn set_data(self, ack: Ics20Ack) -> (r: Response)
        ensures
            r@ == (ResponseView { data: Some(ack@), messages: self@.messages }),
    {
        Response { data: Some(ack), messages: self.messages }
    }
}

/// What a nested call gave when it succeeded, as far as the codec could read
/// it.
#[derive(Debug, Clone, PartialEq, Eq)]
pub struct SubMsgResponse {
    /// The amount that the call yielded, where its output holds one.
    pub amount: Option<Coin>,
    /// The address of the contract that the call created, where it created
    /// one.
    pub contract_address: Option<String>,
    /// The bytes that the call returned, where it returned any.
    pub data: Option<Vec<u8>>,
}

pub struct SubMsgResponseView {
    pub amount: Option<CoinView>,
    pub contract_address: Option<Seq<char>>,
    pub data: Option<Seq<u8>>,
}

/// The bytes as a sequence, where there are any.
pub open spec fn bytes_view(data: Option<Vec<u8>>) -> Option<Seq<u8>> {
    match data {
        Some(b) => Some(b@),
        None => None,
    }
}

impl View for SubMsgResponse {
    type V = SubMsgResponseView;

    open spec fn view(&self) -> SubMsgResponseView {
        SubMsgResponseView {
            amount: self.amount.deep_view(),
            contract_address: self.contract_address.deep_view(),
            data: bytes_view(self.data),
        }
    }
}

/// How a nested call went, as a mathematical value: what it gave, or the
/// text of its failure.
pub open spec fn outcome_view(result: Result<SubMsgResponse, String>) -> Result<
    SubMsgResponseView,
    Seq<char>,
> {
    match result {
        Ok(r) => Ok(r@),
        Err(e) => Err(e@),
    }
}

/// The outcome of the nested call that was issued for continuation `id`.
#[derive(Debug, PartialEq, Eq)]
pub struct Reply {
    pub id: u64,
    pub result: Result<SubMsgResponse, String>,
}

pub struct ReplyView {
    pub id: u64,
    pub result: Result<SubMsgResponseView, Seq<char>>,
}

impl View for Reply {
    type V = ReplyView;

    open spec fn view(&self) -> ReplyView {
        ReplyView { id: self.id, result: outcome_view(self.result) }
    }
}

} // verus!
