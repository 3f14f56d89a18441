//! What travels over a channel: the transfer payload with its action, the
//! voucher it names, and the acknowledgement that answers it.

use vstd::prelude::*;
use vstd::string::*;
use crate::amount::{Coin, CoinView};
use crate::proto::{SwapAmountInRoute, SwapAmountInRouteView};

verus! {

/// A swap along `routes` that must yield at least `token_out_min_amount`.
#[derive(Debug, Clone, PartialEq, Eq)]
pub struct SwapPacket {
    pub routes: Vec<SwapAmountInRoute>,
    pub token_out_min_amount: u128,
}

pub struct SwapPacketView {
    pub routes: Seq<SwapAmountInRouteView>,
    pub token_out_min_amount: u128,
}

impl View for SwapPacket {
    type V = SwapPacketView;

    open spec fn view(&self) -> SwapPacketView {
        SwapPacketView {
            routes: self.routes.deep_view(),
            token_out_min_amount: self.token_out_min_amount,
        }
    }
}

/// The action that a transfer carries.
#[derive(Debug, Clone, PartialEq, Eq)]
pub enum OsmoPacket {
    /// Swap the transferred amount.
    Swap(SwapPacket),
    /// Deposit the transferred amount into a pool.
    JoinPool { pool_id: u64, share_out_min_amount: u128 },
    /// Give the transferred pool shares back for `token_out_denom`.
    ExitPool { token_out_denom: String, token_out_min_amount: u128 },
    /// Create the sender's lockup account on this channel.
    LockupAccount,
    /// Lock the transferred amount for `duration` seconds.
    Lock { duration: u64 },
    /// Claim what the lockup account holds of `denom`.
    Claim { denom: String },
    /// Begin to unlock the lock `id`.
    Unlock { id: u64 },
}

pub enum OsmoPacketView {
    Swap(SwapPacketView),
    JoinPool { pool_id: u64, share_out_min_amount: u128 },
    ExitPool { token_out_denom: Seq<char>, token_out_min_amount: u128 },
    LockupAccount,
    Lock { duration: u64 },
    Claim { denom: Seq<char> },
    Unlock { id: u64 },
}

impl View for OsmoPacket {
    type V = OsmoPacketView;

    open spec fn view(&self) -> OsmoPacketView {
        match self {
            OsmoPacket::Swap(s) => OsmoPacketView::Swap(s@),
            OsmoPacket::JoinPool { pool_id, share_out_min_amount } => OsmoPacketView::JoinPool {
                pool_id: *pool_id,
                share_out_min_amount: *share_out_min_amount,
            },
            OsmoPacket::ExitPool { token_out_denom, token_out_min_amount } => 
                OsmoPacketView::ExitPool {
                    token_out_denom: token_out_denom@,
                    token_out_min_amount: *token_out_min_amount,
                },
            OsmoPacket::LockupAccount => OsmoPacketView::LockupAccount,
            OsmoPacket::Lock { duration } => OsmoPacketView::Lock { duration: *duration },
            OsmoPacket::Claim { denom } => OsmoPacketView::Claim { denom: denom@ },
            OsmoPacket::Unlock { id } => OsmoPacketView::Unlock { id: *id },
        }
    }
}

impl DeepView for OsmoPacket {
    type V = OsmoPacketView;

    open spec fn deep_view(&self) -> OsmoPacketView {
        self@
    }
}

/// The payload of a transfer packet.
#[derive(Debug, Clone, PartialEq, Eq)]
pub struct Ics20Packet {
    /// The amount transferred.
    pub amount: u128,
    /// The denomination as the packet writes it.
    pub denom: String,
    /// Who receives the funds on the destination side.
    pub receiver: String,
    /// Who sent the funds on the source side.
    pub sender: String,
    /// The action to run with the transfer, if any.
    pub action: Option<OsmoPacket>,
}

pub struct Ics20PacketView {
    pub amount: u128,
    pub denom: Seq<char>,
    pub receiver: Seq<char>,
    pub sender: Seq<char>,
    pub action: Option<OsmoPacketView>,
}

impl View for Ics20Packet {
    type V = Ics20PacketView;

    open spec fn view(&self) -> Ics20PacketView {
        Ics20PacketView {
            amount: self.amount,
            denom: self.denom@,
            receiver: self.receiver@,
            sender: self.sender@,
            action: self.action.deep_view(),
        }
    }
}

impl Ics20Packet {
    /// A plain transfer, without an action.
    pub fn new(amount: u128, denom: &str, sender: &str, receiver: &str) -> (r: Ics20Packet)
        ensures
            r@ == (Ics20PacketView {
                amount,
                denom: denom@,
                receiver: receiver@,
                sender: sender@,
                action: None,
            }),
    {
        Ics20Packet {
            amount,
            denom: String::from_str(denom),
            receiver: String::from_str(receiver),
            sender: String::from_str(sender),
            action: None,
        }
    }
}

/// What a success acknowledgement carries.
#[derive(Debug, Clone, PartialEq, Eq)]
pub enum AckData {
    /// Bytes that the endpoint does not look into.
    Raw(Vec<u8>),
    /// The amount that an action yielded.
    Amount(Coin),
    /// The address of a lockup account that was created.
    Contract { contract_address: String },
}

pub enum AckDataView {
    Raw(Seq<u8>),
    Amount(CoinView),
    Contract { contract_address: Seq<char> },
}

impl View for AckData {
    type V = AckDataView;

    open spec fn view(&self) -> AckDataView {
        match self {
            AckData::Raw(b) => AckDataView::Raw(b@),
            AckData::Amount(c) => AckDataView::Amount(c@),
            AckData::Contract { contract_address } => AckDataView::Contract {
                contract_address: contract_address@,
            },
        }
    }
}

/// The answer to a packet: success with what it yielded, or the failure's
/// text.
#[derive(Debug, Clone, PartialEq, Eq)]
pub enum Ics20Ack {
    Result(AckData),
    Error(String),
}

pub enum Ics20AckView {
    Result(AckDataView),
    Error(Seq<char>),
}

impl View for Ics20Ack {
    type V = Ics20AckView;

    open spec fn view(&self) -> Ics20AckView {
        match self {
            Ics20Ack::Result(d) => Ics20AckView::Result(d@),
            Ics20Ack::Error(e) => Ics20AckView::Error(e@),
        }
    }
}

impl DeepView for Ics20Ack {
    type V = Ics20AckView;

    open spec fn deep_view(&self) -> Ics20AckView {
        self@
    }
}

/// The bytes of the plain success marker.
pub open spec fn success_marker() -> Seq<u8> {
    seq![0x31u8]
}

/// The denomination on this side that a voucher stands for.
#[derive(Debug, Clone, PartialEq, Eq)]
pub struct Voucher {
    pub denom: String,
}

pub struct VoucherView {
    pub denom: Seq<char>,
}

impl View for Voucher {
    type V = VoucherView;

    open spec fn view(&self) -> VoucherView {
        VoucherView { denom: self.denom@ }
    }
}

} // verus!
