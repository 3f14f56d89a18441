//! The failures of the endpoint and the text each one is reported with.

use vstd::prelude::*;
use vstd::string::*;
use crate::decimal::{decimal, u128_to_string};

verus! {

/// Why a handler refused its input or could not go on.
#[derive(Debug, Clone, PartialEq, Eq)]
pub enum ContractError {
    /// A packet payload or an acknowledgement could not be decoded; `msg` is
    /// what the decoder reported.
    Std { msg: String },
    /// The channel, or its counterparty, speaks another protocol version.
    InvalidIbcVersion { version: String },
    /// The channel is not unordered.
    OnlyOrderedChannel,
    /// The endpoint already has its one channel.
    OnlyOneChannel,
    /// This side may not close a channel that holds escrowed funds.
    CannotClose,
    /// The denomination is not the encoding of an asset of this side.
    NoForeignTokens,
    /// The denomination names a port other than the packet's source port.
    FromOtherPort { port: String },
    /// The denomination names a channel other than the packet's source channel.
    FromOtherChannel { channel: String },
    /// The escrow of the channel does not cover the amount.
    InsufficientFunds,
    /// The action takes no value, and the transfer carries one.
    NonPayable,
    /// No lockup account is bound to the channel and sender.
    LockupNotFound,
    /// A lockup account is already bound to the channel and sender.
    OnlyLockupByChannel,
    /// The denomination is not that of a pool share.
    NotPoolShare { denom: String },
    /// A nested call succeeded without the result its continuation needs.
    MissingReplyResult,
    /// A nested call resolved, and no continuation was recorded for it.
    NoReplyArgs,
    /// A balance would exceed what the ledger can hold.
    Overflow,
    /// A reply names a continuation that the endpoint never issues.
    UnknownReplyId { id: u64 },
    /// No channel of that id was connected.
    NoSuchChannel { channel: String },
}

/// A failure with its texts as sequences of characters.
pub enum ErrorView {
    Std { msg: Seq<char> },
    InvalidIbcVersion { version: Seq<char> },
    OnlyOrderedChannel,
    OnlyOneChannel,
    CannotClose,
    NoForeignTokens,
    FromOtherPort { port: Seq<char> },
    FromOtherChannel { channel: Seq<char> },
    InsufficientFunds,
    NonPayable,
    LockupNotFound,
    OnlyLockupByChannel,
    NotPoolShare { denom: Seq<char> },
    MissingReplyResult,
    NoReplyArgs,
    Overflow,
    UnknownReplyId { id: u64 },
    NoSuchChannel { channel: Seq<char> },
}

impl View for ContractError {
    type V = ErrorView;

    open spec fn view(&self) -> ErrorView {
        match self {
            ContractError::Std { msg } => ErrorView::Std { msg: msg@ },
            ContractError::InvalidIbcVersion { version } => ErrorView::InvalidIbcVersion {
                version: version@,
            },
            ContractError::OnlyOrderedChannel => ErrorView::OnlyOrderedChannel,
            ContractError::OnlyOneChannel => ErrorView::OnlyOneChannel,
            ContractError::CannotClose => ErrorView::CannotClose,
            ContractError::NoForeignTokens => ErrorView::NoForeignTokens,
            ContractError::FromOtherPort { port } => ErrorView::FromOtherPort { port: port@ },
            ContractError::FromOtherChannel { channel } => ErrorView::FromOtherChannel {
                channel: channel@,
            },
            ContractError::InsufficientFunds => ErrorView::InsufficientFunds,
            ContractError::NonPayable => ErrorView::NonPayable,
            ContractError::LockupNotFound => ErrorView::LockupNotFound,
            ContractError::OnlyLockupByChannel => ErrorView::OnlyLockupByChannel,
            ContractError::NotPoolShare { denom } => ErrorView::NotPoolShare { denom: denom@ },
            ContractError::MissingReplyResult => ErrorView::MissingReplyResult,
            ContractError::NoReplyArgs => ErrorView::NoReplyArgs,
            ContractError::Overflow => ErrorView::Overflow,
            ContractError::UnknownReplyId { id } => ErrorView::UnknownReplyId { id: *id },
            ContractError::NoSuchChannel { channel } => ErrorView::NoSuchChannel {
                channel: channel@,
            },
        }
    }
}

impl ErrorView {
    /// The text that the failure is reported with, in an acknowledgement or
    /// to the host.
    pub open spec fn message(self) -> Seq<char> {
        match self {
            ErrorView::Std { msg } => msg,
            ErrorView::InvalidIbcVersion { version } => 
                "only supports channel with ibc version ics20-1, got "@ + version,
            ErrorView::OnlyOrderedChannel => "only supports unordered channel"@,
            ErrorView::OnlyOneChannel => "only one channel is allowed"@,
            ErrorView::CannotClose => "cannot close an active channel"@,
            ErrorView::NoForeignTokens => "no matching foreign-asset encoding"@,
            ErrorView::FromOtherPort { port } => "wrong port: "@ + port,
            ErrorView::FromOtherChannel { channel } => "wrong channel: "@ + channel,
            ErrorView::InsufficientFunds => "insufficient funds"@,
            ErrorView::NonPayable => "action requires zero value"@,
            ErrorView::LockupNotFound => "no lockup account for channel and sender"@,
            ErrorView::OnlyLockupByChannel => "lockup account already exists for channel and sender"@,
            ErrorView::NotPoolShare { denom } => "not a pool share denomination: "@ + denom,
            ErrorView::MissingReplyResult => "nested call gave no result"@,
            ErrorView::NoReplyArgs => "no continuation recorded"@,
            ErrorView::Overflow => "balance overflow"@,
            ErrorView::UnknownReplyId { id } => "unknown reply id: "@ + decimal(id as nat),
            ErrorView::NoSuchChannel { channel } => "channel does not exist: "@ + channel,
        }
    }
}

impl ContractError {
    /// The text that the failure is reported with.
    pub fn message(&self) -> (r: String)
        ensures
            r@ == self@.message(),
    {
        match self {
            ContractError::Std { msg } => msg.clone(),
            ContractError::InvalidIbcVersion { version } => String::from_str(
                "only supports channel with ibc version ics20-1, got ",
            ).concat(version.as_str()),
            ContractError::OnlyOrderedChannel => String::from_str(
                "only supports unordered channel",
            ),
            ContractError::OnlyOneChannel => String::from_str("only one channel is allowed"),
            ContractError::CannotClose => String::from_str("cannot close an active channel"),
            ContractError::NoForeignTokens => String::from_str(
                "no matching foreign-asset encoding",
            ),
            ContractError::FromOtherPort { port } => String::from_str("wrong port: ").concat(
                port.as_str(),
            ),
            ContractError::FromOtherChannel { channel } => String::from_str(
                "wrong channel: ",
            ).concat(channel.as_str()),
            ContractError::InsufficientFunds => String::from_str("insufficient funds"),
            ContractError::NonPayable => String::from_str("action requires zero value"),
            ContractError::LockupNotFound => String::from_str(
                "no lockup account for channel and sender",
            ),
            ContractError::OnlyLockupByChannel => String::from_str(
                "lockup account already exists for channel and sender",
            ),
            ContractError::NotPoolShare { denom } => String::from_str(
                "not a pool share denomination: ",
            ).concat(denom.as_str()),
            ContractError::MissingReplyResult => String::from_str("nested call gave no result"),
            ContractError::NoReplyArgs => String::from_str("no continuation recorded"),
            ContractError::Overflow => String::from_str("balance overflow"),
            ContractError::UnknownReplyId { id } => {
                let digits = u128_to_string(*id as u128);
                String::from_str("unknown reply id: ").concat(digits.as_str())
            },
            ContractError::NoSuchChannel { channel } => String::from_str(
                "channel does not exist: ",
            ).concat(channel.as_str()),
        }
    }
}

} // verus!
