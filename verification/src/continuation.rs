//! The continuations of the endpoint: one kind for each nested call it
//! issues, with the identifier the host reports it under, the policy of
//! notification, and whether a failure gives the escrow back.

use vstd::prelude::*;
use crate::msg::{CosmosMsg, CosmosMsgView, ReplyOn, SubMsg, SubMsgView};

verus! {

/// Identifier of the payout of a plain transfer.
pub const RECEIVE_ID: u64 = 1337;

/// Identifier of a swap.
pub const SWAP_ID: u64 = 0xcb37;

/// Identifier of a deposit into a pool.
pub const JOIN_POOL_ID: u64 = 0xcb38;

/// Identifier of a withdrawal from a pool.
pub const EXIT_POOL_ID: u64 = 0xcb39;

/// Identifier of the creation of a lockup account.
pub const CREATE_LOCKUP_ID: u64 = 0xcb3a;

/// Identifier of a lock.
pub const LOCK_TOKEN_ID: u64 = 0xcb3b;

/// Identifier of a claim.
pub const CLAIM_TOKEN_ID: u64 = 0xcb3c;

/// Identifier of an unlock.
pub const UNLOCK_TOKEN_ID: u64 = 0xcb3d;

/// Identifier of the payout that settles a failed transfer.
pub const ACK_FAILURE_ID: u64 = 0xfa17;

/// The kinds of nested call that the endpoint issues.
#[derive(Debug, Clone, Copy, PartialEq, Eq, Structural)]
pub enum ReplyKind {
    /// The payout of a plain transfer to its receiver.
    Receive,
    Swap,
    JoinPool,
    ExitPool,
    CreateLockup,
    LockToken,
    ClaimToken,
    UnlockToken,
    /// The payout that gives a failed transfer back to its sender.
    AckFailure,
}

impl ReplyKind {
    /// The identifier under which the host reports the outcome.
    pub open spec fn spec_id(self) -> u64 {
        match self {
            ReplyKind::Receive => RECEIVE_ID,
            ReplyKind::Swap => SWAP_ID,
            ReplyKind::JoinPool => JOIN_POOL_ID,
            ReplyKind::ExitPool => EXIT_POOL_ID,
            ReplyKind::CreateLockup => CREATE_LOCKUP_ID,
            ReplyKind::LockToken => LOCK_TOKEN_ID,
            ReplyKind::ClaimToken => CLAIM_TOKEN_ID,
            ReplyKind::UnlockToken => UNLOCK_TOKEN_ID,
            ReplyKind::AckFailure => ACK_FAILURE_ID,
        }
    }

    /// The kind that an identifier stands for, if it stands for one.
    pub open spec fn spec_from_id(id: u64) -> Option<ReplyKind> {
        if id == RECEIVE_ID {
            Some(ReplyKind::Receive)
        } else if id == SWAP_ID {
            Some(ReplyKind::Swap)
        } else if id == JOIN_POOL_ID {
            Some(ReplyKind::JoinPool)
        } else if id == EXIT_POOL_ID {
            Some(ReplyKind::ExitPool)
        } else if id == CREATE_LOCKUP_ID {
            Some(ReplyKind::CreateLockup)
        } else if id == LOCK_TOKEN_ID {
            Some(ReplyKind::LockToken)
        } else if id == CLAIM_TOKEN_ID {
            Some(ReplyKind::ClaimToken)
        } else if id == UNLOCK_TOKEN_ID {
            Some(ReplyKind::UnlockToken)
        } else if id == ACK_FAILURE_ID {
            Some(ReplyKind::AckFailure)
        } else {
            None
        }
    }

    /// When the host reports back: always for the calls whose success has
    /// something to say or to record, on failure only for the others.
    pub open spec fn spec_reply_on(self) -> ReplyOn {
        match self {
            ReplyKind::Receive | ReplyKind::UnlockToken | ReplyKind::AckFailure => ReplyOn::Error,
            _ => ReplyOn::Always,
        }
    }

    /// Whether the success of the call yields an amount that is reported and
    /// put into escrow.
    pub open spec fn spec_yields_amount(self) -> bool {
        self == ReplyKind::Swap || self == ReplyKind::JoinPool || self == ReplyKind::ExitPool
            || self == ReplyKind::ClaimToken
    }

    /// Whether a failure of the call gives its amount back to the escrow:
    /// all do but those that carry no value.
    pub open spec fn spec_restores(self) -> bool {
        self != ReplyKind::CreateLockup && self != ReplyKind::UnlockToken
    }

    /// The nested call of this kind that carries `msg`.
    pub open spec fn spec_submsg(self, msg: CosmosMsgView) -> SubMsgView {
        SubMsgView { id: self.spec_id(), msg, reply_on: self.spec_reply_on() }
    }

    #[verifier::when_used_as_spec(spec_id)]
    pub fn id(self) -> (r: u64)
        ensures
            r == self.spec_id(),
    {
        match self {
            ReplyKind::Receive => RECEIVE_ID,
            ReplyKind::Swap => SWAP_ID,
            ReplyKind::JoinPool => JOIN_POOL_ID,
            ReplyKind::ExitPool => EXIT_POOL_ID,
            ReplyKind::CreateLockup => CREATE_LOCKUP_ID,
            ReplyKind::LockToken => LOCK_TOKEN_ID,
            ReplyKind::ClaimToken => CLAIM_TOKEN_ID,
            ReplyKind::UnlockToken => UNLOCK_TOKEN_ID,
            ReplyKind::AckFailure => ACK_FAILURE_ID,
        }
    }

    pub fn from_id(id: u64) -> (r: Option<ReplyKind>)
        ensures
            r == ReplyKind::spec_from_id(id),
    {
        if id == RECEIVE_ID {
            Some(ReplyKind::Receive)
        } else if id == SWAP_ID {
            Some(ReplyKind::Swap)
        } else if id == JOIN_POOL_ID {
            Some(ReplyKind::JoinPool)
        } else if id == EXIT_POOL_ID {
            Some(ReplyKind::ExitPool)
        } else if id == CREATE_LOCKUP_ID {
            Some(ReplyKind::CreateLockup)
        } else if id == LOCK_TOKEN_ID {
            Some(ReplyKind::LockToken)
        } else if id == CLAIM_TOKEN_ID {
            Some(ReplyKind::ClaimToken)
        } else if id == UNLOCK_TOKEN_ID {
            Some(ReplyKind::UnlockToken)
        } else if id == ACK_FAILURE_ID {
            Some(ReplyKind::AckFailure)
        } else {
            None
        }
    }

    #[verifier::when_used_as_spec(spec_reply_on)]
    pub fn reply_on(self) -> (r: ReplyOn)
        ensures
            r == self.spec_reply_on(),
    {
        match self {
            ReplyKind::Receive | ReplyKind::UnlockToken | ReplyKind::AckFailure => ReplyOn::Error,
            _ => ReplyOn::Always,
        }
    }

    #[verifier::when_used_as_spec(spec_yields_amount)]
    pub fn yields_amount(self) -> (r: bool)
        ensures
            r == self.spec_yields_amount(),
    {
        match self {
            ReplyKind::Swap | ReplyKind::JoinPool | ReplyKind::ExitPool | ReplyKind::ClaimToken => 
                true,
            _ => false,
        }
    }

    #[verifier::when_used_as_spec(spec_restores)]
    pub fn restores(self) -> (r: bool)
        ensures
            r == self.spec_restores(),
    {
        match self {
            ReplyKind::CreateLockup | ReplyKind::UnlockToken => false,
            _ => true,
        }
    }

    /// The nested call of this kind that carries `msg`.
    pub fn submsg(self, msg: CosmosMsg) -> (r: SubMsg)
        ensures
            r@ == self.spec_submsg(msg@),
    {
        SubMsg { id: self.id(), msg, reply_on: self.reply_on() }
    }
}

/// Every kind is found again under its identifier, so no two kinds share
/// one.
pub proof fn lemma_kind_of_id(kind: ReplyKind)
    ensures
        ReplyKind::spec_from_id(kind.spec_id()) == Some(kind),
{
}

/// An identifier that stands for a kind is the identifier of that kind.
pub proof fn lemma_id_of_kind(id: u64)
    ensures
        ReplyKind::spec_from_id(id) matches Some(kind) ==> kind.spec_id() == id,
{
}

} // verus!
