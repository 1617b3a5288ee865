//! Non-fungible token actions and event log data.
//!
//! The action values describe what is about to happen when calling the
//! mutating operations of the non-fungible token standard, and are the payload
//! handed to the [`Hook`](crate::hook::Hook)s wrapping those operations.

use vstd::prelude::*;

use crate::account::AccountId;

verus! {

/// A token identifier.
pub type TokenId = String;

/// Why a sender is allowed to perform a transfer.
#[derive(Clone, Copy, Debug, PartialEq, Eq, Structural)]
pub enum Nep171TransferAuthorization {
    /// The sender owns the token.
    Owner,
    /// The sender holds the approval with this identifier for the token.
    ApprovalId(u32),
}

/// Mint action.
#[derive(Debug)]
pub struct Nep171Mint {
    /// Token IDs to mint.
    pub token_ids: Vec<TokenId>,
    /// Account ID of the receiver.
    pub receiver_id: AccountId,
    /// Optional memo string.
    pub memo: Option<String>,
}

impl Nep171Mint {
    /// Create a new mint action.
    pub fn new(token_ids: Vec<TokenId>, receiver_id: AccountId) -> (r: Self)
        ensures
            r == (Nep171Mint { token_ids, receiver_id, memo: None }),
    {
        Self { token_ids, receiver_id, memo: None }
    }

    /// Add a memo string.
    #[must_use]
    pub fn memo(self, memo: String) -> (r: Self)
        ensures
            r == (Nep171Mint {
                token_ids: self.token_ids,
                receiver_id: self.receiver_id,
                memo: Some(memo),
            }),
    {
        Self { token_ids: self.token_ids, receiver_id: self.receiver_id, memo: Some(memo) }
    }
}

/// Burn action.
#[derive(Debug)]
pub struct Nep171Burn {
    /// Token IDs to burn.
    pub token_ids: Vec<TokenId>,
    /// Account ID of the owner.
    pub owner_id: AccountId,
    /// Optional memo string.
    pub memo: Option<String>,
}

impl Nep171Burn {
    /// Create a new burn action.
    pub fn new(token_ids: Vec<TokenId>, owner_id: AccountId) -> (r: Self)
        ensures
            r == (Nep171Burn { token_ids, owner_id, memo: None }),
    {
        Self { token_ids, owner_id, memo: None }
    }

    /// Add a memo string.
    #[must_use]
    pub fn memo(self, memo: String) -> (r: Self)
        ensures
            r == (Nep171Burn {
                token_ids: self.token_ids,
                owner_id: self.owner_id,
                memo: Some(memo),
            }),
    {
        Self { token_ids: self.token_ids, owner_id: self.owner_id, memo: Some(memo) }
    }
}

/// Transfer metadata generic over both types of transfer (plain transfers and
/// transfer-and-call).
#[derive(Debug)]
pub struct Nep171Transfer {
    /// Why is this sender allowed to perform this transfer?
    pub authorization: Nep171TransferAuthorization,
    /// Sending account ID.
    pub sender_id: AccountId,
    /// Receiving account ID.
    pub receiver_id: AccountId,
    /// Token ID.
    pub token_id: TokenId,
    /// Optional memo string.
    pub memo: Option<String>,
    /// Message passed to the receiving contract in a transfer-and-call.
    pub msg: Option<String>,
    /// `true` if the transfer is a revert of an earlier transfer-and-call.
    pub revert: bool,
}

impl Nep171Transfer {
    /// Create a new transfer action.
    pub fn new(
        token_id: TokenId,
        sender_id: AccountId,
        receiver_id: AccountId,
        authorization: Nep171TransferAuthorization,
    ) -> (r: Self)
        ensures
            r == (Nep171Transfer {
                authorization,
                sender_id,
                receiver_id,
                token_id,
                memo: None,
                msg: None,
                revert: false,
            }),
    {
        Self {
            authorization,
            sender_id,
            receiver_id,
            token_id,
            memo: None,
            msg: None,
            revert: false,
        }
    }

    /// Add a memo string.
    #[must_use]
    pub fn memo(self, memo: String) -> (r: Self)
        ensures
            r == (Nep171Transfer {
                authorization: self.authorization,
                sender_id: self.sender_id,
                receiver_id: self.receiver_id,
                token_id: self.token_id,
                memo: Some(memo),
                msg: self.msg,
                revert: self.revert,
            }),
    {
        Self {
            authorization: self.authorization,
            sender_id: self.sender_id,
            receiver_id: self.receiver_id,
            token_id: self.token_id,
            memo: Some(memo),
            msg: self.msg,
            revert: self.revert,
        }
    }

    /// Add a message string.
    #[must_use]
    pub fn msg(self, msg: String) -> (r: Self)
        ensures
            r == (Nep171Transfer {
                authorization: self.authorization,
                sender_id: self.sender_id,
                receiver_id: self.receiver_id,
                token_id: self.token_id,
                memo: self.memo,
                msg: Some(msg),
                revert: self.revert,
            }),
    {
        Self {
            authorization: self.authorization,
            sender_id: self.sender_id,
            receiver_id: self.receiver_id,
            token_id: self.token_id,
            memo: self.memo,
            msg: Some(msg),
            revert: self.revert,
        }
    }
}

/// Token metadata update, as recorded in the event log.
#[derive(Debug)]
pub struct NftMetadataUpdateLog {
    /// IDs of the updated tokens.
    pub token_ids: Vec<String>,
    /// Additional update information.
    pub memo: Option<String>,
}

/// Contract metadata update, as recorded in the event log.
#[derive(Debug)]
pub struct NftContractMetadataUpdateLog {
    /// Additional update information.
    pub memo: Option<String>,
}

} // verus!
