//! Token approval actions.
//!
//! Used when calling the mutating operations of the approval management
//! standard, and handed to the [`Hook`](crate::hook::Hook)s wrapping them.

use vstd::prelude::*;

use crate::account::AccountId;
use crate::nep171::TokenId;

verus! {

/// Approve action.
#[derive(Debug)]
pub struct Nep178Approve {
    /// Token ID that the target account is being approved for.
    pub token_id: TokenId,
    /// Account ID of the current owner of the token.
    pub current_owner_id: AccountId,
    /// Account ID of the target account. This account will be able to
    /// transfer the token.
    pub account_id: AccountId,
}

/// Revoke action.
#[derive(Debug)]
pub struct Nep178Revoke {
    /// Token ID that the target account will no longer be able to transfer
    /// (approval revoked).
    pub token_id: TokenId,
    /// Account ID of the current owner of the token.
    pub current_owner_id: AccountId,
    /// Account ID of the target account. This account will no longer be able
    /// to transfer the token.
    pub account_id: AccountId,
}

/// Revoke all action.
#[derive(Debug)]
pub struct Nep178RevokeAll {
    /// Token ID that all approvals will be revoked from.
    pub token_id: TokenId,
    /// Account ID of the current owner of the token.
    pub current_owner_id: AccountId,
}

} // verus!
