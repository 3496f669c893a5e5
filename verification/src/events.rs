//! Notifications returned by the mirror-path and record operations on
//! success. The host forwards them, fire-and-forget, to the external
//! bridge/observer; nothing in this crate consumes them.

use vstd::prelude::*;

use crate::types::AccountId;
use crate::types::ChainSource;
use crate::types::RecordType;
use crate::types::WrapState;

verus! {

/// A domain entry now reflects freshly mirrored external state.
#[derive(Clone, Copy, PartialEq, Eq, Debug)]
pub struct DomainMirrored {
    pub name_hash: [u8; 32],
    pub solana_delegate: AccountId,
    pub polygon_owner: [u8; 20],
    pub expiration: u64,
}

/// A record entry was created or overwritten.
#[derive(Clone, Copy, PartialEq, Eq, Debug)]
pub struct RecordUpdated {
    pub name_hash: [u8; 32],
    pub key_hash: [u8; 32],
    pub record_type: RecordType,
    pub source_chain: ChainSource,
    pub version: u64,
}

/// A record entry was destroyed and its storage freed.
#[derive(Clone, Copy, PartialEq, Eq, Debug)]
pub struct RecordDeleted {
    pub name_hash: [u8; 32],
    pub key_hash: [u8; 32],
}

/// A domain's wrap state and custody-token reference were rewritten.
#[derive(Clone, Copy, PartialEq, Eq, Debug)]
pub struct WrapStateChanged {
    pub name_hash: [u8; 32],
    pub wrap_state: WrapState,
    pub nft_mint: Option<AccountId>,
}

/// A domain's local delegate was reassigned by the authority.
#[derive(Clone, Copy, PartialEq, Eq, Debug)]
pub struct DelegateUpdated {
    pub name_hash: [u8; 32],
    pub delegate: AccountId,
}

} // verus!
