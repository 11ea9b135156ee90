//! Messages of the expiring-token flavor of the registry: tokens minted
//! under it lapse a fixed number of days after minting, and its queries can
//! either hide or show lapsed tokens.

use vstd::prelude::*;
use crate::metadata::CollectionExtension;

verus! {

/// What an expiring-token instance is asked to set up.
#[derive(Debug, PartialEq)]
pub struct InstantiateMsg {
    /// How many days a freshly minted token lives.
    pub expiration_days: u16,
    /// Name of the collection metadata.
    pub name: String,
    /// Symbol of the collection metadata.
    pub symbol: String,
    /// Optional extension of the collection metadata.
    pub collection_extension: Option<CollectionExtension>,
    /// The only account allowed to mint; the caller when unset.
    pub minter: Option<String>,
    /// The only account allowed to update collection metadata; the caller
    /// when unset.
    pub creator: Option<String>,
    /// Where withdrawn funds go, if set.
    pub withdraw_address: Option<String>,
}

/// One read-only call against an expiring-token instance. Each token query
/// takes `include_expired_nft`: unset or false hides lapsed tokens.
#[derive(Debug, PartialEq)]
pub enum QueryMsg {
    /// The owner of the token, error if it does not exist.
    OwnerOf { token_id: String, include_expired: Option<bool>, include_expired_nft: Option<bool> },
    /// One spender's approval on the token.
    Approval {
        token_id: String,
        spender: String,
        include_expired: Option<bool>,
        include_expired_nft: Option<bool>,
    },
    /// All approvals on the token.
    Approvals {
        token_id: String,
        include_expired: Option<bool>,
        include_expired_nft: Option<bool>,
    },
    /// The token's URI and extension.
    NftInfo { token_id: String, include_expired_nft: Option<bool> },
    /// Owner and token info at once.
    AllNftInfo {
        token_id: String,
        include_expired: Option<bool>,
        include_expired_nft: Option<bool>,
    },
    /// The token identifiers of one owner, paginated.
    Tokens {
        owner: String,
        start_after: Option<String>,
        limit: Option<u32>,
        include_expired_nft: Option<bool>,
    },
    /// Every token identifier, paginated.
    AllTokens {
        start_after: Option<String>,
        limit: Option<u32>,
        include_expired_nft: Option<bool>,
    },
    /// One operator's blanket grant from an owner.
    Operator { owner: String, operator: String, include_expired: Option<bool> },
    /// All operators granted by an owner.
    AllOperators {
        owner: String,
        include_expired: Option<bool>,
        start_after: Option<String>,
        limit: Option<u32>,
    },
    /// The number of live tokens.
    NumTokens {},
    /// The collection metadata.
    GetCollectionMetadata {},
    /// The minter's account, if the role is held.
    Minter {},
    /// The stored minter role.
    GetMinterOwnership {},
    /// The stored creator role.
    GetCreatorOwnership {},
    /// The withdraw address, if set.
    GetWithdrawAddress {},
}

} // verus!
