//! Messages of the non-transferable flavor of the registry: an optional
//! admin controls it, and tokens never change hands. Its query message is a
//! subset of the core one plus the admin query; the conversion below maps
//! the shared variants onto the core message.

use vstd::prelude::*;
use crate::msgs::{Cw721QueryMsg, Cw721QueryMsgView};

verus! {

/// What a non-transferable instance is asked to set up.
#[derive(Debug, PartialEq)]
pub struct InstantiateMsg {
    /// The account allowed to administer the instance, if any.
    pub admin: Option<String>,
    /// Name of the collection metadata.
    pub name: String,
    /// Symbol of the collection metadata.
    pub symbol: String,
    /// Optional extension of the collection metadata.
    pub collection_extension: Option<crate::metadata::CollectionExtension>,
    /// The only account allowed to mint; the caller when unset.
    pub minter: Option<String>,
    /// The only account allowed to update collection metadata; the caller
    /// when unset.
    pub creator: Option<String>,
    /// Where withdrawn funds go, if set.
    pub withdraw_address: Option<String>,
}

/// One read-only call against a non-transferable instance.
#[derive(Debug, PartialEq)]
pub enum QueryMsg {
    /// The instance's admin, if any.
    Admin {},
    /// The owner of the token, error if it does not exist.
    OwnerOf { token_id: String, include_expired: Option<bool> },
    /// One spender's approval on the token.
    Approval { token_id: String, spender: String, include_expired: Option<bool> },
    /// All approvals on the token.
    Approvals { token_id: String, include_expired: Option<bool> },
    /// All operators granted by an owner.
    AllOperators {
        owner: String,
        include_expired: Option<bool>,
        start_after: Option<String>,
        limit: Option<u32>,
    },
    /// The number of live tokens.
    NumTokens {},
    /// The collection metadata, under its older name.
    ContractInfo {},
    /// The collection metadata.
    GetCollectionMetadata {},
    /// The minter's account, if the role is held.
    Minter {},
    /// The stored minter role.
    GetMinterOwnership {},
    /// The stored creator role.
    GetCreatorOwnership {},
    /// The token's URI and extension.
    NftInfo { token_id: String },
    /// Owner and token info at once.
    AllNftInfo { token_id: String, include_expired: Option<bool> },
    /// The token identifiers of one owner, paginated.
    Tokens { owner: String, start_after: Option<String>, limit: Option<u32> },
    /// Every token identifier, paginated.
    AllTokens { start_after: Option<String>, limit: Option<u32> },
    /// The withdraw address, if set.
    GetWithdrawAddress {},
}

/// Spec-level shape of a non-transferable query.
pub ghost enum QueryMsgView {
    Admin,
    OwnerOf { token_id: Seq<char>, include_expired: Option<bool> },
    Approval { token_id: Seq<char>, spender: Seq<char>, include_expired: Option<bool> },
    Approvals { token_id: Seq<char>, include_expired: Option<bool> },
    AllOperators {
        owner: Seq<char>,
        include_expired: Option<bool>,
        start_after: Option<Seq<char>>,
        limit: Option<u32>,
    },
    NumTokens,
    ContractInfo,
    GetCollectionMetadata,
    Minter,
    GetMinterOwnership,
    GetCreatorOwnership,
    NftInfo { token_id: Seq<char> },
    AllNftInfo { token_id: Seq<char>, include_expired: Option<bool> },
    Tokens { owner: Seq<char>, start_after: Option<Seq<char>>, limit: Option<u32> },
    AllTokens { start_after: Option<Seq<char>>, limit: Option<u32> },
    GetWithdrawAddress,
}

impl DeepView for QueryMsg {
    type V = QueryMsgView;

    open spec fn deep_view(&self) -> QueryMsgView {
        match self {
            QueryMsg::Admin {  } => QueryMsgView::Admin,
            QueryMsg::OwnerOf { token_id, include_expired } => QueryMsgView::OwnerOf {
                token_id: token_id@,
                include_expired: *include_expired,
            },
            QueryMsg::Approval { token_id, spender, include_expired } => QueryMsgView::Approval {
                token_id: token_id@,
                spender: spender@,
                include_expired: *include_expired,
            },
            QueryMsg::Approvals { token_id, include_expired } => QueryMsgView::Approvals {
                token_id: token_id@,
                include_expired: *include_expired,
            },
            QueryMsg::AllOperators { owner, include_expired, start_after, limit } => QueryMsgView::AllOperators {
                owner: owner@,
                include_expired: *include_expired,
                start_after: start_after.deep_view(),
                limit: *limit,
            },
            QueryMsg::NumTokens {  } => QueryMsgView::NumTokens,
            QueryMsg::ContractInfo {  } => QueryMsgView::ContractInfo,
            QueryMsg::GetCollectionMetadata {  } => QueryMsgView::GetCollectionMetadata,
            QueryMsg::Minter {  } => QueryMsgView::Minter,
            QueryMsg::GetMinterOwnership {  } => QueryMsgView::GetMinterOwnership,
            QueryMsg::GetCreatorOwnership {  } => QueryMsgView::GetCreatorOwnership,
            QueryMsg::NftInfo { token_id } => QueryMsgView::NftInfo { token_id: token_id@ },
            QueryMsg::AllNftInfo { token_id, include_expired } => QueryMsgView::AllNftInfo {
                token_id: token_id@,
                include_expired: *include_expired,
            },
            QueryMsg::Tokens { owner, start_after, limit } => QueryMsgView::Tokens {
                owner: owner@,
                start_after: start_after.deep_view(),
                limit: *limit,
            },
            QueryMsg::AllTokens { start_after, limit } => QueryMsgView::AllTokens {
                start_after: start_after.deep_view(),
                limit: *limit,
            },
            QueryMsg::GetWithdrawAddress {  } => QueryMsgView::GetWithdrawAddress,
        }
    }
}

/// Whether a non-transferable query has a counterpart in the core query
/// message. The admin query and the approval and operator listings do not:
/// tokens under this flavor never change hands, so those grants are not
/// served.
pub open spec fn spec_supported(m: QueryMsgView) -> bool {
    !(m is Admin || m is Approval || m is Approvals || m is AllOperators)
}

/// The core counterpart of a supported non-transferable query: each shared
/// variant maps onto the identically shaped core variant, and the older
/// `ContractInfo` name maps onto the collection-metadata query.
pub open spec fn spec_into_core(m: QueryMsgView) -> Cw721QueryMsgView
    recommends
        spec_supported(m),
{
    match m {
        QueryMsgView::OwnerOf { token_id, include_expired } => Cw721QueryMsgView::OwnerOf {
            token_id,
            include_expired,
        },
        QueryMsgView::NumTokens => Cw721QueryMsgView::NumTokens,
        QueryMsgView::ContractInfo => Cw721QueryMsgView::GetCollectionMetadata,
        QueryMsgView::GetCollectionMetadata => Cw721QueryMsgView::GetCollectionMetadata,
        QueryMsgView::Minter => Cw721QueryMsgView::Minter,
        QueryMsgView::GetMinterOwnership => Cw721QueryMsgView::GetMinterOwnership,
        QueryMsgView::GetCreatorOwnership => Cw721QueryMsgView::GetCreatorOwnership,
        QueryMsgView::NftInfo { token_id } => Cw721QueryMsgView::NftInfo { token_id },
        QueryMsgView::AllNftInfo { token_id, include_expired } => Cw721QueryMsgView::AllNftInfo {
            token_id,
            include_expired,
        },
        QueryMsgView::Tokens { owner, start_after, limit } => Cw721QueryMsgView::Tokens {
            owner,
            start_after,
            limit,
        },
        QueryMsgView::AllTokens { start_after, limit } => Cw721QueryMsgView::AllTokens {
            start_after,
            limit,
        },
        _ => Cw721QueryMsgView::GetWithdrawAddress,
    }
}

impl Cw721QueryMsg {
    /// The core query a supported non-transferable query stands for. The
    /// unsupported variants have no counterpart and are not accepted here.
    pub fn from(msg: QueryMsg) -> (r: Cw721QueryMsg)
        requires
            spec_supported(msg.deep_view()),
        ensures
            r.deep_view() == spec_into_core(msg.deep_view()),
    {
        match msg {
            QueryMsg::OwnerOf { token_id, include_expired } => Cw721QueryMsg::OwnerOf {
                token_id,
                include_expired,
            },
            QueryMsg::NumTokens {  } => Cw721QueryMsg::NumTokens {  },
            QueryMsg::ContractInfo {  } => Cw721QueryMsg::GetCollectionMetadata {  },
            QueryMsg::GetCollectionMetadata {  } => Cw721QueryMsg::GetCollectionMetadata {  },
            QueryMsg::Minter {  } => Cw721QueryMsg::Minter {  },
            QueryMsg::GetMinterOwnership {  } => Cw721QueryMsg::GetMinterOwnership {  },
            QueryMsg::GetCreatorOwnership {  } => Cw721QueryMsg::GetCreatorOwnership {  },
            QueryMsg::NftInfo { token_id } => Cw721QueryMsg::NftInfo { token_id },
            QueryMsg::AllNftInfo { token_id, include_expired } => Cw721QueryMsg::AllNftInfo {
                token_id,
                include_expired,
            },
            QueryMsg::Tokens { owner, start_after, limit } => Cw721QueryMsg::Tokens {
                owner,
                start_after,
                limit,
            },
            QueryMsg::AllTokens { start_after, limit } => Cw721QueryMsg::AllTokens {
                start_after,
                limit,
            },
            QueryMsg::GetWithdrawAddress {  } => Cw721QueryMsg::GetWithdrawAddress {  },
            QueryMsg::Admin {  } => vstd::pervasive::unreached(),
            QueryMsg::Approval { .. } => vstd::pervasive::unreached(),
            QueryMsg::Approvals { .. } => vstd::pervasive::unreached(),
            QueryMsg::AllOperators { .. } => vstd::pervasive::unreached(),
        }
    }
}

/// The admin of a non-transferable instance.
#[derive(Debug, PartialEq)]
pub struct AdminResponse {
    pub admin: Option<String>,
}

} // verus!
