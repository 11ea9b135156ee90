//! The external interface: execute and query messages, the effect log, and
//! the two dispatchers.
//!
//! Every external call enters as one message against the state. The execute
//! dispatcher applies exactly one lifecycle transition and answers with an
//! effect record for the host to emit; the query dispatcher answers without
//! mutating anything.

use vstd::prelude::*;
use crate::error::ContractError;
use crate::metadata::{CollectionMetadata, CollectionMetadataMsg, CollectionMetadataMsgView};
use crate::query::{
    OwnerOfResponse, OwnerOfResponseView, NftInfoResponse, NftInfoResponseView, AllNftInfoResponse,
    AllNftInfoResponseView, query_owner_of, query_approval, query_approvals, query_operator,
    query_operators, query_num_tokens, query_collection_metadata, query_nft_info,
    query_all_nft_info, query_tokens, query_all_tokens, spec_owner_of, spec_approval,
    spec_approvals, spec_operator, spec_operators, spec_owner_tokens, spec_limit,
};
use crate::roles::{RoleAction, RoleActionView, OwnershipRole, OwnershipRoleView};
use crate::state::{ContractState, StateView, state_wf, clone_opt_role};
use crate::tokens::{Approval, ApprovalView, NftExtension, clone_opt_string};
use crate::execute::{
    RoleKind, mint, transfer_nft, send_nft, burn, approve, revoke, approve_all, revoke_all,
    update_collection_metadata, update_role, spec_mint, spec_transfer, spec_send, spec_burn,
    spec_approve, spec_revoke, spec_approve_all, spec_revoke_all,
    spec_update_collection_metadata, spec_update_role,
};

verus! {

/// One state-changing call.
#[derive(Debug, PartialEq)]
pub enum Cw721ExecuteMsg {
    /// Creates a fresh token; only the minter may.
    Mint {
        token_id: String,
        owner: String,
        token_uri: Option<String>,
        extension: Option<NftExtension>,
    },
    /// Moves a token to a new owner.
    TransferNft { recipient: String, token_id: String },
    /// Moves a token to a contract and asks the host to notify it with `msg`.
    SendNft { contract: String, token_id: String, msg: Vec<u8> },
    /// Grants a per-token approval.
    Approve { spender: String, token_id: String, expires: Option<u64> },
    /// Withdraws a per-token approval.
    Revoke { spender: String, token_id: String },
    /// Grants an operator authority over all of the caller's tokens.
    ApproveAll { operator: String, expires: Option<u64> },
    /// Withdraws an operator's blanket authority.
    RevokeAll { operator: String },
    /// Removes a token.
    Burn { token_id: String },
    /// Updates the collection metadata; only the creator may.
    UpdateCollectionMetadata { collection_metadata: CollectionMetadataMsg },
    /// One step of the minter-role handshake.
    UpdateMinterOwnership(RoleAction),
    /// One step of the creator-role handshake.
    UpdateCreatorOwnership(RoleAction),
}

/// Spec-level shape of an execute message.
pub ghost enum Cw721ExecuteMsgView {
    Mint {
        token_id: Seq<char>,
        owner: Seq<char>,
        token_uri: Option<Seq<char>>,
        extension: Option<crate::tokens::NftExtensionView>,
    },
    TransferNft { recipient: Seq<char>, token_id: Seq<char> },
    SendNft { contract: Seq<char>, token_id: Seq<char>, msg: Seq<u8> },
    Approve { spender: Seq<char>, token_id: Seq<char>, expires: Option<u64> },
    Revoke { spender: Seq<char>, token_id: Seq<char> },
    ApproveAll { operator: Seq<char>, expires: Option<u64> },
    RevokeAll { operator: Seq<char> },
    Burn { token_id: Seq<char> },
    UpdateCollectionMetadata { collection_metadata: CollectionMetadataMsgView },
    UpdateMinterOwnership { action: RoleActionView },
    UpdateCreatorOwnership { action: RoleActionView },
}

impl DeepView for Cw721ExecuteMsg {
    type V = Cw721ExecuteMsgView;

    open spec fn deep_view(&self) -> Cw721ExecuteMsgView {
        match self {
            Cw721ExecuteMsg::Mint { token_id, owner, token_uri, extension } => Cw721ExecuteMsgView::Mint {
                token_id: token_id@,
                owner: owner@,
                token_uri: token_uri.deep_view(),
                extension: extension.deep_view(),
            },
            Cw721ExecuteMsg::TransferNft { recipient, token_id } => Cw721ExecuteMsgView::TransferNft {
                recipient: recipient@,
                token_id: token_id@,
            },
            Cw721ExecuteMsg::SendNft { contract, token_id, msg } => Cw721ExecuteMsgView::SendNft {
                contract: contract@,
                token_id: token_id@,
                msg: msg.deep_view(),
            },
            Cw721ExecuteMsg::Approve { spender, token_id, expires } => Cw721ExecuteMsgView::Approve {
                spender: spender@,
                token_id: token_id@,
                expires: *expires,
            },
            Cw721ExecuteMsg::Revoke { spender, token_id } => Cw721ExecuteMsgView::Revoke {
                spender: spender@,
                token_id: token_id@,
            },
            Cw721ExecuteMsg::ApproveAll { operator, expires } => Cw721ExecuteMsgView::ApproveAll {
                operator: operator@,
                expires: *expires,
            },
            Cw721ExecuteMsg::RevokeAll { operator } => Cw721ExecuteMsgView::RevokeAll {
                operator: operator@,
            },
            Cw721ExecuteMsg::Burn { token_id } => Cw721ExecuteMsgView::Burn {
                token_id: token_id@,
            },
            Cw721ExecuteMsg::UpdateCollectionMetadata { collection_metadata } => Cw721ExecuteMsgView::UpdateCollectionMetadata {
                collection_metadata: collection_metadata.deep_view(),
            },
            Cw721ExecuteMsg::UpdateMinterOwnership(action) => Cw721ExecuteMsgView::UpdateMinterOwnership {
                action: action.deep_view(),
            },
            Cw721ExecuteMsg::UpdateCreatorOwnership(action) => Cw721ExecuteMsgView::UpdateCreatorOwnership {
                action: action.deep_view(),
            },
        }
    }
}

/// The effect record of one completed call: what the host should announce.
#[derive(Debug, PartialEq)]
pub enum Effects {
    Minted { token_id: String, owner: String },
    Transferred { token_id: String, recipient: String },
    /// Carries the payload for the receiver-hook notification.
    Sent { token_id: String, contract: String, msg: Vec<u8> },
    Approved { token_id: String, spender: String },
    Revoked { token_id: String, spender: String },
    ApprovedAll { operator: String },
    RevokedAll { operator: String },
    Burned { token_id: String },
    MetadataUpdated,
    MinterOwnershipUpdated,
    CreatorOwnershipUpdated,
}

/// Spec-level shape of an effect record.
pub ghost enum EffectsView {
    Minted { token_id: Seq<char>, owner: Seq<char> },
    Transferred { token_id: Seq<char>, recipient: Seq<char> },
    Sent { token_id: Seq<char>, contract: Seq<char>, msg: Seq<u8> },
    Approved { token_id: Seq<char>, spender: Seq<char> },
    Revoked { token_id: Seq<char>, spender: Seq<char> },
    ApprovedAll { operator: Seq<char> },
    RevokedAll { operator: Seq<char> },
    Burned { token_id: Seq<char> },
    MetadataUpdated,
    MinterOwnershipUpdated,
    CreatorOwnershipUpdated,
}

impl DeepView for Effects {
    type V = EffectsView;

    open spec fn deep_view(&self) -> EffectsView {
        match self {
            Effects::Minted { token_id, owner } => EffectsView::Minted {
                token_id: token_id@,
                owner: owner@,
            },
            Effects::Transferred { token_id, recipient } => EffectsView::Transferred {
                token_id: token_id@,
                recipient: recipient@,
            },
            Effects::Sent { token_id, contract, msg } => EffectsView::Sent {
                token_id: token_id@,
                contract: contract@,
                msg: msg.deep_view(),
            },
            Effects::Approved { token_id, spender } => EffectsView::Approved {
                token_id: token_id@,
                spender: spender@,
            },
            Effects::Revoked { token_id, spender } => EffectsView::Revoked {
                token_id: token_id@,
                spender: spender@,
            },
            Effects::ApprovedAll { operator } => EffectsView::ApprovedAll { operator: operator@ },
            Effects::RevokedAll { operator } => EffectsView::RevokedAll { operator: operator@ },
            Effects::Burned { token_id } => EffectsView::Burned { token_id: token_id@ },
            Effects::MetadataUpdated => EffectsView::MetadataUpdated,
            Effects::MinterOwnershipUpdated => EffectsView::MinterOwnershipUpdated,
            Effects::CreatorOwnershipUpdated => EffectsView::CreatorOwnershipUpdated,
        }
    }
}

/// The state after one execute message, or why it is refused: each arm is the
/// corresponding lifecycle transition.
pub open spec fn spec_execute(
    s: StateView,
    m: Cw721ExecuteMsgView,
    caller: Seq<char>,
    now: u64,
) -> Result<StateView, ContractError> {
    match m {
        Cw721ExecuteMsgView::Mint { token_id, owner, token_uri, extension } => spec_mint(
            s,
            token_id,
            owner,
            token_uri,
            extension,
            caller,
        ),
        Cw721ExecuteMsgView::TransferNft { recipient, token_id } => spec_transfer(
            s,
            token_id,
            recipient,
            caller,
            now,
        ),
        Cw721ExecuteMsgView::SendNft { contract, token_id, msg } => spec_send(
            s,
            token_id,
            contract,
            caller,
            now,
        ),
        Cw721ExecuteMsgView::Approve { spender, token_id, expires } => spec_approve(
            s,
            token_id,
            spender,
            expires,
            caller,
            now,
        ),
        Cw721ExecuteMsgView::Revoke { spender, token_id } => spec_revoke(
            s,
            token_id,
            spender,
            caller,
        ),
        Cw721ExecuteMsgView::ApproveAll { operator, expires } => spec_approve_all(
            s,
            operator,
            expires,
            caller,
            now,
        ),
        Cw721ExecuteMsgView::RevokeAll { operator } => spec_revoke_all(s, operator, caller),
        Cw721ExecuteMsgView::Burn { token_id } => spec_burn(s, token_id, caller, now),
        Cw721ExecuteMsgView::UpdateCollectionMetadata { collection_metadata } => spec_update_collection_metadata(
            s,
            collection_metadata,
            caller,
            now,
        ),
        Cw721ExecuteMsgView::UpdateMinterOwnership { action } => spec_update_role(
            s,
            RoleKind::Minter,
            action,
            caller,
            now,
        ),
        Cw721ExecuteMsgView::UpdateCreatorOwnership { action } => spec_update_role(
            s,
            RoleKind::Creator,
            action,
            caller,
            now,
        ),
    }
}

/// The effect record a successful execute message produces.
pub open spec fn spec_effects(m: Cw721ExecuteMsgView) -> EffectsView {
    match m {
        Cw721ExecuteMsgView::Mint { token_id, owner, .. } => EffectsView::Minted {
            token_id,
            owner,
        },
        Cw721ExecuteMsgView::TransferNft { recipient, token_id } => EffectsView::Transferred {
            token_id,
            recipient,
        },
        Cw721ExecuteMsgView::SendNft { contract, token_id, msg } => EffectsView::Sent {
            token_id,
            contract,
            msg,
        },
        Cw721ExecuteMsgView::Approve { spender, token_id, .. } => EffectsView::Approved {
            token_id,
            spender,
        },
        Cw721ExecuteMsgView::Revoke { spender, token_id } => EffectsView::Revoked {
            token_id,
            spender,
        },
        Cw721ExecuteMsgView::ApproveAll { operator, .. } => EffectsView::ApprovedAll { operator },
        Cw721ExecuteMsgView::RevokeAll { operator } => EffectsView::RevokedAll { operator },
        Cw721ExecuteMsgView::Burn { token_id } => EffectsView::Burned { token_id },
        Cw721ExecuteMsgView::UpdateCollectionMetadata { .. } => EffectsView::MetadataUpdated,
        Cw721ExecuteMsgView::UpdateMinterOwnership { .. } => EffectsView::MinterOwnershipUpdated,
        Cw721ExecuteMsgView::UpdateCreatorOwnership { .. } => EffectsView::CreatorOwnershipUpdated,
    }
}

/// Applies one execute message on behalf of `caller` at time `now`: exactly
/// one lifecycle transition, all-or-nothing, answering with the effect record
/// for the host to emit.
pub fn execute(st: &mut ContractState, msg: Cw721ExecuteMsg, caller: &str, now: u64) -> (r: Result<
    Effects,
    ContractError,
>)
    requires
        state_wf(old(st)@),
    ensures
        state_wf(final(st)@),
        match r {
            Ok(eff) => spec_execute(old(st)@, msg.deep_view(), caller@, now) == Ok::<
                StateView,
                ContractError,
            >(final(st)@) && eff.deep_view() == spec_effects(msg.deep_view()),
            Err(e) => spec_execute(old(st)@, msg.deep_view(), caller@, now) == Err::<
                StateView,
                ContractError,
            >(e) && final(st)@ == old(st)@,
        },
{
    match msg {
        Cw721ExecuteMsg::Mint { token_id, owner, token_uri, extension } => {
            match mint(st, token_id.as_str(), owner.as_str(), token_uri, extension, caller) {
                Ok(()) => Ok(Effects::Minted { token_id, owner }),
                Err(e) => Err(e),
            }
        },
        Cw721ExecuteMsg::TransferNft { recipient, token_id } => {
            match transfer_nft(st, token_id.as_str(), recipient.as_str(), caller, now) {
                Ok(()) => Ok(Effects::Transferred { token_id, recipient }),
                Err(e) => Err(e),
            }
        },
        Cw721ExecuteMsg::SendNft { contract, token_id, msg } => {
            match send_nft(st, token_id.as_str(), contract.as_str(), caller, now) {
                Ok(()) => Ok(Effects::Sent { token_id, contract, msg }),
                Err(e) => Err(e),
            }
        },
        Cw721ExecuteMsg::Approve { spender, token_id, expires } => {
            match approve(st, token_id.as_str(), spender.as_str(), expires, caller, now) {
                Ok(()) => Ok(Effects::Approved { token_id, spender }),
                Err(e) => Err(e),
            }
        },
        Cw721ExecuteMsg::Revoke { spender, token_id } => {
            match revoke(st, token_id.as_str(), spender.as_str(), caller) {
                Ok(()) => Ok(Effects::Revoked { token_id, spender }),
                Err(e) => Err(e),
            }
        },
        Cw721ExecuteMsg::ApproveAll { operator, expires } => {
            match approve_all(st, operator.as_str(), expires, caller, now) {
                Ok(()) => Ok(Effects::ApprovedAll { operator }),
                Err(e) => Err(e),
            }
        },
        Cw721ExecuteMsg::RevokeAll { operator } => {
            match revoke_all(st, operator.as_str(), caller) {
                Ok(()) => Ok(Effects::RevokedAll { operator }),
                Err(e) => Err(e),
            }
        },
        Cw721ExecuteMsg::Burn { token_id } => {
            match burn(st, token_id.as_str(), caller, now) {
                Ok(()) => Ok(Effects::Burned { token_id }),
                Err(e) => Err(e),
            }
        },
        Cw721ExecuteMsg::UpdateCollectionMetadata { collection_metadata } => {
            match update_collection_metadata(st, &collection_metadata, caller, now) {
                Ok(()) => Ok(Effects::MetadataUpdated),
                Err(e) => Err(e),
            }
        },
        Cw721ExecuteMsg::UpdateMinterOwnership(action) => {
            match update_role(st, RoleKind::Minter, &action, caller, now) {
                Ok(()) => Ok(Effects::MinterOwnershipUpdated),
                Err(e) => Err(e),
            }
        },
        Cw721ExecuteMsg::UpdateCreatorOwnership(action) => {
            match update_role(st, RoleKind::Creator, &action, caller, now) {
                Ok(()) => Ok(Effects::CreatorOwnershipUpdated),
                Err(e) => Err(e),
            }
        },
    }
}

/// One read-only call.
#[derive(Debug, PartialEq)]
pub enum Cw721QueryMsg {
    /// The owner of the token, error if it does not exist.
    OwnerOf { token_id: String, include_expired: Option<bool> },
    /// One spender's approval on the token.
    Approval { token_id: String, spender: String, include_expired: Option<bool> },
    /// All approvals on the token.
    Approvals { token_id: String, include_expired: Option<bool> },
    /// One operator's blanket grant from an owner.
    Operator { owner: String, operator: String, include_expired: Option<bool> },
    /// All operators granted by an owner.
    AllOperators {
        owner: String,
        include_expired: Option<bool>,
        start_after: Option<String>,
        limit: Option<u32>,
    },
    /// The number of live tokens.
    NumTokens {},
    /// The collection metadata.
    GetCollectionMetadata {},
    /// The minter's account, if the role is held.
    Minter {},
    /// The stored minter role.
    GetMinterOwnership {},
    /// The stored creator role.
    GetCreatorOwnership {},
    /// The token's URI and extension.
    NftInfo { token_id: String },
    /// Owner and token info at once.
    AllNftInfo { token_id: String, include_expired: Option<bool> },
    /// The token identifiers of one owner, paginated.
    Tokens { owner: String, start_after: Option<String>, limit: Option<u32> },
    /// Every token identifier, paginated.
    AllTokens { start_after: Option<String>, limit: Option<u32> },
    /// The withdraw address, if set.
    GetWithdrawAddress {},
}

/// Spec-level shape of a core query message.
pub ghost enum Cw721QueryMsgView {
    OwnerOf { token_id: Seq<char>, include_expired: Option<bool> },
    Approval { token_id: Seq<char>, spender: Seq<char>, include_expired: Option<bool> },
    Approvals { token_id: Seq<char>, include_expired: Option<bool> },
    Operator { owner: Seq<char>, operator: Seq<char>, include_expired: Option<bool> },
    AllOperators {
        owner: Seq<char>,
        include_expired: Option<bool>,
        start_after: Option<Seq<char>>,
        limit: Option<u32>,
    },
    NumTokens,
    GetCollectionMetadata,
    Minter,
    GetMinterOwnership,
    GetCreatorOwnership,
    NftInfo { token_id: Seq<char> },
    AllNftInfo { token_id: Seq<char>, include_expired: Option<bool> },
    Tokens { owner: Seq<char>, start_after: Option<Seq<char>>, limit: Option<u32> },
    AllTokens { start_after: Option<Seq<char>>, limit: Option<u32> },
    GetWithdrawAddress,
}

impl DeepView for Cw721QueryMsg {
    type V = Cw721QueryMsgView;

    open spec fn deep_view(&self) -> Cw721QueryMsgView {
        match self {
            Cw721QueryMsg::OwnerOf { token_id, include_expired } => Cw721QueryMsgView::OwnerOf {
                token_id: token_id@,
                include_expired: *include_expired,
            },
            Cw721QueryMsg::Approval { token_id, spender, include_expired } => Cw721QueryMsgView::Approval {
                token_id: token_id@,
                spender: spender@,
                include_expired: *include_expired,
            },
            Cw721QueryMsg::Approvals { token_id, include_expired } => Cw721QueryMsgView::Approvals {
                token_id: token_id@,
                include_expired: *include_expired,
            },
            Cw721QueryMsg::Operator { owner, operator, include_expired } => Cw721QueryMsgView::Operator {
                owner: owner@,
                operator: operator@,
                include_expired: *include_expired,
            },
            Cw721QueryMsg::AllOperators { owner, include_expired, start_after, limit } => Cw721QueryMsgView::AllOperators {
                owner: owner@,
                include_expired: *include_expired,
                start_after: start_after.deep_view(),
                limit: *limit,
            },
            Cw721QueryMsg::NumTokens {  } => Cw721QueryMsgView::NumTokens,
            Cw721QueryMsg::GetCollectionMetadata {  } => Cw721QueryMsgView::GetCollectionMetadata,
            Cw721QueryMsg::Minter {  } => Cw721QueryMsgView::Minter,
            Cw721QueryMsg::GetMinterOwnership {  } => Cw721QueryMsgView::GetMinterOwnership,
            Cw721QueryMsg::GetCreatorOwnership {  } => Cw721QueryMsgView::GetCreatorOwnership,
            Cw721QueryMsg::NftInfo { token_id } => Cw721QueryMsgView::NftInfo {
                token_id: token_id@,
            },
            Cw721QueryMsg::AllNftInfo { token_id, include_expired } => Cw721QueryMsgView::AllNftInfo {
                token_id: token_id@,
                include_expired: *include_expired,
            },
            Cw721QueryMsg::Tokens { owner, start_after, limit } => Cw721QueryMsgView::Tokens {
                owner: owner@,
                start_after: start_after.deep_view(),
                limit: *limit,
            },
            Cw721QueryMsg::AllTokens { start_after, limit } => Cw721QueryMsgView::AllTokens {
                start_after: start_after.deep_view(),
                limit: *limit,
            },
            Cw721QueryMsg::GetWithdrawAddress {  } => Cw721QueryMsgView::GetWithdrawAddress,
        }
    }
}

/// One query's answer.
#[derive(Debug, PartialEq)]
pub enum QueryResponse {
    OwnerOf(OwnerOfResponse),
    Approval(Approval),
    Approvals(Vec<Approval>),
    Operator(Approval),
    Operators(Vec<Approval>),
    NumTokens(u64),
    CollectionMetadata(Option<CollectionMetadata>),
    Minter(Option<String>),
    MinterOwnership(Option<OwnershipRole>),
    CreatorOwnership(Option<OwnershipRole>),
    NftInfo(NftInfoResponse),
    AllNftInfo(AllNftInfoResponse),
    Tokens(Vec<String>),
    WithdrawAddress(Option<String>),
}

/// Spec-level shape of a query's answer.
pub ghost enum QueryResponseView {
    OwnerOf { v: OwnerOfResponseView },
    Approval { v: ApprovalView },
    Approvals { v: Seq<ApprovalView> },
    Operator { v: ApprovalView },
    Operators { v: Seq<ApprovalView> },
    NumTokens { v: u64 },
    CollectionMetadata { v: Option<crate::metadata::CollectionMetadataView> },
    Minter { v: Option<Seq<char>> },
    MinterOwnership { v: Option<OwnershipRoleView> },
    CreatorOwnership { v: Option<OwnershipRoleView> },
    NftInfo { v: NftInfoResponseView },
    AllNftInfo { v: AllNftInfoResponseView },
    Tokens { v: Seq<Seq<char>> },
    WithdrawAddress { v: Option<Seq<char>> },
}

impl DeepView for QueryResponse {
    type V = QueryResponseView;

    open spec fn deep_view(&self) -> QueryResponseView {
        match self {
            QueryResponse::OwnerOf(v) => QueryResponseView::OwnerOf { v: v.deep_view() },
            QueryResponse::Approval(v) => QueryResponseView::Approval { v: v.deep_view() },
            QueryResponse::Approvals(v) => QueryResponseView::Approvals { v: v.deep_view() },
            QueryResponse::Operator(v) => QueryResponseView::Operator { v: v.deep_view() },
            QueryResponse::Operators(v) => QueryResponseView::Operators { v: v.deep_view() },
            QueryResponse::NumTokens(v) => QueryResponseView::NumTokens { v: *v },
            QueryResponse::CollectionMetadata(v) => QueryResponseView::CollectionMetadata {
                v: v.deep_view(),
            },
            QueryResponse::Minter(v) => QueryResponseView::Minter { v: v.deep_view() },
            QueryResponse::MinterOwnership(v) => QueryResponseView::MinterOwnership {
                v: v.deep_view(),
            },
            QueryResponse::CreatorOwnership(v) => QueryResponseView::CreatorOwnership {
                v: v.deep_view(),
            },
            QueryResponse::NftInfo(v) => QueryResponseView::NftInfo { v: v.deep_view() },
            QueryResponse::AllNftInfo(v) => QueryResponseView::AllNftInfo { v: v.deep_view() },
            QueryResponse::Tokens(v) => QueryResponseView::Tokens { v: v.deep_view() },
            QueryResponse::WithdrawAddress(v) => QueryResponseView::WithdrawAddress {
                v: v.deep_view(),
            },
        }
    }
}

/// The minter's account: the holder of the minter role, if any.
pub open spec fn spec_minter_account(s: StateView) -> Option<Seq<char>> {
    match s.minter {
        Option::Some(role) => role.holder,
        Option::None => None,
    }
}

/// Whether to include expired grants: asked for explicitly, hidden otherwise.
pub open spec fn spec_include_expired(flag: Option<bool>) -> bool {
    flag == Some(true)
}

/// Resolves the `include_expired` flag of a request.
fn include_expired_of(flag: Option<bool>) -> (r: bool)
    ensures
        r == spec_include_expired(flag),
{
    matches!(flag, Some(true))
}

/// Answers one query against the state at time `now`. Queries never mutate;
/// `now` only drives the expiration filtering.
pub fn query(st: &ContractState, msg: &Cw721QueryMsg, now: u64) -> (r: Result<
    QueryResponse,
    ContractError,
>)
    requires
        state_wf(st@),
    ensures
        match msg {
            Cw721QueryMsg::OwnerOf { token_id, include_expired } => match r {
                Ok(QueryResponse::OwnerOf(v)) => spec_owner_of(st@, token_id@,
                spec_include_expired(*include_expired), now) == Ok::<
                    OwnerOfResponseView,
                    ContractError,
                >(v.deep_view()),
                Err(e) => spec_owner_of(st@, token_id@, spec_include_expired(*include_expired),
                now) == Err::<OwnerOfResponseView, ContractError>(e),
                _ => false,
            },
            Cw721QueryMsg::Approval { token_id, spender, include_expired } => match r {
                Ok(QueryResponse::Approval(v)) => spec_approval(st@, token_id@, spender@,
                spec_include_expired(*include_expired), now) == Ok::<ApprovalView, ContractError>(
                    v.deep_view(),
                ),
                Err(e) => spec_approval(st@, token_id@, spender@, spec_include_expired(
                    *include_expired,
                ), now) == Err::<ApprovalView, ContractError>(e),
                _ => false,
            },
            Cw721QueryMsg::Approvals { token_id, include_expired } => match r {
                Ok(QueryResponse::Approvals(v)) => spec_approvals(st@, token_id@,
                spec_include_expired(*include_expired), now) == Ok::<
                    Seq<ApprovalView>,
                    ContractError,
                >(v.deep_view()),
                Err(e) => spec_approvals(st@, token_id@, spec_include_expired(*include_expired),
                now) == Err::<Seq<ApprovalView>, ContractError>(e),
                _ => false,
            },
            Cw721QueryMsg::Operator { owner, operator, include_expired } => match r {
                Ok(QueryResponse::Operator(v)) => spec_operator(st@, owner@, operator@,
                spec_include_expired(*include_expired), now) == Ok::<ApprovalView, ContractError>(
                    v.deep_view(),
                ),
                Err(e) => spec_operator(st@, owner@, operator@, spec_include_expired(
                    *include_expired,
                ), now) == Err::<ApprovalView, ContractError>(e),
                _ => false,
            },
            Cw721QueryMsg::AllOperators { owner, include_expired, start_after, limit } => match r {
                Ok(QueryResponse::Operators(v)) => v.deep_view() == spec_operators(st@, owner@,
                spec_include_expired(*include_expired), start_after.deep_view(), spec_limit(
                    *limit,
                ), now),
                _ => false,
            },
            Cw721QueryMsg::NumTokens {  } => match r {
                Ok(QueryResponse::NumTokens(v)) => v == st@.tokens.len(),
                _ => false,
            },
            Cw721QueryMsg::GetCollectionMetadata {  } => match r {
                Ok(QueryResponse::CollectionMetadata(v)) => v.deep_view() == st@.collection,
                _ => false,
            },
            Cw721QueryMsg::Minter {  } => match r {
                Ok(QueryResponse::Minter(v)) => v.deep_view() == spec_minter_account(st@),
                _ => false,
            },
            Cw721QueryMsg::GetMinterOwnership {  } => match r {
                Ok(QueryResponse::MinterOwnership(v)) => v.deep_view() == st@.minter,
                _ => false,
            },
            Cw721QueryMsg::GetCreatorOwnership {  } => match r {
                Ok(QueryResponse::CreatorOwnership(v)) => v.deep_view() == st@.creator,
                _ => false,
            },
            Cw721QueryMsg::NftInfo { token_id } => match r {
                Ok(QueryResponse::NftInfo(v)) => crate::query::spec_nft_info(st@, token_id@)
                    == Ok::<NftInfoResponseView, ContractError>(v.deep_view()),
                Err(e) => crate::query::spec_nft_info(st@, token_id@) == Err::<
                    NftInfoResponseView,
                    ContractError,
                >(e),
                _ => false,
            },
            Cw721QueryMsg::AllNftInfo { token_id, include_expired } => match r {
                Ok(QueryResponse::AllNftInfo(v)) => spec_owner_of(st@, token_id@,
                spec_include_expired(*include_expired), now) == Ok::<
                    OwnerOfResponseView,
                    ContractError,
                >(v.access.deep_view()) && crate::query::spec_nft_info(st@, token_id@) == Ok::<
                    NftInfoResponseView,
                    ContractError,
                >(v.info.deep_view()),
                Err(e) => spec_owner_of(st@, token_id@, spec_include_expired(*include_expired),
                now) == Err::<OwnerOfResponseView, ContractError>(e),
                _ => false,
            },
            Cw721QueryMsg::Tokens { owner, start_after, limit } => match r {
                Ok(QueryResponse::Tokens(v)) => v.deep_view() == spec_owner_tokens(st@, owner@,
                start_after.deep_view(), spec_limit(*limit)),
                _ => false,
            },
            Cw721QueryMsg::AllTokens { start_after, limit } => match r {
                Ok(QueryResponse::Tokens(v)) => v.deep_view() == crate::assoc::spec_page(
                    st@.tokens,
                    start_after.deep_view(),
                    spec_limit(*limit),
                ),
                _ => false,
            },
            Cw721QueryMsg::GetWithdrawAddress {  } => match r {
                Ok(QueryResponse::WithdrawAddress(v)) => v.deep_view() == st@.withdraw_address,
                _ => false,
            },
        },
{
    match msg {
        Cw721QueryMsg::OwnerOf { token_id, include_expired } => {
            match query_owner_of(st, token_id.as_str(), include_expired_of(*include_expired), now) {
                Ok(v) => Ok(QueryResponse::OwnerOf(v)),
                Err(e) => Err(e),
            }
        },
        Cw721QueryMsg::Approval { token_id, spender, include_expired } => {
            match query_approval(
                st,
                token_id.as_str(),
                spender.as_str(),
                include_expired_of(*include_expired),
                now,
            ) {
                Ok(v) => Ok(QueryResponse::Approval(v)),
                Err(e) => Err(e),
            }
        },
        Cw721QueryMsg::Approvals { token_id, include_expired } => {
            match query_approvals(
                st,
                token_id.as_str(),
                include_expired_of(*include_expired),
                now,
            ) {
                Ok(v) => Ok(QueryResponse::Approvals(v)),
                Err(e) => Err(e),
            }
        },
        Cw721QueryMsg::Operator { owner, operator, include_expired } => {
            match query_operator(
                st,
                owner.as_str(),
                operator.as_str(),
                include_expired_of(*include_expired),
                now,
            ) {
                Ok(v) => Ok(QueryResponse::Operator(v)),
                Err(e) => Err(e),
            }
        },
        Cw721QueryMsg::AllOperators { owner, include_expired, start_after, limit } => {
            let cursor: Option<&str> = match start_after {
                Some(c) => Some(c.as_str()),
                None => None,
            };
            Ok(
                QueryResponse::Operators(
                    query_operators(
                        st,
                        owner.as_str(),
                        include_expired_of(*include_expired),
                        cursor,
                        *limit,
                        now,
                    ),
                ),
            )
        },
        Cw721QueryMsg::NumTokens {  } => Ok(QueryResponse::NumTokens(query_num_tokens(st))),
        Cw721QueryMsg::GetCollectionMetadata {  } => Ok(
            QueryResponse::CollectionMetadata(query_collection_metadata(st)),
        ),
        Cw721QueryMsg::Minter {  } => {
            let holder = match &st.minter {
                Some(role) => clone_opt_string(&role.holder),
                None => None,
            };
            Ok(QueryResponse::Minter(holder))
        },
        Cw721QueryMsg::GetMinterOwnership {  } => Ok(
            QueryResponse::MinterOwnership(clone_opt_role(&st.minter)),
        ),
        Cw721QueryMsg::GetCreatorOwnership {  } => Ok(
            QueryResponse::CreatorOwnership(clone_opt_role(&st.creator)),
        ),
        Cw721QueryMsg::NftInfo { token_id } => {
            match query_nft_info(st, token_id.as_str()) {
                Ok(v) => Ok(QueryResponse::NftInfo(v)),
                Err(e) => Err(e),
            }
        },
        Cw721QueryMsg::AllNftInfo { token_id, include_expired } => {
            match query_all_nft_info(
                st,
                token_id.as_str(),
                include_expired_of(*include_expired),
                now,
            ) {
                Ok(v) => Ok(QueryResponse::AllNftInfo(v)),
                Err(e) => Err(e),
            }
        },
        Cw721QueryMsg::Tokens { owner, start_after, limit } => {
            let cursor: Option<&str> = match start_after {
                Some(c) => Some(c.as_str()),
                None => None,
            };
            Ok(QueryResponse::Tokens(query_tokens(st, owner.as_str(), cursor, *limit)))
        },
        Cw721QueryMsg::AllTokens { start_after, limit } => {
            let cursor: Option<&str> = match start_after {
                Some(c) => Some(c.as_str()),
                None => None,
            };
            Ok(QueryResponse::Tokens(query_all_tokens(st, cursor, *limit)))
        },
        Cw721QueryMsg::GetWithdrawAddress {  } => Ok(
            QueryResponse::WithdrawAddress(clone_opt_string(&st.withdraw_address)),
        ),
    }
}

} // verus!
