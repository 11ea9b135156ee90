//! Read-only projections of the state.
//!
//! Queries never mutate. Listing queries take an exclusive `start_after`
//! cursor and a limit that is clamped, never rejected; results ascend by key.
//! Expired approvals and operator grants are filtered out unless
//! `include_expired` asks for them: a read-time projection only.

use vstd::prelude::*;
use crate::assoc::{assoc_get, after_cursor, spec_page};
use crate::error::ContractError;
use crate::metadata::CollectionMetadata;
use crate::state::{ContractState, StateView, state_wf};
use crate::tokens::{
    Approval, ApprovalView, TokenRecordView, not_expired, find_approval, visible_approvals,
    visible_of, approval_of, clone_opt_string, clone_opt_extension, NftExtension,
};
use crate::execute::{spec_token, spec_operator_grant};

verus! {

/// How many entries a listing returns when no limit is asked for.
pub const DEFAULT_LIMIT: u32 = 10;

/// The most entries a listing ever returns; higher requests are clamped.
pub const MAX_LIMIT: u32 = 1000;

/// The limit a request resolves to: the default when unset, and never more
/// than the cap.
pub open spec fn spec_limit(limit: Option<u32>) -> int {
    let asked = match limit {
        Option::Some(l) => l as int,
        Option::None => DEFAULT_LIMIT as int,
    };
    if asked <= MAX_LIMIT as int {
        asked
    } else {
        MAX_LIMIT as int
    }
}

/// Resolves the requested limit.
pub fn clamp_limit(limit: Option<u32>) -> (r: usize)
    ensures
        r == spec_limit(limit),
{
    let asked = match limit {
        Some(l) => l,
        None => DEFAULT_LIMIT,
    };
    if asked <= MAX_LIMIT {
        asked as usize
    } else {
        MAX_LIMIT as usize
    }
}

/// The spec-level cursor of an optional start key.
pub open spec fn cursor_of(start_after: Option<&str>) -> Option<Seq<char>> {
    match start_after {
        Option::Some(c) => Some(c@),
        Option::None => None,
    }
}

/// Who owns a token, and the approvals on it.
#[derive(Debug, PartialEq)]
pub struct OwnerOfResponse {
    pub owner: String,
    pub approvals: Vec<Approval>,
}

/// Spec-level shape of an owner query's answer.
pub ghost struct OwnerOfResponseView {
    pub owner: Seq<char>,
    pub approvals: Seq<ApprovalView>,
}

impl DeepView for OwnerOfResponse {
    type V = OwnerOfResponseView;

    open spec fn deep_view(&self) -> OwnerOfResponseView {
        OwnerOfResponseView { owner: self.owner@, approvals: self.approvals.deep_view() }
    }
}

/// What the owner query answers: the token's owner and its approvals, expired
/// ones filtered out unless asked for.
pub open spec fn spec_owner_of(
    s: StateView,
    id: Seq<char>,
    include_expired: bool,
    now: u64,
) -> Result<OwnerOfResponseView, ContractError> {
    match spec_token(s, id) {
        Option::None => Err(ContractError::TokenNotFound),
        Option::Some(t) => Ok(
            OwnerOfResponseView {
                owner: t.owner,
                approvals: visible_approvals(t.approvals, include_expired, now),
            },
        ),
    }
}

/// Answers who owns the token, with the approvals on it.
pub fn query_owner_of(
    st: &ContractState,
    token_id: &str,
    include_expired: bool,
    now: u64,
) -> (r: Result<OwnerOfResponse, ContractError>)
    requires
        state_wf(st@),
    ensures
        match r {
            Ok(v) => spec_owner_of(st@, token_id@, include_expired, now) == Ok::<
                OwnerOfResponseView,
                ContractError,
            >(v.deep_view()),
            Err(e) => spec_owner_of(st@, token_id@, include_expired, now) == Err::<
                OwnerOfResponseView,
                ContractError,
            >(e),
        },
{
    match st.tokens.get(token_id) {
        Some(t) => Ok(
            OwnerOfResponse {
                owner: t.owner.clone(),
                approvals: visible_of(&t.approvals, include_expired, now),
            },
        ),
        None => Err(ContractError::TokenNotFound),
    }
}

/// What the single-approval query answers: the spender's approval, provided
/// it exists and, unless expired ones were asked for, has not expired.
pub open spec fn spec_approval(
    s: StateView,
    id: Seq<char>,
    spender: Seq<char>,
    include_expired: bool,
    now: u64,
) -> Result<ApprovalView, ContractError> {
    match spec_token(s, id) {
        Option::None => Err(ContractError::TokenNotFound),
        Option::Some(t) => match find_approval(t.approvals, spender) {
            Option::None => Err(ContractError::ApprovalExpiredOrAbsent),
            Option::Some(a) => {
                if include_expired || not_expired(a.expires, now) {
                    Ok(a)
                } else {
                    Err(ContractError::ApprovalExpiredOrAbsent)
                }
            },
        },
    }
}

/// Answers with the spender's approval on the token.
pub fn query_approval(
    st: &ContractState,
    token_id: &str,
    spender: &str,
    include_expired: bool,
    now: u64,
) -> (r: Result<Approval, ContractError>)
    requires
        state_wf(st@),
    ensures
        match r {
            Ok(v) => spec_approval(st@, token_id@, spender@, include_expired, now) == Ok::<
                ApprovalView,
                ContractError,
            >(v.deep_view()),
            Err(e) => spec_approval(st@, token_id@, spender@, include_expired, now) == Err::<
                ApprovalView,
                ContractError,
            >(e),
        },
{
    match st.tokens.get(token_id) {
        Some(t) => match approval_of(&t.approvals, spender) {
            Some(a) => {
                let live = match a.expires {
                    Some(e) => e > now,
                    None => true,
                };
                if include_expired || live {
                    Ok(a.clone())
                } else {
                    Err(ContractError::ApprovalExpiredOrAbsent)
                }
            },
            None => Err(ContractError::ApprovalExpiredOrAbsent),
        },
        None => Err(ContractError::TokenNotFound),
    }
}

/// What the approvals query answers: the token's approvals, expired ones
/// filtered out unless asked for.
pub open spec fn spec_approvals(
    s: StateView,
    id: Seq<char>,
    include_expired: bool,
    now: u64,
) -> Result<Seq<ApprovalView>, ContractError> {
    match spec_token(s, id) {
        Option::None => Err(ContractError::TokenNotFound),
        Option::Some(t) => Ok(visible_approvals(t.approvals, include_expired, now)),
    }
}

/// Answers with the approvals on the token.
pub fn query_approvals(
    st: &ContractState,
    token_id: &str,
    include_expired: bool,
    now: u64,
) -> (r: Result<Vec<Approval>, ContractError>)
    requires
        state_wf(st@),
    ensures
        match r {
            Ok(v) => spec_approvals(st@, token_id@, include_expired, now) == Ok::<
                Seq<ApprovalView>,
                ContractError,
            >(v.deep_view()),
            Err(e) => spec_approvals(st@, token_id@, include_expired, now) == Err::<
                Seq<ApprovalView>,
                ContractError,
            >(e),
        },
{
    match st.tokens.get(token_id) {
        Some(t) => Ok(visible_of(&t.approvals, include_expired, now)),
        None => Err(ContractError::TokenNotFound),
    }
}

/// What the single-operator query answers: the operator's blanket grant from
/// `owner`, provided it exists and, unless expired ones were asked for, has
/// not expired.
pub open spec fn spec_operator(
    s: StateView,
    owner: Seq<char>,
    operator: Seq<char>,
    include_expired: bool,
    now: u64,
) -> Result<ApprovalView, ContractError> {
    match spec_operator_grant(s, owner, operator) {
        Option::None => Err(ContractError::ApprovalExpiredOrAbsent),
        Option::Some(e) => {
            if include_expired || not_expired(e, now) {
                Ok(ApprovalView { spender: operator, expires: e })
            } else {
                Err(ContractError::ApprovalExpiredOrAbsent)
            }
        },
    }
}

/// Answers with `operator`'s blanket grant from `owner`.
pub fn query_operator(
    st: &ContractState,
    owner: &str,
    operator: &str,
    include_expired: bool,
    now: u64,
) -> (r: Result<Approval, ContractError>)
    requires
        state_wf(st@),
    ensures
        match r {
            Ok(v) => spec_operator(st@, owner@, operator@, include_expired, now) == Ok::<
                ApprovalView,
                ContractError,
            >(v.deep_view()),
            Err(e) => spec_operator(st@, owner@, operator@, include_expired, now) == Err::<
                ApprovalView,
                ContractError,
            >(e),
        },
{
    match st.operators.get(owner) {
        Some(m) => {
            proof {
                assert(assoc_get(st@.operators, owner@) == Some(m@));
            }
            match m.get(operator) {
                Some(v) => {
                    let live = match v.expires {
                        Some(e) => e > now,
                        None => true,
                    };
                    if include_expired || live {
                        Ok(Approval { spender: operator.to_owned(), expires: v.expires })
                    } else {
                        Err(ContractError::ApprovalExpiredOrAbsent)
                    }
                },
                None => Err(ContractError::ApprovalExpiredOrAbsent),
            }
        },
        None => Err(ContractError::ApprovalExpiredOrAbsent),
    }
}

/// The grants of one owner past `cursor`, in operator order, expired ones
/// filtered out unless asked for.
pub open spec fn grants_after(
    m: Seq<(Seq<char>, Option<u64>)>,
    cursor: Option<Seq<char>>,
    include_expired: bool,
    now: u64,
) -> Seq<ApprovalView>
    decreases m.len(),
{
    if m.len() == 0 {
        Seq::empty()
    } else {
        let rest = grants_after(m.drop_last(), cursor, include_expired, now);
        if after_cursor(m.last().0, cursor) && (include_expired || not_expired(m.last().1, now)) {
            rest.push(ApprovalView { spender: m.last().0, expires: m.last().1 })
        } else {
            rest
        }
    }
}

/// What the operator listing answers: the owner's grants past the cursor,
/// at most the resolved limit of them, ascending by operator.
pub open spec fn spec_operators(
    s: StateView,
    owner: Seq<char>,
    include_expired: bool,
    cursor: Option<Seq<char>>,
    limit: int,
    now: u64,
) -> Seq<ApprovalView> {
    let m = match assoc_get(s.operators, owner) {
        Option::Some(m) => m,
        Option::None => Seq::empty(),
    };
    let all = grants_after(m, cursor, include_expired, now);
    all.take(if limit <= all.len() { limit } else { all.len() as int })
}

/// Lists the blanket grants of `owner`.
pub fn query_operators(
    st: &ContractState,
    owner: &str,
    include_expired: bool,
    start_after: Option<&str>,
    limit: Option<u32>,
    now: u64,
) -> (r: Vec<Approval>)
    requires
        state_wf(st@),
    ensures
        r.deep_view() == spec_operators(
            st@,
            owner@,
            include_expired,
            cursor_of(start_after),
            spec_limit(limit),
            now,
        ),
{
    let cap = clamp_limit(limit);
    let ghost cursor = cursor_of(start_after);
    let mut out: Vec<Approval> = Vec::new();
    match st.operators.get(owner) {
        None => {
            proof {
                assert(grants_after(
                    Seq::<(Seq<char>, Option<u64>)>::empty(),
                    cursor,
                    include_expired,
                    now,
                ) =~= Seq::<ApprovalView>::empty());
                assert(out.deep_view() =~= Seq::<ApprovalView>::empty());
            }
        },
        Some(m) => {
            proof {
                assert(assoc_get(st@.operators, owner@) == Some(m@));
            }
            let n = m.len();
            let mut i: usize = 0;
            proof {
                assert(m@.take(0) =~= Seq::<(Seq<char>, Option<u64>)>::empty());
                assert(grants_after(m@.take(0), cursor, include_expired, now)
                    =~= Seq::<ApprovalView>::empty());
                assert(out.deep_view() =~= Seq::<ApprovalView>::empty());
            }
            while i < n
                invariant
                    n == m@.len(),
                    0 <= i <= n,
                    cursor == cursor_of(start_after),
                    out.deep_view() == ({
                        let all = grants_after(m@.take(i as int), cursor, include_expired, now);
                        all.take(
                            if cap as int <= all.len() {
                                cap as int
                            } else {
                                all.len() as int
                            },
                        )
                    }),
                    out.deep_view().len() <= cap,
                decreases n - i,
            {
                let e = m.entry_at(i);
                let after = match start_after {
                    Option::None => true,
                    Option::Some(c) => matches!(
                        crate::order::str_cmp(c, e.0.as_str()),
                        crate::order::KeyOrder::Lt
                    ),
                };
                let live = match e.1.expires {
                    Some(x) => x > now,
                    None => true,
                };
                let keep = after && (include_expired || live);
                proof {
                    assert(m@[i as int] == (e.0@, e.1.deep_view()));
                    assert(m@.take(i as int + 1).drop_last() =~= m@.take(i as int));
                    assert(m@.take(i as int + 1).last() == m@[i as int]);
                    assert(keep == (after_cursor(m@[i as int].0, cursor) && (include_expired
                        || not_expired(m@[i as int].1, now))));
                }
                let ghost prev_all = grants_after(m@.take(i as int), cursor, include_expired, now);
                let ghost next_all = grants_after(
                    m@.take(i as int + 1),
                    cursor,
                    include_expired,
                    now,
                );
                if keep && out.len() < cap {
                    let ghost pre_out = out.deep_view();
                    out.push(Approval { spender: e.0.clone(), expires: e.1.expires });
                    proof {
                        assert(out.deep_view() =~= pre_out.push(
                            ApprovalView { spender: m@[i as int].0, expires: m@[i as int].1 },
                        ));
                        assert(pre_out.len() == prev_all.len());
                        assert(out.deep_view() =~= next_all.take(
                            if cap as int <= next_all.len() {
                                cap as int
                            } else {
                                next_all.len() as int
                            },
                        ));
                    }
                } else {
                    proof {
                        if keep {
                            assert(out.deep_view().len() == cap);
                            assert(prev_all.len() >= cap);
                            assert(next_all.take(cap as int) =~= prev_all.take(cap as int));
                        }
                    }
                }
                i += 1;
            }
            proof {
                assert(m@.take(n as int) =~= m@);
            }
        },
    }
    out
}

/// The number of live tokens.
pub fn query_num_tokens(st: &ContractState) -> (r: u64)
    ensures
        r == st@.tokens.len(),
{
    let n = st.tokens.len();
    n as u64
}

/// The collection metadata, absent in a legacy-layout state.
pub fn query_collection_metadata(st: &ContractState) -> (r: Option<CollectionMetadata>)
    ensures
        r.deep_view() == st@.collection,
{
    match &st.collection {
        Some(c) => Some(c.clone()),
        None => None,
    }
}

/// A token's URI and metadata extension.
#[derive(Debug, PartialEq)]
pub struct NftInfoResponse {
    pub token_uri: Option<String>,
    pub extension: Option<NftExtension>,
}

/// Spec-level shape of a token-info answer.
pub ghost struct NftInfoResponseView {
    pub token_uri: Option<Seq<char>>,
    pub extension: Option<crate::tokens::NftExtensionView>,
}

impl DeepView for NftInfoResponse {
    type V = NftInfoResponseView;

    open spec fn deep_view(&self) -> NftInfoResponseView {
        NftInfoResponseView {
            token_uri: self.token_uri.deep_view(),
            extension: self.extension.deep_view(),
        }
    }
}

/// What the token-info query answers: the token's URI and extension.
pub open spec fn spec_nft_info(s: StateView, id: Seq<char>) -> Result<
    NftInfoResponseView,
    ContractError,
> {
    match spec_token(s, id) {
        Option::None => Err(ContractError::TokenNotFound),
        Option::Some(t) => Ok(
            NftInfoResponseView { token_uri: t.token_uri, extension: t.extension },
        ),
    }
}

/// Answers with the token's URI and metadata extension.
pub fn query_nft_info(st: &ContractState, token_id: &str) -> (r: Result<
    NftInfoResponse,
    ContractError,
>)
    requires
        state_wf(st@),
    ensures
        match r {
            Ok(v) => spec_nft_info(st@, token_id@) == Ok::<NftInfoResponseView, ContractError>(
                v.deep_view(),
            ),
            Err(e) => spec_nft_info(st@, token_id@) == Err::<NftInfoResponseView, ContractError>(
                e,
            ),
        },
{
    match st.tokens.get(token_id) {
        Some(t) => Ok(
            NftInfoResponse {
                token_uri: clone_opt_string(&t.token_uri),
                extension: clone_opt_extension(&t.extension),
            },
        ),
        None => Err(ContractError::TokenNotFound),
    }
}

/// Owner and token info in one answer.
#[derive(Debug, PartialEq)]
pub struct AllNftInfoResponse {
    pub access: OwnerOfResponse,
    pub info: NftInfoResponse,
}

/// Spec-level shape of the combined answer.
pub ghost struct AllNftInfoResponseView {
    pub access: OwnerOfResponseView,
    pub info: NftInfoResponseView,
}

impl DeepView for AllNftInfoResponse {
    type V = AllNftInfoResponseView;

    open spec fn deep_view(&self) -> AllNftInfoResponseView {
        AllNftInfoResponseView { access: self.access.deep_view(), info: self.info.deep_view() }
    }
}

/// Answers both the owner query and the token-info query at once.
pub fn query_all_nft_info(
    st: &ContractState,
    token_id: &str,
    include_expired: bool,
    now: u64,
) -> (r: Result<AllNftInfoResponse, ContractError>)
    requires
        state_wf(st@),
    ensures
        match r {
            Ok(v) => spec_owner_of(st@, token_id@, include_expired, now) == Ok::<
                OwnerOfResponseView,
                ContractError,
            >(v.access.deep_view()) && spec_nft_info(st@, token_id@) == Ok::<
                NftInfoResponseView,
                ContractError,
            >(v.info.deep_view()),
            Err(e) => spec_owner_of(st@, token_id@, include_expired, now) == Err::<
                OwnerOfResponseView,
                ContractError,
            >(e),
        },
{
    let access = match query_owner_of(st, token_id, include_expired, now) {
        Ok(a) => a,
        Err(e) => {
            return Err(e);
        },
    };
    match query_nft_info(st, token_id) {
        Ok(info) => Ok(AllNftInfoResponse { access, info }),
        Err(e) => Err(e),
    }
}

/// Lists every token identifier past the cursor, ascending, at most the
/// resolved limit of them.
pub fn query_all_tokens(st: &ContractState, start_after: Option<&str>, limit: Option<u32>) -> (r:
    Vec<String>)
    requires
        state_wf(st@),
    ensures
        r.deep_view() == spec_page(st@.tokens, cursor_of(start_after), spec_limit(limit)),
{
    st.tokens.keys_page(start_after, clamp_limit(limit))
}

/// The token identifiers of one owner past `cursor`, in order.
pub open spec fn owner_tokens_after(
    s: Seq<(Seq<char>, TokenRecordView)>,
    owner: Seq<char>,
    cursor: Option<Seq<char>>,
) -> Seq<Seq<char>>
    decreases s.len(),
{
    if s.len() == 0 {
        Seq::empty()
    } else {
        let rest = owner_tokens_after(s.drop_last(), owner, cursor);
        if after_cursor(s.last().0, cursor) && s.last().1.owner == owner {
            rest.push(s.last().0)
        } else {
            rest
        }
    }
}

/// What the per-owner listing answers: the owner's token identifiers past the
/// cursor, at most `limit` of them, ascending.
pub open spec fn spec_owner_tokens(
    s: StateView,
    owner: Seq<char>,
    cursor: Option<Seq<char>>,
    limit: int,
) -> Seq<Seq<char>> {
    let all = owner_tokens_after(s.tokens, owner, cursor);
    all.take(if limit <= all.len() { limit } else { all.len() as int })
}

/// Lists the token identifiers owned by `owner`.
pub fn query_tokens(
    st: &ContractState,
    owner: &str,
    start_after: Option<&str>,
    limit: Option<u32>,
) -> (r: Vec<String>)
    requires
        state_wf(st@),
    ensures
        r.deep_view() == spec_owner_tokens(st@, owner@, cursor_of(start_after), spec_limit(limit)),
{
    let cap = clamp_limit(limit);
    let ghost cursor = cursor_of(start_after);
    let n = st.tokens.len();
    let mut out: Vec<String> = Vec::new();
    let mut i: usize = 0;
    proof {
        assert(st@.tokens.take(0) =~= Seq::<(Seq<char>, TokenRecordView)>::empty());
        assert(owner_tokens_after(st@.tokens.take(0), owner@, cursor)
            =~= Seq::<Seq<char>>::empty());
        assert(out.deep_view() =~= Seq::<Seq<char>>::empty());
    }
    while i < n
        invariant
            n == st@.tokens.len(),
            0 <= i <= n,
            cursor == cursor_of(start_after),
            out.deep_view() == ({
                let all = owner_tokens_after(st@.tokens.take(i as int), owner@, cursor);
                all.take(
                    if cap as int <= all.len() {
                        cap as int
                    } else {
                        all.len() as int
                    },
                )
            }),
            out.deep_view().len() <= cap,
        decreases n - i,
    {
        let e = st.tokens.entry_at(i);
        let after = match start_after {
            Option::None => true,
            Option::Some(c) => matches!(
                crate::order::str_cmp(c, e.0.as_str()),
                crate::order::KeyOrder::Lt
            ),
        };
        let keep = after && crate::order::str_eq(e.1.owner.as_str(), owner);
        proof {
            assert(st@.tokens[i as int] == (e.0@, e.1.deep_view()));
            assert(st@.tokens.take(i as int + 1).drop_last() =~= st@.tokens.take(i as int));
            assert(st@.tokens.take(i as int + 1).last() == st@.tokens[i as int]);
            assert(keep == (after_cursor(st@.tokens[i as int].0, cursor) && st@.tokens[i as int]
                .1.owner == owner@));
        }
        let ghost prev_all = owner_tokens_after(st@.tokens.take(i as int), owner@, cursor);
        let ghost next_all = owner_tokens_after(st@.tokens.take(i as int + 1), owner@, cursor);
        if keep && out.len() < cap {
            let ghost pre_out = out.deep_view();
            out.push(e.0.clone());
            proof {
                assert(out.deep_view() =~= pre_out.push(st@.tokens[i as int].0));
                assert(pre_out.len() == prev_all.len());
                assert(out.deep_view() =~= next_all.take(
                    if cap as int <= next_all.len() {
                        cap as int
                    } else {
                        next_all.len() as int
                    },
                ));
            }
        } else {
            proof {
                if keep {
                    assert(out.deep_view().len() == cap);
                    assert(prev_all.len() >= cap);
                    assert(next_all.take(cap as int) =~= prev_all.take(cap as int));
                }
            }
        }
        i += 1;
    }
    proof {
        assert(st@.tokens.take(n as int) =~= st@.tokens);
    }
    out
}

} // verus!
