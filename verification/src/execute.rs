//! The token lifecycle: the state transitions of the registry.
//!
//! Every operation is specified by a function from the old state to either
//! the new state or an error, and the executable code is proved to produce
//! exactly that. An operation that fails leaves the state untouched, so every
//! call is all-or-nothing.

use vstd::prelude::*;
use crate::assoc::{AssocVec, assoc_get, assoc_contains, assoc_put, assoc_del, lemma_put_del};
use crate::error::ContractError;
use crate::order::str_eq;
use crate::state::{ContractState, StateView, state_wf, ExpiryValue};
use crate::tokens::{
    Approval, TokenRecord, TokenRecordView, ApprovalView, not_expired, find_approval,
    without_approval, approval_of, clone_opt_string, clone_opt_extension, NftExtension,
    drop_approval_of, lemma_without,
};

verus! {

/// The token record at `id`, if any.
pub open spec fn spec_token(s: StateView, id: Seq<char>) -> Option<TokenRecordView> {
    assoc_get(s.tokens, id)
}

/// The expiration of `operator`'s blanket grant from `owner`: `None` when no
/// grant exists, `Some(expiry)` when one does.
pub open spec fn spec_operator_grant(s: StateView, owner: Seq<char>, operator: Seq<char>) -> Option<
    Option<u64>,
> {
    match assoc_get(s.operators, owner) {
        Option::Some(m) => assoc_get(m, operator),
        Option::None => None,
    }
}

/// Whether `caller` may mint: the minter role's holder, or, while no role
/// record exists (the legacy layout), the flat legacy minter.
pub open spec fn spec_minter_authorized(s: StateView, caller: Seq<char>) -> bool {
    match s.minter {
        Option::Some(role) => role.holder == Some(caller),
        Option::None => s.legacy_minter == Some(caller),
    }
}

/// Whether `caller` holds the creator role.
pub open spec fn spec_creator_authorized(s: StateView, caller: Seq<char>) -> bool {
    match s.creator {
        Option::Some(role) => role.holder == Some(caller),
        Option::None => false,
    }
}

/// Whether `caller` may act on the token at `now`: the owner may, a spender
/// whose per-token approval has not expired may, and an operator whose
/// blanket grant from the owner has not expired may. Nobody acts on a missing
/// token.
pub open spec fn spec_can_act(s: StateView, caller: Seq<char>, id: Seq<char>, now: u64) -> bool {
    match spec_token(s, id) {
        Option::None => false,
        Option::Some(t) => t.owner == caller || (match find_approval(t.approvals, caller) {
            Option::Some(a) => not_expired(a.expires, now),
            Option::None => false,
        }) || (match spec_operator_grant(s, t.owner, caller) {
            Option::Some(e) => not_expired(e, now),
            Option::None => false,
        }),
    }
}

/// Decides `spec_can_act`.
pub fn can_act(st: &ContractState, caller: &str, token_id: &str, now: u64) -> (r: bool)
    requires
        state_wf(st@),
    ensures
        r == spec_can_act(st@, caller@, token_id@, now),
{
    match st.tokens.get(token_id) {
        None => false,
        Some(t) => {
            if str_eq(t.owner.as_str(), caller) {
                return true;
            }
            let by_approval = match approval_of(&t.approvals, caller) {
                Some(a) => match a.expires {
                    Some(e) => e > now,
                    None => true,
                },
                None => false,
            };
            if by_approval {
                return true;
            }
            match st.operators.get(t.owner.as_str()) {
                Some(m) => {
                    proof {
                        assert(assoc_get(st@.operators, t.owner@) == Some(m@));
                    }
                    match m.get(caller) {
                        Some(v) => match v.expires {
                            Some(e) => e > now,
                            None => true,
                        },
                        None => false,
                    }
                },
                None => false,
            }
        },
    }
}

/// What minting does, or why it is refused: only the minter mints, a present
/// identifier is refused, and the fresh token starts with the given owner and
/// metadata and no approvals.
pub open spec fn spec_mint(
    s: StateView,
    id: Seq<char>,
    owner: Seq<char>,
    token_uri: Option<Seq<char>>,
    extension: Option<crate::tokens::NftExtensionView>,
    caller: Seq<char>,
) -> Result<StateView, ContractError> {
    if !spec_minter_authorized(s, caller) {
        Err(ContractError::Unauthorized)
    } else if assoc_contains(s.tokens, id) {
        Err(ContractError::TokenAlreadyExists)
    } else {
        Ok(
            StateView {
                tokens: assoc_put(
                    s.tokens,
                    id,
                    TokenRecordView { owner, token_uri, extension, approvals: Seq::empty() },
                ),
                ..s
            },
        )
    }
}

/// Decides whether `caller` may mint in state `st`.
fn minter_authorized(st: &ContractState, caller: &str) -> (r: bool)
    ensures
        r == spec_minter_authorized(st@, caller@),
{
    match &st.minter {
        Some(role) => crate::roles::is_named(&role.holder, caller),
        None => match &st.legacy_minter {
            Some(m) => str_eq(m.as_str(), caller),
            None => false,
        },
    }
}

/// Mints a fresh token on behalf of `caller`.
pub fn mint(
    st: &mut ContractState,
    token_id: &str,
    owner: &str,
    token_uri: Option<String>,
    extension: Option<NftExtension>,
    caller: &str,
) -> (r: Result<(), ContractError>)
    requires
        state_wf(old(st)@),
    ensures
        state_wf(final(st)@),
        match r {
            Ok(()) => spec_mint(old(st)@, token_id@, owner@, token_uri.deep_view(),
            extension.deep_view(), caller@) == Ok::<StateView, ContractError>(final(st)@),
            Err(e) => spec_mint(old(st)@, token_id@, owner@, token_uri.deep_view(),
            extension.deep_view(), caller@) == Err::<StateView, ContractError>(e) && final(st)@
                == old(st)@,
        },
{
    if !minter_authorized(st, caller) {
        return Err(ContractError::Unauthorized);
    }
    if st.tokens.contains_key(token_id) {
        return Err(ContractError::TokenAlreadyExists);
    }
    let rec = TokenRecord { owner: owner.to_owned(), token_uri, extension, approvals: Vec::new() };
    proof {
        assert(rec.deep_view().approvals =~= Seq::<ApprovalView>::empty());
    }
    st.tokens.upsert(token_id, rec);
    proof {
        assert forall|k: Seq<char>| crate::state::token_value_wf(
            #[trigger] assoc_get(final(st)@.tokens, k),
        ) by {
            if k != token_id@ {
                assert(assoc_get(final(st)@.tokens, k) == assoc_get(old(st)@.tokens, k));
            }
        }
    }
    Ok(())
}

/// What a transfer does, or why it is refused: the token must exist and the
/// caller must be authorized; the token then belongs to the recipient and
/// every per-token approval is cleared. Blanket operator grants are
/// owner-scoped, not token-scoped, and stay untouched.
pub open spec fn spec_transfer(
    s: StateView,
    id: Seq<char>,
    recipient: Seq<char>,
    caller: Seq<char>,
    now: u64,
) -> Result<StateView, ContractError> {
    match spec_token(s, id) {
        Option::None => Err(ContractError::TokenNotFound),
        Option::Some(t) => {
            if !spec_can_act(s, caller, id, now) {
                Err(ContractError::Unauthorized)
            } else {
                Ok(
                    StateView {
                        tokens: assoc_put(
                            s.tokens,
                            id,
                            TokenRecordView {
                                owner: recipient,
                                token_uri: t.token_uri,
                                extension: t.extension,
                                approvals: Seq::empty(),
                            },
                        ),
                        ..s
                    },
                )
            }
        },
    }
}

/// Moves the token to `recipient` on behalf of `caller`.
pub fn transfer_nft(
    st: &mut ContractState,
    token_id: &str,
    recipient: &str,
    caller: &str,
    now: u64,
) -> (r: Result<(), ContractError>)
    requires
        state_wf(old(st)@),
    ensures
        state_wf(final(st)@),
        match r {
            Ok(()) => spec_transfer(old(st)@, token_id@, recipient@, caller@, now) == Ok::<
                StateView,
                ContractError,
            >(final(st)@),
            Err(e) => spec_transfer(old(st)@, token_id@, recipient@, caller@, now) == Err::<
                StateView,
                ContractError,
            >(e) && final(st)@ == old(st)@,
        },
{
    let allowed = can_act(st, caller, token_id, now);
    let (token_uri, extension) = match st.tokens.get(token_id) {
        Some(t) => (clone_opt_string(&t.token_uri), clone_opt_extension(&t.extension)),
        None => {
            return Err(ContractError::TokenNotFound);
        },
    };
    if !allowed {
        return Err(ContractError::Unauthorized);
    }
    let rec = TokenRecord {
        owner: recipient.to_owned(),
        token_uri,
        extension,
        approvals: Vec::new(),
    };
    proof {
        assert(rec.deep_view().approvals =~= Seq::<ApprovalView>::empty());
    }
    st.tokens.upsert(token_id, rec);
    proof {
        assert forall|k: Seq<char>| crate::state::token_value_wf(
            #[trigger] assoc_get(final(st)@.tokens, k),
        ) by {
            if k != token_id@ {
                assert(assoc_get(final(st)@.tokens, k) == assoc_get(old(st)@.tokens, k));
            }
        }
    }
    Ok(())
}

/// What a send does to the state: exactly what a transfer to the receiving
/// contract does. The receiver-hook notification carrying the payload is an
/// effect for the host to deliver; a hook failure is the host's to surface.
pub open spec fn spec_send(
    s: StateView,
    id: Seq<char>,
    contract_addr: Seq<char>,
    caller: Seq<char>,
    now: u64,
) -> Result<StateView, ContractError> {
    spec_transfer(s, id, contract_addr, caller, now)
}

/// Moves the token to the receiving contract `contract_addr` on behalf of
/// `caller`. The payload `msg` is not read here; the dispatcher hands it to
/// the host inside the send effect.
pub fn send_nft(
    st: &mut ContractState,
    token_id: &str,
    contract_addr: &str,
    caller: &str,
    now: u64,
) -> (r: Result<(), ContractError>)
    requires
        state_wf(old(st)@),
    ensures
        state_wf(final(st)@),
        match r {
            Ok(()) => spec_send(old(st)@, token_id@, contract_addr@, caller@, now) == Ok::<
                StateView,
                ContractError,
            >(final(st)@),
            Err(e) => spec_send(old(st)@, token_id@, contract_addr@, caller@, now) == Err::<
                StateView,
                ContractError,
            >(e) && final(st)@ == old(st)@,
        },
{
    transfer_nft(st, token_id, contract_addr, caller, now)
}

/// What burning does, or why it is refused: the token must exist and the
/// caller must be authorized; the record and its approvals are then removed
/// entirely.
pub open spec fn spec_burn(s: StateView, id: Seq<char>, caller: Seq<char>, now: u64) -> Result<
    StateView,
    ContractError,
> {
    match spec_token(s, id) {
        Option::None => Err(ContractError::TokenNotFound),
        Option::Some(t) => {
            if !spec_can_act(s, caller, id, now) {
                Err(ContractError::Unauthorized)
            } else {
                Ok(StateView { tokens: assoc_del(s.tokens, id), ..s })
            }
        },
    }
}

/// Removes the token on behalf of `caller`.
pub fn burn(st: &mut ContractState, token_id: &str, caller: &str, now: u64) -> (r: Result<
    (),
    ContractError,
>)
    requires
        state_wf(old(st)@),
    ensures
        state_wf(final(st)@),
        match r {
            Ok(()) => spec_burn(old(st)@, token_id@, caller@, now) == Ok::<
                StateView,
                ContractError,
            >(final(st)@),
            Err(e) => spec_burn(old(st)@, token_id@, caller@, now) == Err::<
                StateView,
                ContractError,
            >(e) && final(st)@ == old(st)@,
        },
{
    if !st.tokens.contains_key(token_id) {
        return Err(ContractError::TokenNotFound);
    }
    if !can_act(st, caller, token_id, now) {
        return Err(ContractError::Unauthorized);
    }
    st.tokens.remove(token_id);
    proof {
        assert forall|k: Seq<char>| crate::state::token_value_wf(
            #[trigger] assoc_get(final(st)@.tokens, k),
        ) by {
            if k != token_id@ {
                assert(assoc_get(final(st)@.tokens, k) == assoc_get(old(st)@.tokens, k));
            }
        }
    }
    Ok(())
}


/// What granting a per-token approval does, or why it is refused: the token
/// must exist, only its owner grants, and a given expiration must lie in the
/// future. The spender's previous approval, if any, is replaced.
pub open spec fn spec_approve(
    s: StateView,
    id: Seq<char>,
    spender: Seq<char>,
    expires: Option<u64>,
    caller: Seq<char>,
    now: u64,
) -> Result<StateView, ContractError> {
    match spec_token(s, id) {
        Option::None => Err(ContractError::TokenNotFound),
        Option::Some(t) => {
            if t.owner != caller {
                Err(ContractError::Unauthorized)
            } else if !not_expired(expires, now) {
                Err(ContractError::ApprovalExpiredOrAbsent)
            } else {
                Ok(
                    StateView {
                        tokens: assoc_put(
                            s.tokens,
                            id,
                            TokenRecordView {
                                approvals: without_approval(t.approvals, spender).push(
                                    ApprovalView { spender, expires },
                                ),
                                ..t
                            },
                        ),
                        ..s
                    },
                )
            }
        },
    }
}

/// What revoking a per-token approval does, or why it is refused: the token
/// must exist and only its owner revokes. Revoking an absent spender is a
/// no-op, not an error.
pub open spec fn spec_revoke(
    s: StateView,
    id: Seq<char>,
    spender: Seq<char>,
    caller: Seq<char>,
) -> Result<StateView, ContractError> {
    match spec_token(s, id) {
        Option::None => Err(ContractError::TokenNotFound),
        Option::Some(t) => {
            if t.owner != caller {
                Err(ContractError::Unauthorized)
            } else {
                Ok(
                    StateView {
                        tokens: assoc_put(
                            s.tokens,
                            id,
                            TokenRecordView {
                                approvals: without_approval(t.approvals, spender),
                                ..t
                            },
                        ),
                        ..s
                    },
                )
            }
        },
    }
}

/// A replaced approval list stays one-per-spender.
proof fn lemma_upsert_approvals_wf(s: Seq<ApprovalView>, spender: Seq<char>, expires: Option<u64>)
    requires
        crate::tokens::approvals_unique(s),
    ensures
        crate::tokens::approvals_unique(
            without_approval(s, spender).push(ApprovalView { spender, expires }),
        ),
        crate::tokens::approvals_unique(without_approval(s, spender)),
{
    lemma_without(s, spender, spender);
    let w = without_approval(s, spender);
    crate::tokens::lemma_find_none_no_mem(w, spender);
    let p = w.push(ApprovalView { spender, expires });
    assert forall|a: int, b: int|
        #![trigger p[a], p[b]]
        0 <= a < b < p.len() implies p[a].spender != p[b].spender by {
        if b < p.len() - 1 {
            assert(p[a] == w[a] && p[b] == w[b]);
        } else {
            assert(p[a] == w[a]);
            assert(p[b].spender == spender);
        }
    }
}

/// Grants `spender` an approval on the token, on behalf of `caller`.
pub fn approve(
    st: &mut ContractState,
    token_id: &str,
    spender: &str,
    expires: Option<u64>,
    caller: &str,
    now: u64,
) -> (r: Result<(), ContractError>)
    requires
        state_wf(old(st)@),
    ensures
        state_wf(final(st)@),
        match r {
            Ok(()) => spec_approve(old(st)@, token_id@, spender@, expires, caller@, now) == Ok::<
                StateView,
                ContractError,
            >(final(st)@),
            Err(e) => spec_approve(old(st)@, token_id@, spender@, expires, caller@, now) == Err::<
                StateView,
                ContractError,
            >(e) && final(st)@ == old(st)@,
        },
{
    let rec = match st.tokens.get(token_id) {
        Some(t) => {
            if !str_eq(t.owner.as_str(), caller) {
                return Err(ContractError::Unauthorized);
            }
            let live = match expires {
                Some(e) => e > now,
                None => true,
            };
            if !live {
                return Err(ContractError::ApprovalExpiredOrAbsent);
            }
            let mut approvals = drop_approval_of(&t.approvals, spender);
            approvals.push(Approval { spender: spender.to_owned(), expires });
            proof {
                assert(approvals.deep_view() =~= without_approval(
                    t.deep_view().approvals,
                    spender@,
                ).push(ApprovalView { spender: spender@, expires }));
            }
            TokenRecord {
                owner: t.owner.clone(),
                token_uri: clone_opt_string(&t.token_uri),
                extension: clone_opt_extension(&t.extension),
                approvals,
            }
        },
        None => {
            return Err(ContractError::TokenNotFound);
        },
    };
    proof {
        let t = spec_token(old(st)@, token_id@)->0;
        lemma_upsert_approvals_wf(t.approvals, spender@, expires);
    }
    st.tokens.upsert(token_id, rec);
    proof {
        assert forall|k: Seq<char>| crate::state::token_value_wf(
            #[trigger] assoc_get(final(st)@.tokens, k),
        ) by {
            if k != token_id@ {
                assert(assoc_get(final(st)@.tokens, k) == assoc_get(old(st)@.tokens, k));
            }
        }
    }
    Ok(())
}

/// Withdraws any approval of `spender` on the token, on behalf of `caller`.
pub fn revoke(st: &mut ContractState, token_id: &str, spender: &str, caller: &str) -> (r: Result<
    (),
    ContractError,
>)
    requires
        state_wf(old(st)@),
    ensures
        state_wf(final(st)@),
        match r {
            Ok(()) => spec_revoke(old(st)@, token_id@, spender@, caller@) == Ok::<
                StateView,
                ContractError,
            >(final(st)@),
            Err(e) => spec_revoke(old(st)@, token_id@, spender@, caller@) == Err::<
                StateView,
                ContractError,
            >(e) && final(st)@ == old(st)@,
        },
{
    let rec = match st.tokens.get(token_id) {
        Some(t) => {
            if !str_eq(t.owner.as_str(), caller) {
                return Err(ContractError::Unauthorized);
            }
            let approvals = drop_approval_of(&t.approvals, spender);
            TokenRecord {
                owner: t.owner.clone(),
                token_uri: clone_opt_string(&t.token_uri),
                extension: clone_opt_extension(&t.extension),
                approvals,
            }
        },
        None => {
            return Err(ContractError::TokenNotFound);
        },
    };
    proof {
        let t = spec_token(old(st)@, token_id@)->0;
        lemma_without(t.approvals, spender@, spender@);
    }
    st.tokens.upsert(token_id, rec);
    proof {
        assert forall|k: Seq<char>| crate::state::token_value_wf(
            #[trigger] assoc_get(final(st)@.tokens, k),
        ) by {
            if k != token_id@ {
                assert(assoc_get(final(st)@.tokens, k) == assoc_get(old(st)@.tokens, k));
            }
        }
    }
    Ok(())
}

/// What granting a blanket operator approval does, or why it is refused: a
/// given expiration must lie in the future; the grant is keyed by the calling
/// owner and the operator and replaces any previous one.
pub open spec fn spec_approve_all(
    s: StateView,
    operator: Seq<char>,
    expires: Option<u64>,
    caller: Seq<char>,
    now: u64,
) -> Result<StateView, ContractError> {
    if !not_expired(expires, now) {
        Err(ContractError::ApprovalExpiredOrAbsent)
    } else {
        let inner = match assoc_get(s.operators, caller) {
            Option::Some(m) => m,
            Option::None => Seq::empty(),
        };
        Ok(
            StateView {
                operators: assoc_put(s.operators, caller, assoc_put(inner, operator, expires)),
                ..s
            },
        )
    }
}

/// What revoking a blanket operator approval does: the grant of `operator`
/// from the calling owner is removed; revoking an absent grant is a no-op.
pub open spec fn spec_revoke_all(s: StateView, operator: Seq<char>, caller: Seq<char>) -> Result<
    StateView,
    ContractError,
> {
    match assoc_get(s.operators, caller) {
        Option::None => Ok(s),
        Option::Some(m) => Ok(
            StateView { operators: assoc_put(s.operators, caller, assoc_del(m, operator)), ..s },
        ),
    }
}

/// Grants `operator` authority over all of the caller's tokens.
pub fn approve_all(
    st: &mut ContractState,
    operator: &str,
    expires: Option<u64>,
    caller: &str,
    now: u64,
) -> (r: Result<(), ContractError>)
    requires
        state_wf(old(st)@),
    ensures
        state_wf(final(st)@),
        match r {
            Ok(()) => spec_approve_all(old(st)@, operator@, expires, caller@, now) == Ok::<
                StateView,
                ContractError,
            >(final(st)@),
            Err(e) => spec_approve_all(old(st)@, operator@, expires, caller@, now) == Err::<
                StateView,
                ContractError,
            >(e) && final(st)@ == old(st)@,
        },
{
    let live = match expires {
        Some(e) => e > now,
        None => true,
    };
    if !live {
        return Err(ContractError::ApprovalExpiredOrAbsent);
    }
    let ghost pre = st@.operators;
    let mut inner = match st.operators.take(caller) {
        Some(m) => m,
        None => AssocVec::new(),
    };
    proof {
        assert(inner.wf());
    }
    inner.upsert(operator, ExpiryValue { expires });
    st.operators.upsert(caller, inner);
    proof {
        lemma_put_del(pre, caller@, inner@);
        assert forall|k: Seq<char>| crate::state::operator_value_wf(
            #[trigger] assoc_get(final(st)@.operators, k),
        ) by {
            if k != caller@ {
                assert(assoc_get(final(st)@.operators, k) == assoc_get(pre, k));
            }
        }
    }
    Ok(())
}

/// Withdraws `operator`'s blanket authority over the caller's tokens.
pub fn revoke_all(st: &mut ContractState, operator: &str, caller: &str) -> (r: Result<
    (),
    ContractError,
>)
    requires
        state_wf(old(st)@),
    ensures
        state_wf(final(st)@),
        match r {
            Ok(()) => spec_revoke_all(old(st)@, operator@, caller@) == Ok::<
                StateView,
                ContractError,
            >(final(st)@),
            Err(e) => false,
        },
{
    let ghost pre = st@.operators;
    match st.operators.take(caller) {
        Some(mut m) => {
            proof {
                assert(m.wf());
            }
            m.remove(operator);
            st.operators.upsert(caller, m);
            proof {
                lemma_put_del(pre, caller@, m@);
                assert forall|k: Seq<char>| crate::state::operator_value_wf(
                    #[trigger] assoc_get(final(st)@.operators, k),
                ) by {
                    if k != caller@ {
                        assert(assoc_get(final(st)@.operators, k) == assoc_get(pre, k));
                    }
                }
            }
        },
        None => {
        },
    }
    Ok(())
}

/// What a metadata update does, or why it is refused: only the creator
/// updates; the update must validate against the current metadata; fields the
/// update leaves out keep their previous values, and the update time is
/// recorded. While no metadata record exists (the legacy layout, where no
/// creator role exists either), nobody is authorized to update it.
pub open spec fn spec_update_collection_metadata(
    s: StateView,
    m: crate::metadata::CollectionMetadataMsgView,
    caller: Seq<char>,
    now: u64,
) -> Result<StateView, ContractError> {
    if !spec_creator_authorized(s, caller) {
        Err(ContractError::Unauthorized)
    } else {
        match s.collection {
            Option::None => Err(ContractError::Unauthorized),
            Option::Some(cur) => match crate::metadata::metadata_update_error(cur, m) {
                Option::Some(e) => Err(e),
                Option::None => Ok(
                    StateView {
                        collection: Some(crate::metadata::apply_metadata_update(cur, m, now)),
                        ..s
                    },
                ),
            },
        }
    }
}

/// Updates the collection metadata on behalf of `caller` at time `now`.
pub fn update_collection_metadata(
    st: &mut ContractState,
    msg: &crate::metadata::CollectionMetadataMsg,
    caller: &str,
    now: u64,
) -> (r: Result<(), ContractError>)
    requires
        state_wf(old(st)@),
    ensures
        state_wf(final(st)@),
        match r {
            Ok(()) => spec_update_collection_metadata(old(st)@, msg.deep_view(), caller@, now)
                == Ok::<StateView, ContractError>(final(st)@),
            Err(e) => spec_update_collection_metadata(old(st)@, msg.deep_view(), caller@, now)
                == Err::<StateView, ContractError>(e) && final(st)@ == old(st)@,
        },
{
    let authorized = match &st.creator {
        Some(role) => crate::roles::is_named(&role.holder, caller),
        None => false,
    };
    if !authorized {
        return Err(ContractError::Unauthorized);
    }
    let updated = match &st.collection {
        Some(cur) => match crate::metadata::compute_metadata_update(cur, msg, now) {
            Ok(v) => v,
            Err(e) => {
                return Err(e);
            },
        },
        None => {
            return Err(ContractError::Unauthorized);
        },
    };
    st.collection = Some(updated);
    Ok(())
}

/// Which of the two roles a role action addresses.
#[derive(Debug, Clone, Copy, PartialEq, Eq, Structural)]
pub enum RoleKind {
    Minter,
    Creator,
}

/// What a role-transfer step does, or why it is refused: the addressed role
/// record must exist (it does not in the legacy layout), and the step follows
/// the two-step handshake of `spec_role_update`.
pub open spec fn spec_update_role(
    s: StateView,
    kind: RoleKind,
    action: crate::roles::RoleActionView,
    caller: Seq<char>,
    now: u64,
) -> Result<StateView, ContractError> {
    let role = if kind is Minter {
        s.minter
    } else {
        s.creator
    };
    match role {
        Option::None => Err(ContractError::Unauthorized),
        Option::Some(r) => match crate::roles::spec_role_update(r, action, caller, now) {
            Ok(r2) => Ok(
                if kind is Minter {
                    StateView { minter: Some(r2), ..s }
                } else {
                    StateView { creator: Some(r2), ..s }
                },
            ),
            Err(e) => Err(e),
        },
    }
}

/// Applies one step of the role transfer on behalf of `caller` at `now`.
pub fn update_role(
    st: &mut ContractState,
    kind: RoleKind,
    action: &crate::roles::RoleAction,
    caller: &str,
    now: u64,
) -> (r: Result<(), ContractError>)
    requires
        state_wf(old(st)@),
    ensures
        state_wf(final(st)@),
        match r {
            Ok(()) => spec_update_role(old(st)@, kind, action.deep_view(), caller@, now) == Ok::<
                StateView,
                ContractError,
            >(final(st)@),
            Err(e) => spec_update_role(old(st)@, kind, action.deep_view(), caller@, now) == Err::<
                StateView,
                ContractError,
            >(e) && final(st)@ == old(st)@,
        },
{
    let role = match kind {
        RoleKind::Minter => &st.minter,
        RoleKind::Creator => &st.creator,
    };
    let updated = match role {
        Some(r0) => match crate::roles::role_update(r0, action, caller, now) {
            Ok(r2) => r2,
            Err(e) => {
                return Err(e);
            },
        },
        None => {
            return Err(ContractError::Unauthorized);
        },
    };
    match kind {
        RoleKind::Minter => {
            st.minter = Some(updated);
        },
        RoleKind::Creator => {
            st.creator = Some(updated);
        },
    }
    Ok(())
}

} // verus!
