//! Laws of the registry, proved once and for all states.
//!
//! Each lemma here states a property of the state transitions that holds for
//! every well-formed state and every input, not just the ones a test happens
//! to pick.

use vstd::prelude::*;
use crate::assoc::{
    spec_page, keys_after, lemma_assoc_put_props, lemma_assoc_del_props, lemma_keys_after_mem,
    lemma_assoc_get_at,
};
use crate::error::ContractError;
use crate::metadata::{
    CollectionMetadataMsgView, merged_extension, ext_msg_is_empty, validate_extension,
    metadata_update_error, apply_metadata_update, prev_share,
};
use crate::query::{spec_owner_of, spec_approvals};
use crate::state::{StateView, state_wf};
use crate::execute::{
    spec_token, spec_can_act, spec_mint, spec_transfer, spec_burn, spec_minter_authorized,
    spec_operator_grant, spec_update_collection_metadata, spec_creator_authorized,
};
use crate::tokens::{
    ApprovalView, TokenRecordView, not_expired, find_approval, visible_approvals,
    lemma_visible_all, lemma_find_some_mem,
};

verus! {

/// After a transfer, the owner query answers the transfer's recipient: the
/// most recent transfer decides the owner, whatever held before and whatever
/// expiration filtering a later query asks for.
pub proof fn lemma_owner_after_transfer(
    s: StateView,
    post: StateView,
    id: Seq<char>,
    recipient: Seq<char>,
    caller: Seq<char>,
    now: u64,
    include_expired: bool,
    later: u64,
)
    requires
        state_wf(s),
        spec_transfer(s, id, recipient, caller, now) == Ok::<StateView, ContractError>(post),
    ensures
        spec_token(post, id) is Some,
        spec_token(post, id)->0.owner == recipient,
        spec_owner_of(post, id, include_expired, later) matches Ok(resp) && resp.owner
            == recipient,
{
    let t = spec_token(s, id)->0;
    let rec = TokenRecordView {
        owner: recipient,
        token_uri: t.token_uri,
        extension: t.extension,
        approvals: Seq::empty(),
    };
    lemma_assoc_put_props(s.tokens, id, rec, id);
    assert(visible_approvals(Seq::empty(), include_expired, later) =~= Seq::<ApprovalView>::empty());
}

/// After a mint, the owner query answers the minted owner.
pub proof fn lemma_owner_after_mint(
    s: StateView,
    post: StateView,
    id: Seq<char>,
    owner: Seq<char>,
    token_uri: Option<Seq<char>>,
    extension: Option<crate::tokens::NftExtensionView>,
    caller: Seq<char>,
    include_expired: bool,
    later: u64,
)
    requires
        state_wf(s),
        spec_mint(s, id, owner, token_uri, extension, caller) == Ok::<StateView, ContractError>(
            post,
        ),
    ensures
        spec_token(post, id) is Some,
        spec_token(post, id)->0.owner == owner,
        spec_owner_of(post, id, include_expired, later) matches Ok(resp) && resp.owner == owner,
{
    let rec = TokenRecordView { owner, token_uri, extension, approvals: Seq::empty() };
    lemma_assoc_put_props(s.tokens, id, rec, id);
    assert(visible_approvals(Seq::empty(), include_expired, later) =~= Seq::<ApprovalView>::empty());
}

/// Burning removes the token everywhere: the owner query fails, the count
/// drops by one, no token listing names the identifier any more, and minting
/// the same identifier again succeeds for whoever then holds the minter role.
pub proof fn lemma_burn_removes(
    s: StateView,
    post: StateView,
    id: Seq<char>,
    caller: Seq<char>,
    now: u64,
)
    requires
        state_wf(s),
        spec_burn(s, id, caller, now) == Ok::<StateView, ContractError>(post),
    ensures
        spec_token(post, id) is None,
        post.tokens.len() + 1 == s.tokens.len(),
        forall|include_expired: bool, later: u64|
            spec_owner_of(post, id, include_expired, later) == Err::<
                crate::query::OwnerOfResponseView,
                ContractError,
            >(ContractError::TokenNotFound),
        forall|cursor: Option<Seq<char>>, limit: int, j: int|
            0 <= limit && 0 <= j < spec_page(post.tokens, cursor, limit).len() ==> spec_page(
                post.tokens,
                cursor,
                limit,
            )[j] != id,
        forall|owner2: Seq<char>, uri2: Option<Seq<char>>,
            ext2: Option<crate::tokens::NftExtensionView>, caller2: Seq<char>|
            spec_minter_authorized(post, caller2) ==> spec_mint(
                post,
                id,
                owner2,
                uri2,
                ext2,
                caller2,
            ) is Ok,
{
    lemma_assoc_del_props(s.tokens, id, id);
    assert forall|cursor: Option<Seq<char>>, limit: int, j: int|
        0 <= limit && 0 <= j < spec_page(post.tokens, cursor, limit).len() implies spec_page(
        post.tokens,
        cursor,
        limit,
    )[j] != id by {
        let all = keys_after(post.tokens, cursor);
        let page = spec_page(post.tokens, cursor, limit);
        assert(page.len() <= all.len());
        assert(page[j] == all[j]);
        lemma_keys_after_mem(post.tokens, cursor, j);
        let i = choose|i: int|
            0 <= i < post.tokens.len() && (#[trigger] post.tokens[i]).0 == all[j]
                && crate::assoc::after_cursor(post.tokens[i].0, cursor);
        if all[j] == id {
            lemma_assoc_get_at(post.tokens, i);
        }
    }
}

/// An expired approval is never honored by `can_act`, however it got there,
/// but a query that asks for expired approvals still shows it.
pub proof fn lemma_expired_approval_not_honored(
    s: StateView,
    id: Seq<char>,
    spender: Seq<char>,
    a: ApprovalView,
    now: u64,
)
    requires
        state_wf(s),
        spec_token(s, id) is Some,
        find_approval(spec_token(s, id)->0.approvals, spender) == Some(a),
        !not_expired(a.expires, now),
        spec_token(s, id)->0.owner != spender,
        match spec_operator_grant(s, spec_token(s, id)->0.owner, spender) {
            Option::Some(e) => !not_expired(e, now),
            Option::None => true,
        },
    ensures
        !spec_can_act(s, spender, id, now),
        spec_approvals(s, id, true, now) matches Ok(shown) && (exists|j: int|
            0 <= j < shown.len() && shown[j] == a),
{
    let t = spec_token(s, id)->0;
    lemma_visible_all(t.approvals, now);
    lemma_find_some_mem(t.approvals, spender);
    let j = choose|j: int| 0 <= j < t.approvals.len() && #[trigger] t.approvals[j] == a;
    let shown = spec_approvals(s, id, true, now)->Ok_0;
    assert(shown[j] == a);
}

/// A metadata update leaves every field its message does not name unchanged:
/// absent is not clear, for the name and symbol, for the extension as a
/// whole, and for each field of an existing extension.
pub proof fn lemma_metadata_partial_update(
    s: StateView,
    post: StateView,
    m: CollectionMetadataMsgView,
    caller: Seq<char>,
    now: u64,
)
    requires
        s.collection is Some,
        spec_update_collection_metadata(s, m, caller, now) == Ok::<StateView, ContractError>(post),
    ensures
        post.collection is Some,
        m.name is None ==> post.collection->0.name == s.collection->0.name,
        m.symbol is None ==> post.collection->0.symbol == s.collection->0.symbol,
        ext_msg_is_empty(m.extension) ==> post.collection->0.extension == s.collection->0.extension,
        s.collection->0.extension matches Some(ce) ==> {
            let ne = post.collection->0.extension->0;
            &&& post.collection->0.extension is Some
            &&& (m.extension.description is None ==> ne.description == ce.description)
            &&& (m.extension.image is None ==> ne.image == ce.image)
            &&& (m.extension.explicit_content is None ==> ne.explicit_content
                == ce.explicit_content)
            &&& (m.extension.external_link is None ==> ne.external_link == ce.external_link)
            &&& (m.extension.start_trading_time is None ==> ne.start_trading_time
                == ce.start_trading_time)
            &&& (m.extension.royalty_info is None ==> ne.royalty_info == ce.royalty_info)
        },
{
    let cur = s.collection->0;
    if ext_msg_is_empty(m.extension) && cur.extension is None {
        assert(merged_extension(cur.extension, m.extension) is None);
    }
}

/// Applying the same metadata update twice is the same as applying it once:
/// the second application is accepted and changes nothing.
pub proof fn lemma_metadata_update_idempotent(
    s: StateView,
    post: StateView,
    m: CollectionMetadataMsgView,
    caller: Seq<char>,
    now: u64,
)
    requires
        spec_update_collection_metadata(s, m, caller, now) == Ok::<StateView, ContractError>(post),
    ensures
        spec_update_collection_metadata(post, m, caller, now) == Ok::<StateView, ContractError>(
            post,
        ),
{
    let cur = s.collection->0;
    let once = apply_metadata_update(cur, m, now);
    assert(post.collection == Some(once));
    assert(spec_creator_authorized(post, caller));
    let merged1 = merged_extension(cur.extension, m.extension);
    let merged2 = merged_extension(once.extension, m.extension);
    assert(once.extension == merged1);
    match merged1 {
        Option::None => {
            assert(merged2 is None);
            assert(metadata_update_error(once, m) is None);
        },
        Option::Some(e1) => {
            assert(merged2 == Some(e1));
            assert(validate_extension(e1, prev_share(cur.extension)) is None);
            match e1.royalty_info {
                Option::Some(r) => {
                    assert(prev_share(once.extension) == Some(r.share_pct));
                    assert(validate_extension(e1, prev_share(once.extension)) is None);
                },
                Option::None => {
                    assert(validate_extension(e1, prev_share(once.extension)) is None);
                },
            }
            assert(metadata_update_error(once, m) is None);
        },
    }
    assert(apply_metadata_update(once, m, now) == once);
}

/// No two tokens share an identifier, and every token listing ascends
/// strictly in lexicographic order: pagination is stable.
pub proof fn lemma_enumeration_stable(s: StateView, cursor: Option<Seq<char>>, limit: int)
    requires
        state_wf(s),
        0 <= limit,
    ensures
        forall|i: int, j: int|
            #![trigger s.tokens[i], s.tokens[j]]
            0 <= i < j < s.tokens.len() ==> s.tokens[i].0 != s.tokens[j].0,
        forall|a: int, b: int|
            #![trigger spec_page(s.tokens, cursor, limit)[a], spec_page(s.tokens, cursor, limit)[b]]
            0 <= a < b < spec_page(s.tokens, cursor, limit).len() ==> crate::order::str_lt(
                spec_page(s.tokens, cursor, limit)[a],
                spec_page(s.tokens, cursor, limit)[b],
            ),
{
    assert forall|i: int, j: int|
        #![trigger s.tokens[i], s.tokens[j]]
        0 <= i < j < s.tokens.len() implies s.tokens[i].0 != s.tokens[j].0 by {
        crate::order::lemma_str_lt_asym(s.tokens[i].0, s.tokens[j].0);
    }
    crate::assoc::lemma_keys_after_sorted(s.tokens, cursor);
    let all = keys_after(s.tokens, cursor);
    let page = spec_page(s.tokens, cursor, limit);
    assert forall|a: int, b: int|
        #![trigger page[a], page[b]]
        0 <= a < b < page.len() implies crate::order::str_lt(page[a], page[b]) by {
        assert(page.len() <= all.len());
        assert(page[a] == all[a]);
        assert(page[b] == all[b]);
    }
}

} // verus!
