use cw721::error::ContractError;
use cw721::execute::{approve, approve_all, burn, can_act, mint, revoke, revoke_all, transfer_nft};
use cw721::msgs::{execute, query, Cw721ExecuteMsg, Cw721QueryMsg, Effects, QueryResponse};
use cw721::query::{
    query_all_tokens, query_approval, query_approvals, query_num_tokens, query_operator,
    query_operators, query_owner_of, query_tokens, DEFAULT_LIMIT, MAX_LIMIT,
};
use cw721::roles::RoleAction;
use cw721::non_transferable::QueryMsg;
use cw721::state::{instantiate, ContractState, Cw721InstantiateMsg};

const NOW: u64 = 1_000;

fn fresh_state(caller: &str) -> ContractState {
    instantiate(
        Cw721InstantiateMsg {
            name: "collection_name".into(),
            symbol: "collection_symbol".into(),
            collection_extension: None,
            minter: None,
            creator: None,
            withdraw_address: Some("vault".into()),
        },
        caller,
        NOW,
        "contract_name",
        "contract_version",
    )
    .unwrap()
}

fn mint_to(state: &mut ContractState, id: &str, owner: &str, minter: &str) {
    mint(state, id, owner, None, None, minter).unwrap();
}

/// Instantiate as "A" with no roles named: both roles resolve to "A". Mint
/// "t1" to "B"; "B" approves "C" without expiration; "C" transfers to "D";
/// the transfer clears the approvals.
#[test]
fn end_to_end_lifecycle() {
    let mut state = fresh_state("A");
    assert_eq!(state.minter.clone().unwrap().holder, Some("A".to_string()));
    assert_eq!(state.creator.clone().unwrap().holder, Some("A".to_string()));

    mint_to(&mut state, "t1", "B", "A");
    assert_eq!(query_owner_of(&state, "t1", false, NOW).unwrap().owner, "B");

    approve(&mut state, "t1", "C", None, "B", NOW).unwrap();
    assert!(can_act(&state, "C", "t1", NOW));

    transfer_nft(&mut state, "t1", "D", "C", NOW).unwrap();
    let res = query_owner_of(&state, "t1", true, NOW).unwrap();
    assert_eq!(res.owner, "D");
    assert!(res.approvals.is_empty());
}

/// Burning removes the token from the listing and the count; the identifier
/// is free to be minted again.
#[test]
fn burn_then_remint() {
    let mut state = fresh_state("minter");
    mint_to(&mut state, "a", "alice", "minter");
    mint_to(&mut state, "b", "bob", "minter");
    assert_eq!(query_num_tokens(&state), 2);

    burn(&mut state, "a", "alice", NOW).unwrap();
    assert_eq!(query_num_tokens(&state), 1);
    assert_eq!(query_all_tokens(&state, None, None), vec!["b".to_string()]);
    assert_eq!(
        query_owner_of(&state, "a", false, NOW).unwrap_err(),
        ContractError::TokenNotFound
    );

    // the identifier is not permanently reserved
    mint_to(&mut state, "a", "carol", "minter");
    assert_eq!(query_owner_of(&state, "a", false, NOW).unwrap().owner, "carol");
    assert_eq!(query_num_tokens(&state), 2);
}

/// An approval that expired a moment ago is never honored, but a query that
/// asks for expired approvals still shows it.
#[test]
fn expired_approval_is_shown_but_not_honored() {
    let mut state = fresh_state("minter");
    mint_to(&mut state, "t", "owner", "minter");
    approve(&mut state, "t", "spender", Some(NOW + 1), "owner", NOW).unwrap();

    // one instant after the expiration: expires == later - 1
    let later = NOW + 2;
    assert!(!can_act(&state, "spender", "t", later));
    assert_eq!(
        transfer_nft(&mut state, "t", "elsewhere", "spender", later).unwrap_err(),
        ContractError::Unauthorized
    );

    // still visible when expired entries are asked for
    let shown = query_approvals(&state, "t", true, later).unwrap();
    assert_eq!(shown.len(), 1);
    assert_eq!(shown[0].spender, "spender");
    assert_eq!(shown[0].expires, Some(NOW + 1));
    // and filtered out by default
    assert!(query_approvals(&state, "t", false, later).unwrap().is_empty());
    assert_eq!(
        query_approval(&state, "t", "spender", false, later).unwrap_err(),
        ContractError::ApprovalExpiredOrAbsent
    );
}

#[test]
fn approval_errors() {
    let mut state = fresh_state("minter");
    mint_to(&mut state, "t", "owner", "minter");

    // only the owner grants
    assert_eq!(
        approve(&mut state, "t", "spender", None, "other", NOW).unwrap_err(),
        ContractError::Unauthorized
    );
    // an expiration in the past is refused
    assert_eq!(
        approve(&mut state, "t", "spender", Some(NOW), "owner", NOW).unwrap_err(),
        ContractError::ApprovalExpiredOrAbsent
    );
    // a missing token cannot be approved
    assert_eq!(
        approve(&mut state, "missing", "spender", None, "owner", NOW).unwrap_err(),
        ContractError::TokenNotFound
    );
    // granting again overwrites the expiration
    approve(&mut state, "t", "spender", Some(NOW + 5), "owner", NOW).unwrap();
    approve(&mut state, "t", "spender", Some(NOW + 9), "owner", NOW).unwrap();
    let shown = query_approvals(&state, "t", true, NOW).unwrap();
    assert_eq!(shown.len(), 1);
    assert_eq!(shown[0].expires, Some(NOW + 9));
    // revoking removes it
    revoke(&mut state, "t", "spender", "owner").unwrap();
    assert!(query_approvals(&state, "t", true, NOW).unwrap().is_empty());
}

#[test]
fn mint_errors() {
    let mut state = fresh_state("minter");
    mint_to(&mut state, "t", "owner", "minter");
    // a present identifier is refused
    assert_eq!(
        mint(&mut state, "t", "owner", None, None, "minter").unwrap_err(),
        ContractError::TokenAlreadyExists
    );
    // only the minter mints
    assert_eq!(
        mint(&mut state, "t2", "owner", None, None, "owner").unwrap_err(),
        ContractError::Unauthorized
    );
}

/// Operator grants are owner-scoped: they survive transfers of single tokens
/// and let the operator act on every token of the granting owner.
#[test]
fn operator_grants() {
    let mut state = fresh_state("minter");
    mint_to(&mut state, "t1", "owner", "minter");
    mint_to(&mut state, "t2", "owner", "minter");

    approve_all(&mut state, "op", Some(NOW + 100), "owner", NOW).unwrap();
    assert!(can_act(&state, "op", "t1", NOW));
    assert!(can_act(&state, "op", "t2", NOW));
    // the grant expires with time
    assert!(!can_act(&state, "op", "t1", NOW + 100));

    // a transfer does not clear the owner-scoped grant
    transfer_nft(&mut state, "t1", "other", "op", NOW).unwrap();
    assert!(can_act(&state, "op", "t2", NOW));
    // but the operator has no authority over the new owner's token
    assert!(!can_act(&state, "op", "t1", NOW));

    let grant = query_operator(&state, "owner", "op", false, NOW).unwrap();
    assert_eq!(grant.spender, "op");
    assert_eq!(grant.expires, Some(NOW + 100));
    // expired grants are hidden unless asked for
    assert_eq!(
        query_operator(&state, "owner", "op", false, NOW + 100).unwrap_err(),
        ContractError::ApprovalExpiredOrAbsent
    );
    assert_eq!(
        query_operator(&state, "owner", "op", true, NOW + 100).unwrap().spender,
        "op"
    );

    revoke_all(&mut state, "op", "owner").unwrap();
    assert!(!can_act(&state, "op", "t2", NOW));
    assert!(query_operators(&state, "owner", true, None, None, NOW).is_empty());

    // an expired expiration is refused when granting
    assert_eq!(
        approve_all(&mut state, "op", Some(NOW), "owner", NOW).unwrap_err(),
        ContractError::ApprovalExpiredOrAbsent
    );
}

#[test]
fn operator_listing_paginates() {
    let mut state = fresh_state("minter");
    approve_all(&mut state, "op_a", None, "owner", NOW).unwrap();
    approve_all(&mut state, "op_b", Some(NOW + 1), "owner", NOW).unwrap();
    approve_all(&mut state, "op_c", None, "owner", NOW).unwrap();

    let all = query_operators(&state, "owner", true, None, None, NOW);
    let names: Vec<&str> = all.iter().map(|a| a.spender.as_str()).collect();
    assert_eq!(names, vec!["op_a", "op_b", "op_c"]);

    // the cursor is exclusive
    let rest = query_operators(&state, "owner", true, Some("op_a"), None, NOW);
    let names: Vec<&str> = rest.iter().map(|a| a.spender.as_str()).collect();
    assert_eq!(names, vec!["op_b", "op_c"]);

    // expired grants are filtered before the limit applies
    let unexpired = query_operators(&state, "owner", false, None, Some(2), NOW + 1);
    let names: Vec<&str> = unexpired.iter().map(|a| a.spender.as_str()).collect();
    assert_eq!(names, vec!["op_a", "op_c"]);
}

/// Token listings ascend lexicographically, the cursor is exclusive, and the
/// limit is clamped, not rejected.
#[test]
fn token_listing_paginates() {
    let mut state = fresh_state("minter");
    for id in ["b", "a", "d", "c"] {
        mint_to(&mut state, id, "owner", "minter");
    }
    mint_to(&mut state, "e", "other", "minter");

    assert_eq!(
        query_all_tokens(&state, None, None),
        vec!["a", "b", "c", "d", "e"]
    );
    assert_eq!(query_all_tokens(&state, Some("b"), None), vec!["c", "d", "e"]);
    assert_eq!(query_all_tokens(&state, None, Some(2)), vec!["a", "b"]);
    // a limit over the cap is clamped to the cap, not refused
    assert_eq!(query_all_tokens(&state, None, Some(MAX_LIMIT + 5)).len(), 5);

    // by owner
    assert_eq!(
        query_tokens(&state, "owner", None, None),
        vec!["a", "b", "c", "d"]
    );
    assert_eq!(query_tokens(&state, "owner", Some("b"), Some(1)), vec!["c"]);
    assert_eq!(query_tokens(&state, "other", None, None), vec!["e"]);
    assert_eq!(query_tokens(&state, "nobody", None, None), Vec::<String>::new());

    // the default limit caps an unbounded listing
    let mut state = fresh_state("minter");
    for i in 0..15 {
        mint_to(&mut state, &format!("{i:02}"), "owner", "minter");
    }
    assert_eq!(
        query_all_tokens(&state, None, None).len(),
        DEFAULT_LIMIT as usize
    );
}

/// The two-step role handshake: propose, accept, reject, renounce, and the
/// expiry of a pending proposal.
#[test]
fn role_transfer_handshake() {
    let mut state = fresh_state("alice");

    // only the holder proposes
    let err = execute(
        &mut state,
        Cw721ExecuteMsg::UpdateMinterOwnership(RoleAction::Propose {
            candidate: "bob".into(),
            expires: None,
        }),
        "bob",
        NOW,
    )
    .unwrap_err();
    assert_eq!(err, ContractError::Unauthorized);

    // propose and accept
    execute(
        &mut state,
        Cw721ExecuteMsg::UpdateMinterOwnership(RoleAction::Propose {
            candidate: "bob".into(),
            expires: Some(NOW + 10),
        }),
        "alice",
        NOW,
    )
    .unwrap();
    // only the candidate accepts
    let err = execute(
        &mut state,
        Cw721ExecuteMsg::UpdateMinterOwnership(RoleAction::Accept),
        "carol",
        NOW,
    )
    .unwrap_err();
    assert_eq!(err, ContractError::Unauthorized);
    execute(
        &mut state,
        Cw721ExecuteMsg::UpdateMinterOwnership(RoleAction::Accept),
        "bob",
        NOW + 1,
    )
    .unwrap();
    assert_eq!(state.minter.clone().unwrap().holder, Some("bob".to_string()));
    assert!(state.minter.clone().unwrap().pending.is_none());

    // an expired proposal cannot be accepted
    execute(
        &mut state,
        Cw721ExecuteMsg::UpdateMinterOwnership(RoleAction::Propose {
            candidate: "carol".into(),
            expires: Some(NOW + 20),
        }),
        "bob",
        NOW,
    )
    .unwrap();
    let err = execute(
        &mut state,
        Cw721ExecuteMsg::UpdateMinterOwnership(RoleAction::Accept),
        "carol",
        NOW + 20,
    )
    .unwrap_err();
    assert_eq!(err, ContractError::ApprovalExpiredOrAbsent);

    // the candidate may reject
    execute(
        &mut state,
        Cw721ExecuteMsg::UpdateMinterOwnership(RoleAction::Reject),
        "carol",
        NOW,
    )
    .unwrap();
    assert!(state.minter.clone().unwrap().pending.is_none());
    assert_eq!(state.minter.clone().unwrap().holder, Some("bob".to_string()));

    // renouncing leaves the role unheld, and minting impossible
    execute(
        &mut state,
        Cw721ExecuteMsg::UpdateCreatorOwnership(RoleAction::Renounce),
        "alice",
        NOW,
    )
    .unwrap();
    assert_eq!(state.creator.clone().unwrap().holder, None);
}

/// A send changes the owner exactly like a transfer and hands the payload
/// back for the host to deliver to the receiving contract.
#[test]
fn send_carries_payload() {
    let mut state = fresh_state("minter");
    mint_to(&mut state, "t", "owner", "minter");
    let eff = execute(
        &mut state,
        Cw721ExecuteMsg::SendNft {
            contract: "receiver".into(),
            token_id: "t".into(),
            msg: vec![1, 2, 3],
        },
        "owner",
        NOW,
    )
    .unwrap();
    assert_eq!(
        eff,
        Effects::Sent {
            token_id: "t".into(),
            contract: "receiver".into(),
            msg: vec![1, 2, 3],
        }
    );
    assert_eq!(query_owner_of(&state, "t", false, NOW).unwrap().owner, "receiver");
}

/// The query dispatcher answers each request like the direct query.
#[test]
fn query_dispatcher_answers() {
    let mut state = fresh_state("minter");
    mint_to(&mut state, "t", "owner", "minter");

    match query(
        &state,
        &Cw721QueryMsg::OwnerOf { token_id: "t".into(), include_expired: None },
        NOW,
    )
    .unwrap()
    {
        QueryResponse::OwnerOf(v) => assert_eq!(v.owner, "owner"),
        other => panic!("unexpected answer: {other:?}"),
    }
    match query(&state, &Cw721QueryMsg::NumTokens {}, NOW).unwrap() {
        QueryResponse::NumTokens(v) => assert_eq!(v, 1),
        other => panic!("unexpected answer: {other:?}"),
    }
    match query(&state, &Cw721QueryMsg::Minter {}, NOW).unwrap() {
        QueryResponse::Minter(v) => assert_eq!(v, Some("minter".to_string())),
        other => panic!("unexpected answer: {other:?}"),
    }
    match query(&state, &Cw721QueryMsg::GetWithdrawAddress {}, NOW).unwrap() {
        QueryResponse::WithdrawAddress(v) => assert_eq!(v, Some("vault".to_string())),
        other => panic!("unexpected answer: {other:?}"),
    }
    match query(
        &state,
        &Cw721QueryMsg::AllTokens { start_after: None, limit: None },
        NOW,
    )
    .unwrap()
    {
        QueryResponse::Tokens(v) => assert_eq!(v, vec!["t".to_string()]),
        other => panic!("unexpected answer: {other:?}"),
    }
    assert_eq!(
        query(
            &state,
            &Cw721QueryMsg::NftInfo { token_id: "missing".into() },
            NOW,
        )
        .unwrap_err(),
        ContractError::TokenNotFound
    );
}

/// The core counterpart of a non-transferable query keeps its fields; the
/// older collection-info name maps onto the collection-metadata query.
#[test]
fn non_transferable_queries_map_onto_core() {
    let core = Cw721QueryMsg::from(QueryMsg::OwnerOf {
        token_id: "t".into(),
        include_expired: Some(true),
    });
    assert_eq!(
        core,
        Cw721QueryMsg::OwnerOf { token_id: "t".into(), include_expired: Some(true) }
    );
    let core = Cw721QueryMsg::from(QueryMsg::ContractInfo {});
    assert_eq!(core, Cw721QueryMsg::GetCollectionMetadata {});
    let core = Cw721QueryMsg::from(QueryMsg::Tokens {
        owner: "o".into(),
        start_after: Some("a".into()),
        limit: Some(3),
    });
    assert_eq!(
        core,
        Cw721QueryMsg::Tokens { owner: "o".into(), start_after: Some("a".into()), limit: Some(3) }
    );
}

/// The flavor-specific instantiation messages carry the same collection
/// fields as the core message and set a core instance up unchanged.
#[test]
fn flavor_messages_feed_the_core() {
    let nt = cw721::non_transferable::InstantiateMsg {
        admin: Some("admin".into()),
        name: "collection_name".into(),
        symbol: "collection_symbol".into(),
        collection_extension: None,
        minter: Some("minter".into()),
        creator: None,
        withdraw_address: None,
    };
    let state = instantiate(
        Cw721InstantiateMsg {
            name: nt.name,
            symbol: nt.symbol,
            collection_extension: nt.collection_extension,
            minter: nt.minter,
            creator: nt.creator,
            withdraw_address: nt.withdraw_address,
        },
        "admin",
        NOW,
        "contract_name",
        "contract_version",
    )
    .unwrap();
    assert_eq!(state.minter.unwrap().holder, Some("minter".to_string()));
    assert_eq!(state.creator.unwrap().holder, Some("admin".to_string()));

    let exp = cw721::expiration::InstantiateMsg {
        expiration_days: 30,
        name: "collection_name".into(),
        symbol: "collection_symbol".into(),
        collection_extension: None,
        minter: None,
        creator: None,
        withdraw_address: None,
    };
    assert_eq!(exp.expiration_days, 30);

    let q = cw721::expiration::QueryMsg::OwnerOf {
        token_id: "t".into(),
        include_expired: None,
        include_expired_nft: Some(true),
    };
    assert!(matches!(q, cw721::expiration::QueryMsg::OwnerOf { .. }));

    let admin = cw721::non_transferable::AdminResponse { admin: Some("admin".into()) };
    assert_eq!(admin.admin, Some("admin".to_string()));
}
