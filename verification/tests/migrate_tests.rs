use cw721::error::ContractError;
use cw721::migrate::migrate;
use cw721::msgs::{execute, Cw721ExecuteMsg};
use cw721::query::{query_all_tokens, query_collection_metadata, query_owner_of, MAX_LIMIT};
use cw721::state::{instantiate_legacy, ContractState};
use cw721::version::{parse_version, SemVer};

const NOW: u64 = 1_571_797_419;

fn legacy_state_with_tokens() -> ContractState {
    let mut state = instantiate_legacy(
        "legacy_name",
        "legacy_symbol",
        "legacy_minter",
        "crates.io:cw721-base",
        "0.16.0",
    );
    // mint 200 NFTs before migration
    for i in 0..200 {
        execute(
            &mut state,
            Cw721ExecuteMsg::Mint {
                token_id: i.to_string(),
                owner: "owner".into(),
                token_uri: None,
                extension: None,
            },
            "legacy_minter",
            NOW,
        )
        .unwrap();
    }
    state
}

#[test]
fn test_migrate() {
    let mut state = legacy_state_with_tokens();

    // assert new data before migration:
    // - ownership and collection metadata are absent
    assert!(state.minter.is_none());
    assert!(state.creator.is_none());
    assert!(query_collection_metadata(&state).is_none());
    // assert legacy data before migration:
    // - version
    assert_eq!(state.version.version, "0.16.0");
    // - legacy minter is set
    assert_eq!(state.legacy_minter.as_deref(), Some("legacy_minter"));
    // - tokens are minted
    let all_tokens = query_all_tokens(&state, None, Some(MAX_LIMIT));
    assert_eq!(all_tokens.len(), 200);
    for token_id in 0..200 {
        let token = query_owner_of(&state, &token_id.to_string(), false, NOW).unwrap();
        assert_eq!(token.owner.as_str(), "owner");
    }

    migrate(&mut state, "contract_name", "0.19.0", None, None, NOW).unwrap();

    // version
    assert_eq!(state.version.version, "0.19.0");
    assert_ne!(state.version.version, "0.16.0");

    // assert minter ownership
    let minter_ownership = state.minter.clone().unwrap().holder;
    assert_eq!(minter_ownership, Some("legacy_minter".to_string()));

    // assert creator ownership
    let creator_ownership = state.creator.clone().unwrap().holder;
    assert_eq!(creator_ownership, Some("legacy_minter".to_string()));

    // assert collection metadata
    let collection_info = query_collection_metadata(&state).unwrap();
    assert_eq!(collection_info.name, "legacy_name");
    assert_eq!(collection_info.symbol, "legacy_symbol");
    assert_eq!(collection_info.extension, None);
    assert_eq!(collection_info.updated_at, NOW);

    // assert tokens
    let all_tokens = query_all_tokens(&state, None, Some(MAX_LIMIT));
    assert_eq!(all_tokens.len(), 200);

    // assert legacy data is still there (allowing backward migration in case of issues)
    // - minter
    assert_eq!(state.legacy_minter.as_deref(), Some("legacy_minter"));
    // - collection record
    let legacy_collection = state.legacy_collection.clone().unwrap();
    assert_eq!(legacy_collection.name, "legacy_name");
    assert_eq!(legacy_collection.symbol, "legacy_symbol");
    // - tokens are unchanged/still exist
    let all_tokens = query_all_tokens(&state, None, Some(MAX_LIMIT));
    assert_eq!(all_tokens.len(), 200);
    for token_id in 0..200 {
        let token = query_owner_of(&state, &token_id.to_string(), false, NOW).unwrap();
        assert_eq!(token.owner.as_str(), "owner");
    }
}

/// A migration whose target is not strictly ahead fails with
/// `VersionMismatch` and leaves every store unchanged.
#[test]
fn migrate_refuses_stale_target() {
    let mut state = legacy_state_with_tokens();

    // same version
    let err = migrate(&mut state, "contract_name", "0.16.0", None, None, NOW).unwrap_err();
    assert_eq!(err, ContractError::VersionMismatch);
    // older version
    let err = migrate(&mut state, "contract_name", "0.15.9", None, None, NOW).unwrap_err();
    assert_eq!(err, ContractError::VersionMismatch);
    // a target that is not a version at all: no upgrade path
    let err = migrate(&mut state, "contract_name", "not_a_version", None, None, NOW).unwrap_err();
    assert_eq!(err, ContractError::VersionMismatch);

    // everything is as before
    assert_eq!(state.version.version, "0.16.0");
    assert!(state.minter.is_none());
    assert!(state.creator.is_none());
    assert!(query_collection_metadata(&state).is_none());
    assert_eq!(query_all_tokens(&state, None, Some(MAX_LIMIT)).len(), 200);
    assert_eq!(state.legacy_minter.as_deref(), Some("legacy_minter"));
}

/// Migration honors explicit minter and creator overrides.
#[test]
fn migrate_with_overrides() {
    let mut state = legacy_state_with_tokens();
    migrate(
        &mut state,
        "contract_name",
        "0.19.0",
        Some("new_minter".to_string()),
        Some("new_creator".to_string()),
        NOW,
    )
    .unwrap();
    assert_eq!(state.minter.unwrap().holder, Some("new_minter".to_string()));
    assert_eq!(state.creator.unwrap().holder, Some("new_creator".to_string()));
}

#[test]
fn version_strings_parse_exactly() {
    assert_eq!(
        parse_version("1.2.3"),
        Some(SemVer { major: 1, minor: 2, patch: 3 })
    );
    assert_eq!(
        parse_version("0.16.0"),
        Some(SemVer { major: 0, minor: 16, patch: 0 })
    );
    assert_eq!(
        parse_version("007.010.00"),
        Some(SemVer { major: 7, minor: 10, patch: 0 })
    );
    assert_eq!(parse_version(""), None);
    assert_eq!(parse_version("1.2"), None);
    assert_eq!(parse_version("1.2.3.4"), None);
    assert_eq!(parse_version("a.b.c"), None);
    assert_eq!(parse_version("1..3"), None);
    assert_eq!(parse_version("1.2.x"), None);
    assert_eq!(parse_version("99999999999999999999.0.0"), None);
    assert_eq!(
        parse_version("18446744073709551615.0.0"),
        Some(SemVer { major: u64::MAX, minor: 0, patch: 0 })
    );
}
