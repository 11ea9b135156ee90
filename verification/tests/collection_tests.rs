use cw721::error::ContractError;
use cw721::execute::update_collection_metadata;
use cw721::metadata::{
    CollectionExtension, CollectionExtensionMsg, CollectionMetadataMsg, RoyaltyInfo,
    MAX_DESCRIPTION_LENGTH, MAX_ROYALTY_SHARE_PCT, MAX_SHARE_DELTA_PCT,
};
use cw721::msgs::{execute, Cw721ExecuteMsg};
use cw721::query::{query_collection_metadata, query_nft_info};
use cw721::state::{instantiate, ContractState, Cw721InstantiateMsg};
use cw721::tokens::NftExtension;

const CREATOR_ADDR: &str = "creator";
const OTHER_ADDR: &str = "other";
const NOW: u64 = 1_571_797_419;

fn instantiated_extension() -> CollectionExtension {
    CollectionExtension {
        description: "description".into(),
        image: "https://moonphases.org".to_string(),
        explicit_content: Some(true),
        external_link: Some("https://moonphases.org".to_string()),
        start_trading_time: Some(0),
        royalty_info: Some(RoyaltyInfo {
            payment_address: "payment_address".into(),
            share_pct: MAX_ROYALTY_SHARE_PCT,
        }),
    }
}

fn instantiated_state() -> ContractState {
    instantiate(
        Cw721InstantiateMsg {
            name: "collection_name".into(),
            symbol: "collection_symbol".into(),
            collection_extension: Some(instantiated_extension()),
            minter: None,
            creator: None,
            withdraw_address: None,
        },
        CREATOR_ADDR,
        NOW,
        "contract_name",
        "contract_version",
    )
    .unwrap()
}

fn empty_extension_msg() -> CollectionExtensionMsg {
    CollectionExtensionMsg {
        description: None,
        image: None,
        explicit_content: None,
        external_link: None,
        start_trading_time: None,
        royalty_info: None,
    }
}

fn updated_extension_msg() -> CollectionExtensionMsg {
    CollectionExtensionMsg {
        description: Some("new_description".into()),
        image: Some("https://en.wikipedia.org/wiki/Non-fungible_token".to_string()),
        explicit_content: Some(true),
        external_link: Some("https://github.com/CosmWasm/cw-nfts".to_string()),
        start_trading_time: Some(0),
        royalty_info: Some(RoyaltyInfo {
            payment_address: "payment_address".into(),
            share_pct: MAX_ROYALTY_SHARE_PCT,
        }),
    }
}

fn updated_msg(extension: CollectionExtensionMsg) -> CollectionMetadataMsg {
    CollectionMetadataMsg {
        name: Some("new_collection_name".into()),
        symbol: Some("new_collection_symbol".into()),
        extension,
    }
}

#[test]
fn proper_collection_info_update() {
    // case 1: update with proper data
    {
        let mut state = instantiated_state();

        // update collection with no data
        let empty_collection_info_msg = CollectionMetadataMsg {
            name: None,
            symbol: None,
            extension: empty_extension_msg(),
        };
        execute(
            &mut state,
            Cw721ExecuteMsg::UpdateCollectionMetadata {
                collection_metadata: empty_collection_info_msg,
            },
            CREATOR_ADDR,
            NOW,
        )
        .unwrap();
        // validate data
        let collection_info = query_collection_metadata(&state).unwrap();
        assert_eq!(collection_info.name, "collection_name");
        assert_eq!(collection_info.symbol, "collection_symbol");
        assert_eq!(collection_info.extension, Some(instantiated_extension()));

        // update collection with proper data
        execute(
            &mut state,
            Cw721ExecuteMsg::UpdateCollectionMetadata {
                collection_metadata: updated_msg(updated_extension_msg()),
            },
            CREATOR_ADDR,
            NOW,
        )
        .unwrap();

        // validate data
        let collection_info = query_collection_metadata(&state).unwrap();
        assert_eq!(collection_info.name, "new_collection_name");
        assert_eq!(collection_info.symbol, "new_collection_symbol");
        assert_eq!(
            collection_info.extension,
            Some(CollectionExtension {
                description: "new_description".into(),
                image: "https://en.wikipedia.org/wiki/Non-fungible_token".to_string(),
                explicit_content: Some(true),
                external_link: Some("https://github.com/CosmWasm/cw-nfts".to_string()),
                start_trading_time: Some(0),
                royalty_info: Some(RoyaltyInfo {
                    payment_address: "payment_address".into(),
                    share_pct: MAX_ROYALTY_SHARE_PCT,
                }),
            })
        );
    }
    // case 2: update with invalid data
    {
        let mut state = instantiated_state();

        // empty description
        let mut ext = updated_extension_msg();
        ext.description = Some("".into());
        let err = update_collection_metadata(&mut state, &updated_msg(ext), CREATOR_ADDR, NOW)
            .unwrap_err();
        assert_eq!(err, ContractError::CollectionDescriptionEmpty);

        // description too long
        let mut ext = updated_extension_msg();
        ext.description = Some("a".repeat(1001));
        let err = update_collection_metadata(&mut state, &updated_msg(ext), CREATOR_ADDR, NOW)
            .unwrap_err();
        assert_eq!(
            err,
            ContractError::CollectionDescriptionTooLong { max_length: MAX_DESCRIPTION_LENGTH }
        );

        // invalid image url
        let mut ext = updated_extension_msg();
        ext.image = Some("invalid_url".to_string());
        let err = update_collection_metadata(&mut state, &updated_msg(ext), CREATOR_ADDR, NOW)
            .unwrap_err();
        assert_eq!(err, ContractError::MalformedUrl);

        // invalid external link url
        let mut ext = updated_extension_msg();
        ext.external_link = Some("invalid_url".to_string());
        let err = update_collection_metadata(&mut state, &updated_msg(ext), CREATOR_ADDR, NOW)
            .unwrap_err();
        assert_eq!(err, ContractError::MalformedUrl);

        // royalty share too high
        let mut ext = updated_extension_msg();
        ext.royalty_info = Some(RoyaltyInfo {
            payment_address: "payment_address".into(),
            share_pct: MAX_ROYALTY_SHARE_PCT + MAX_SHARE_DELTA_PCT - 1,
        });
        let err = update_collection_metadata(&mut state, &updated_msg(ext), CREATOR_ADDR, NOW)
            .unwrap_err();
        assert_eq!(err, ContractError::InvalidRoyalties);

        // max share delta too high
        let mut ext = updated_extension_msg();
        ext.royalty_info = Some(RoyaltyInfo {
            payment_address: "payment_address".into(),
            share_pct: MAX_ROYALTY_SHARE_PCT + MAX_SHARE_DELTA_PCT + 1,
        });
        let err = update_collection_metadata(&mut state, &updated_msg(ext), CREATOR_ADDR, NOW)
            .unwrap_err();
        assert_eq!(err, ContractError::InvalidRoyalties);
    }
    // case 3: non-creator updating data
    {
        let mut state = instantiated_state();
        let err = update_collection_metadata(
            &mut state,
            &updated_msg(updated_extension_msg()),
            OTHER_ADDR,
            NOW,
        )
        .unwrap_err();
        assert_eq!(err, ContractError::Unauthorized);
    }
}

#[test]
fn use_metadata_extension() {
    let mut state = instantiate(
        Cw721InstantiateMsg {
            name: "collection_name".into(),
            symbol: "collection_symbol".into(),
            collection_extension: None,
            minter: None,
            creator: None,
            withdraw_address: None,
        },
        CREATOR_ADDR,
        NOW,
        "contract_name",
        "contract_version",
    )
    .unwrap();

    let token_id = "Enterprise";
    let token_uri = Some("https://starships.example.com/Starship/Enterprise.json".to_string());
    let extension = Some(NftExtension {
        description: Some("Spaceship with Warp Drive".into()),
        name: Some("Starship USS Enterprise".to_string()),
        ..NftExtension::default()
    });
    execute(
        &mut state,
        Cw721ExecuteMsg::Mint {
            token_id: token_id.to_string(),
            owner: "john".to_string(),
            token_uri: token_uri.clone(),
            extension: extension.clone(),
        },
        CREATOR_ADDR,
        NOW,
    )
    .unwrap();

    let res = query_nft_info(&state, token_id).unwrap();
    assert_eq!(res.token_uri, token_uri);
    assert_eq!(res.extension, extension);
}

/// A royalty update may move the share only by the bounded step: from 5% a
/// jump to 12% is refused, a step to 9% is accepted.
#[test]
fn royalty_share_delta_bounds() {
    let mut extension = instantiated_extension();
    extension.royalty_info = Some(RoyaltyInfo {
        payment_address: "payment_address".into(),
        share_pct: 5,
    });
    let mut state = instantiate(
        Cw721InstantiateMsg {
            name: "collection_name".into(),
            symbol: "collection_symbol".into(),
            collection_extension: Some(extension),
            minter: None,
            creator: None,
            withdraw_address: None,
        },
        CREATOR_ADDR,
        NOW,
        "contract_name",
        "contract_version",
    )
    .unwrap();

    // 5% -> 12%: the step of 7% exceeds the permitted delta of 5%.
    let mut ext = empty_extension_msg();
    ext.royalty_info = Some(RoyaltyInfo {
        payment_address: "payment_address".into(),
        share_pct: 12,
    });
    let msg = CollectionMetadataMsg { name: None, symbol: None, extension: ext };
    let err = update_collection_metadata(&mut state, &msg, CREATOR_ADDR, NOW).unwrap_err();
    assert_eq!(err, ContractError::InvalidRoyalties);

    // 5% -> 9%: within the delta and under the share bound.
    let mut ext = empty_extension_msg();
    ext.royalty_info = Some(RoyaltyInfo {
        payment_address: "payment_address".into(),
        share_pct: 9,
    });
    let msg = CollectionMetadataMsg { name: None, symbol: None, extension: ext };
    update_collection_metadata(&mut state, &msg, CREATOR_ADDR, NOW).unwrap();
    let collection_info = query_collection_metadata(&state).unwrap();
    assert_eq!(
        collection_info.extension.unwrap().royalty_info.unwrap().share_pct,
        9
    );
}

/// Re-applying the same full update twice leaves the stored record exactly
/// as after the first application.
#[test]
fn repeated_full_update_is_idempotent() {
    let mut state = instantiated_state();
    let msg = updated_msg(updated_extension_msg());
    update_collection_metadata(&mut state, &msg, CREATOR_ADDR, NOW).unwrap();
    let once = query_collection_metadata(&state).unwrap();
    update_collection_metadata(&mut state, &msg, CREATOR_ADDR, NOW).unwrap();
    let twice = query_collection_metadata(&state).unwrap();
    assert_eq!(once, twice);
}
