use cw721::error::ContractError;
use cw721::metadata::{CollectionExtension, RoyaltyInfo, MAX_ROYALTY_SHARE_PCT};
use cw721::query::query_collection_metadata;
use cw721::state::{instantiate, ContractState, Cw721InstantiateMsg};

const CREATOR_ADDR: &str = "creator";
const MINTER_ADDR: &str = "minter";
const OTHER_ADDR: &str = "other";
const NOW: u64 = 1_571_797_419;

fn plain_msg(minter: Option<&str>, creator: Option<&str>) -> Cw721InstantiateMsg {
    Cw721InstantiateMsg {
        name: "collection_name".into(),
        symbol: "collection_symbol".into(),
        collection_extension: None,
        minter: minter.map(|s| s.to_string()),
        creator: creator.map(|s| s.to_string()),
        withdraw_address: None,
    }
}

fn holder_of(role: &Option<cw721::roles::OwnershipRole>) -> Option<String> {
    role.as_ref().and_then(|r| r.holder.clone())
}

/// Version info is properly initialized during instantiation.
#[test]
fn proper_cw2_initialization() {
    let state: ContractState = instantiate(
        plain_msg(Some("minter"), Some("creator")),
        "larry",
        NOW,
        "contract_name",
        "contract_version",
    )
    .unwrap();

    let minter = holder_of(&state.minter);
    assert_eq!(minter, Some("minter".to_string()));

    let creator = holder_of(&state.creator);
    assert_eq!(creator, Some("creator".to_string()));

    assert_eq!(state.version.contract, "contract_name");
    assert_eq!(state.version.version, "contract_version");
}

#[test]
fn proper_minter_and_creator_initialization() {
    // case 1: sender is used in case minter and creator is not set
    {
        let state = instantiate(
            plain_msg(None, None),
            "minter_and_creator",
            NOW,
            "contract_name",
            "contract_version",
        )
        .unwrap();
        assert_eq!(holder_of(&state.minter), Some("minter_and_creator".to_string()));
        assert_eq!(holder_of(&state.creator), Some("minter_and_creator".to_string()));
    }
    // case 2: minter and creator are set
    {
        let state = instantiate(
            plain_msg(Some(MINTER_ADDR), Some(CREATOR_ADDR)),
            OTHER_ADDR,
            NOW,
            "contract_name",
            "contract_version",
        )
        .unwrap();
        assert_eq!(holder_of(&state.minter), Some(MINTER_ADDR.to_string()));
        assert_eq!(holder_of(&state.creator), Some(CREATOR_ADDR.to_string()));
    }
    // case 3: sender is minter and creator is set
    {
        let state = instantiate(
            plain_msg(None, Some(CREATOR_ADDR)),
            MINTER_ADDR,
            NOW,
            "contract_name",
            "contract_version",
        )
        .unwrap();
        assert_eq!(holder_of(&state.minter), Some(MINTER_ADDR.to_string()));
        assert_eq!(holder_of(&state.creator), Some(CREATOR_ADDR.to_string()));
    }
    // case 4: sender is creator and minter is set
    {
        let state = instantiate(
            plain_msg(Some(MINTER_ADDR), None),
            CREATOR_ADDR,
            NOW,
            "contract_name",
            "contract_version",
        )
        .unwrap();
        assert_eq!(holder_of(&state.minter), Some(MINTER_ADDR.to_string()));
        assert_eq!(holder_of(&state.creator), Some(CREATOR_ADDR.to_string()));
    }
}

fn msg_with_extension(extension: Option<CollectionExtension>) -> Cw721InstantiateMsg {
    Cw721InstantiateMsg {
        name: "collection_name".into(),
        symbol: "collection_symbol".into(),
        collection_extension: extension,
        minter: None,
        creator: None,
        withdraw_address: None,
    }
}

fn proper_extension() -> CollectionExtension {
    CollectionExtension {
        description: "description".into(),
        image: "https://moonphases.org".to_string(),
        explicit_content: Some(true),
        external_link: Some("https://moonphases.org".to_string()),
        start_trading_time: Some(0),
        royalty_info: Some(RoyaltyInfo {
            payment_address: "payment_address".into(),
            share_pct: MAX_ROYALTY_SHARE_PCT,
        }),
    }
}

#[test]
fn proper_collection_info_initialization() {
    // case 1: extension set with proper data
    {
        let extension = Some(proper_extension());
        let state = instantiate(
            msg_with_extension(extension.clone()),
            CREATOR_ADDR,
            NOW,
            "contract_name",
            "contract_version",
        )
        .unwrap();

        // validate data
        let collection_info = query_collection_metadata(&state).unwrap();
        assert_eq!(collection_info.name, "collection_name");
        assert_eq!(collection_info.symbol, "collection_symbol");
        assert_eq!(collection_info.extension, extension);
    }
    // case 2: invalid data
    {
        // invalid image
        let mut extension = proper_extension();
        extension.image = "invalid_url".to_string();
        let err = instantiate(
            msg_with_extension(Some(extension)),
            CREATOR_ADDR,
            NOW,
            "contract_name",
            "contract_version",
        )
        .unwrap_err();
        assert_eq!(err, ContractError::MalformedUrl);

        // invalid external link
        let mut extension = proper_extension();
        extension.external_link = Some("invalid_url".to_string());
        let err = instantiate(
            msg_with_extension(Some(extension)),
            CREATOR_ADDR,
            NOW,
            "contract_name",
            "contract_version",
        )
        .unwrap_err();
        assert_eq!(err, ContractError::MalformedUrl);

        // empty description
        let mut extension = proper_extension();
        extension.description = "".into();
        let err = instantiate(
            msg_with_extension(Some(extension)),
            CREATOR_ADDR,
            NOW,
            "contract_name",
            "contract_version",
        )
        .unwrap_err();
        assert_eq!(err, ContractError::CollectionDescriptionEmpty);

        // description too long
        let mut extension = proper_extension();
        extension.description = "a".repeat(1001);
        let err = instantiate(
            msg_with_extension(Some(extension)),
            CREATOR_ADDR,
            NOW,
            "contract_name",
            "contract_version",
        )
        .unwrap_err();
        assert_eq!(
            err,
            ContractError::CollectionDescriptionTooLong {
                max_length: cw721::metadata::MAX_DESCRIPTION_LENGTH
            }
        );

        // royalty share too high
        let mut extension = proper_extension();
        extension.royalty_info = Some(RoyaltyInfo {
            payment_address: "payment_address".into(),
            share_pct: MAX_ROYALTY_SHARE_PCT * 2,
        });
        let err = instantiate(
            msg_with_extension(Some(extension)),
            CREATOR_ADDR,
            NOW,
            "contract_name",
            "contract_version",
        )
        .unwrap_err();
        assert_eq!(err, ContractError::InvalidRoyalties);
    }
}
