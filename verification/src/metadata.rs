//! Collection-level metadata and its validated updates.
//!
//! A collection has a name, a symbol, an optional structured extension
//! (description, image and link URLs, trading start, royalty terms) and the
//! time of its last update. Every write validates the extension: the
//! description is non-empty and bounded, URLs are well formed, the royalty
//! share is bounded, and an update may move the share only by a bounded step.
//! An update message carries only the fields to change; absent fields keep
//! their previous values (absent is not clear).

use vstd::prelude::*;
use vstd::string::StrSliceExecFns;
use crate::error::ContractError;
use crate::tokens::clone_opt_string;
use crate::urls::{url_is_valid, check_url};

verus! {

/// Longest permitted collection description, in characters.
pub const MAX_DESCRIPTION_LENGTH: u32 = 1000;

/// Highest permitted royalty share, in percent.
pub const MAX_ROYALTY_SHARE_PCT: u64 = 10;

/// Largest permitted change of the royalty share in one update, in percent.
pub const MAX_SHARE_DELTA_PCT: u64 = 5;

/// Royalty terms: where payments go and which share of a sale they take.
#[derive(Debug, PartialEq)]
pub struct RoyaltyInfo {
    pub payment_address: String,
    pub share_pct: u64,
}

/// Spec-level shape of royalty terms.
pub ghost struct RoyaltyInfoView {
    pub payment_address: Seq<char>,
    pub share_pct: u64,
}

impl DeepView for RoyaltyInfo {
    type V = RoyaltyInfoView;

    open spec fn deep_view(&self) -> RoyaltyInfoView {
        RoyaltyInfoView { payment_address: self.payment_address@, share_pct: self.share_pct }
    }
}

impl Clone for RoyaltyInfo {
    fn clone(&self) -> (r: Self)
        ensures
            r.deep_view() == self.deep_view(),
    {
        RoyaltyInfo { payment_address: self.payment_address.clone(), share_pct: self.share_pct }
    }
}

/// The structured extension of the collection metadata.
#[derive(Debug, PartialEq)]
pub struct CollectionExtension {
    pub description: String,
    pub image: String,
    pub explicit_content: Option<bool>,
    pub external_link: Option<String>,
    pub start_trading_time: Option<u64>,
    pub royalty_info: Option<RoyaltyInfo>,
}

/// Spec-level shape of the collection extension.
pub ghost struct CollectionExtensionView {
    pub description: Seq<char>,
    pub image: Seq<char>,
    pub explicit_content: Option<bool>,
    pub external_link: Option<Seq<char>>,
    pub start_trading_time: Option<u64>,
    pub royalty_info: Option<RoyaltyInfoView>,
}

impl DeepView for CollectionExtension {
    type V = CollectionExtensionView;

    open spec fn deep_view(&self) -> CollectionExtensionView {
        CollectionExtensionView {
            description: self.description@,
            image: self.image@,
            explicit_content: self.explicit_content,
            external_link: self.external_link.deep_view(),
            start_trading_time: self.start_trading_time,
            royalty_info: self.royalty_info.deep_view(),
        }
    }
}

/// Copies an optional royalty record.
pub fn clone_opt_royalty(o: &Option<RoyaltyInfo>) -> (r: Option<RoyaltyInfo>)
    ensures
        r.deep_view() == o.deep_view(),
{
    match o {
        Some(v) => Some(v.clone()),
        None => None,
    }
}

impl Clone for CollectionExtension {
    fn clone(&self) -> (r: Self)
        ensures
            r.deep_view() == self.deep_view(),
    {
        CollectionExtension {
            description: self.description.clone(),
            image: self.image.clone(),
            explicit_content: self.explicit_content,
            external_link: clone_opt_string(&self.external_link),
            start_trading_time: self.start_trading_time,
            royalty_info: clone_opt_royalty(&self.royalty_info),
        }
    }
}

/// Copies an optional collection extension.
pub fn clone_opt_collection_extension(o: &Option<CollectionExtension>) -> (r: Option<
    CollectionExtension,
>)
    ensures
        r.deep_view() == o.deep_view(),
{
    match o {
        Some(v) => Some(v.clone()),
        None => None,
    }
}

/// The collection metadata: one record per contract instance.
#[derive(Debug, PartialEq)]
pub struct CollectionMetadata {
    pub name: String,
    pub symbol: String,
    pub extension: Option<CollectionExtension>,
    pub updated_at: u64,
}

/// Spec-level shape of the collection metadata.
pub ghost struct CollectionMetadataView {
    pub name: Seq<char>,
    pub symbol: Seq<char>,
    pub extension: Option<CollectionExtensionView>,
    pub updated_at: u64,
}

impl DeepView for CollectionMetadata {
    type V = CollectionMetadataView;

    open spec fn deep_view(&self) -> CollectionMetadataView {
        CollectionMetadataView {
            name: self.name@,
            symbol: self.symbol@,
            extension: self.extension.deep_view(),
            updated_at: self.updated_at,
        }
    }
}

impl Clone for CollectionMetadata {
    fn clone(&self) -> (r: Self)
        ensures
            r.deep_view() == self.deep_view(),
    {
        CollectionMetadata {
            name: self.name.clone(),
            symbol: self.symbol.clone(),
            extension: clone_opt_collection_extension(&self.extension),
            updated_at: self.updated_at,
        }
    }
}

/// A partial update of the collection extension: absent fields keep their
/// previous values.
#[derive(Debug, PartialEq)]
pub struct CollectionExtensionMsg {
    pub description: Option<String>,
    pub image: Option<String>,
    pub explicit_content: Option<bool>,
    pub external_link: Option<String>,
    pub start_trading_time: Option<u64>,
    pub royalty_info: Option<RoyaltyInfo>,
}

/// Spec-level shape of an extension update.
pub ghost struct CollectionExtensionMsgView {
    pub description: Option<Seq<char>>,
    pub image: Option<Seq<char>>,
    pub explicit_content: Option<bool>,
    pub external_link: Option<Seq<char>>,
    pub start_trading_time: Option<u64>,
    pub royalty_info: Option<RoyaltyInfoView>,
}

impl DeepView for CollectionExtensionMsg {
    type V = CollectionExtensionMsgView;

    open spec fn deep_view(&self) -> CollectionExtensionMsgView {
        CollectionExtensionMsgView {
            description: self.description.deep_view(),
            image: self.image.deep_view(),
            explicit_content: self.explicit_content,
            external_link: self.external_link.deep_view(),
            start_trading_time: self.start_trading_time,
            royalty_info: self.royalty_info.deep_view(),
        }
    }
}

/// A partial update of the collection metadata.
#[derive(Debug, PartialEq)]
pub struct CollectionMetadataMsg {
    pub name: Option<String>,
    pub symbol: Option<String>,
    pub extension: CollectionExtensionMsg,
}

/// Spec-level shape of a metadata update.
pub ghost struct CollectionMetadataMsgView {
    pub name: Option<Seq<char>>,
    pub symbol: Option<Seq<char>>,
    pub extension: CollectionExtensionMsgView,
}

impl DeepView for CollectionMetadataMsg {
    type V = CollectionMetadataMsgView;

    open spec fn deep_view(&self) -> CollectionMetadataMsgView {
        CollectionMetadataMsgView {
            name: self.name.deep_view(),
            symbol: self.symbol.deep_view(),
            extension: self.extension.deep_view(),
        }
    }
}

/// An update that names no extension field at all.
pub open spec fn ext_msg_is_empty(m: CollectionExtensionMsgView) -> bool {
    m.description is None && m.image is None && m.explicit_content is None && m.external_link
        is None && m.start_trading_time is None && m.royalty_info is None
}

/// The extension after applying an update to the current one. A wholly empty
/// update leaves a missing extension missing; otherwise absent fields keep
/// their current values, with empty strings as the base where no extension
/// existed yet.
pub open spec fn merged_extension(
    cur: Option<CollectionExtensionView>,
    m: CollectionExtensionMsgView,
) -> Option<CollectionExtensionView> {
    if cur is None && ext_msg_is_empty(m) {
        None
    } else {
        let base = match cur {
            Option::Some(c) => c,
            Option::None => CollectionExtensionView {
                description: Seq::empty(),
                image: Seq::empty(),
                explicit_content: None,
                external_link: None,
                start_trading_time: None,
                royalty_info: None,
            },
        };
        Some(
            CollectionExtensionView {
                description: match m.description {
                    Option::Some(d) => d,
                    Option::None => base.description,
                },
                image: match m.image {
                    Option::Some(v) => v,
                    Option::None => base.image,
                },
                explicit_content: match m.explicit_content {
                    Option::Some(v) => Some(v),
                    Option::None => base.explicit_content,
                },
                external_link: match m.external_link {
                    Option::Some(v) => Some(v),
                    Option::None => base.external_link,
                },
                start_trading_time: match m.start_trading_time {
                    Option::Some(v) => Some(v),
                    Option::None => base.start_trading_time,
                },
                royalty_info: match m.royalty_info {
                    Option::Some(v) => Some(v),
                    Option::None => base.royalty_info,
                },
            },
        )
    }
}

/// The share of the previous royalty terms, if any: the baseline for the
/// per-update delta bound.
pub open spec fn prev_share(cur: Option<CollectionExtensionView>) -> Option<u64> {
    match cur {
        Option::Some(c) => match c.royalty_info {
            Option::Some(r) => Some(r.share_pct),
            Option::None => None,
        },
        Option::None => None,
    }
}

/// The first fault of a candidate extension, if any: empty or overlong
/// description, malformed image or external-link URL, royalty share moved by
/// more than the permitted step, or over the share bound.
pub open spec fn validate_extension(
    next: CollectionExtensionView,
    prev: Option<u64>,
) -> Option<ContractError> {
    if next.description.len() == 0 {
        Some(ContractError::CollectionDescriptionEmpty)
    } else if next.description.len() > MAX_DESCRIPTION_LENGTH {
        Some(ContractError::CollectionDescriptionTooLong { max_length: MAX_DESCRIPTION_LENGTH })
    } else if !url_is_valid(next.image) {
        Some(ContractError::MalformedUrl)
    } else if next.external_link is Some && !url_is_valid(next.external_link->0) {
        Some(ContractError::MalformedUrl)
    } else {
        match next.royalty_info {
            Option::None => None,
            Option::Some(r) => {
                let delta_ok = match prev {
                    Option::Some(p) => (if r.share_pct >= p {
                        r.share_pct - p
                    } else {
                        p - r.share_pct
                    }) <= MAX_SHARE_DELTA_PCT,
                    Option::None => true,
                };
                if !delta_ok {
                    Some(ContractError::InvalidRoyalties)
                } else if r.share_pct > MAX_ROYALTY_SHARE_PCT {
                    Some(ContractError::InvalidRoyalties)
                } else {
                    None
                }
            },
        }
    }
}

/// The fault of a metadata update, if any: its merged extension's fault.
pub open spec fn metadata_update_error(
    cur: CollectionMetadataView,
    m: CollectionMetadataMsgView,
) -> Option<ContractError> {
    match merged_extension(cur.extension, m.extension) {
        Option::None => None,
        Option::Some(next) => validate_extension(next, prev_share(cur.extension)),
    }
}

/// The metadata after a valid update at time `now`.
pub open spec fn apply_metadata_update(
    cur: CollectionMetadataView,
    m: CollectionMetadataMsgView,
    now: u64,
) -> CollectionMetadataView {
    CollectionMetadataView {
        name: match m.name {
            Option::Some(n) => n,
            Option::None => cur.name,
        },
        symbol: match m.symbol {
            Option::Some(s) => s,
            Option::None => cur.symbol,
        },
        extension: merged_extension(cur.extension, m.extension),
        updated_at: now,
    }
}

/// Checks a candidate extension, reporting its first fault.
pub fn validate_extension_exec(next: &CollectionExtension, prev: Option<u64>) -> (r: Result<
    (),
    ContractError,
>)
    ensures
        match r {
            Ok(()) => validate_extension(next.deep_view(), prev) is None,
            Err(e) => validate_extension(next.deep_view(), prev) == Some(e),
        },
{
    let dlen = next.description.as_str().unicode_len();
    if dlen == 0 {
        return Err(ContractError::CollectionDescriptionEmpty);
    }
    if dlen > MAX_DESCRIPTION_LENGTH as usize {
        return Err(
            ContractError::CollectionDescriptionTooLong { max_length: MAX_DESCRIPTION_LENGTH },
        );
    }
    if !check_url(next.image.as_str()) {
        return Err(ContractError::MalformedUrl);
    }
    match &next.external_link {
        Some(link) => {
            if !check_url(link.as_str()) {
                return Err(ContractError::MalformedUrl);
            }
        },
        None => {},
    }
    match &next.royalty_info {
        Some(r) => {
            let delta_ok = match prev {
                Some(p) => (if r.share_pct >= p {
                    r.share_pct - p
                } else {
                    p - r.share_pct
                }) <= MAX_SHARE_DELTA_PCT,
                None => true,
            };
            if !delta_ok {
                return Err(ContractError::InvalidRoyalties);
            }
            if r.share_pct > MAX_ROYALTY_SHARE_PCT {
                return Err(ContractError::InvalidRoyalties);
            }
        },
        None => {},
    }
    Ok(())
}

/// Builds the merged extension of `merged_extension`, as an owned value.
pub fn merge_extension_exec(
    cur: &Option<CollectionExtension>,
    m: &CollectionExtensionMsg,
) -> (r: Option<CollectionExtension>)
    ensures
        r.deep_view() == merged_extension(cur.deep_view(), m.deep_view()),
{
    let msg_empty = m.description.is_none() && m.image.is_none() && m.explicit_content.is_none()
        && m.external_link.is_none() && m.start_trading_time.is_none()
        && m.royalty_info.is_none();
    if cur.is_none() && msg_empty {
        return None;
    }
    let base = match cur {
        Some(c) => c.clone(),
        None => CollectionExtension {
            description: String::new(),
            image: String::new(),
            explicit_content: None,
            external_link: None,
            start_trading_time: None,
            royalty_info: None,
        },
    };
    Some(
        CollectionExtension {
            description: match &m.description {
                Some(d) => d.clone(),
                None => base.description,
            },
            image: match &m.image {
                Some(v) => v.clone(),
                None => base.image,
            },
            explicit_content: match m.explicit_content {
                Some(v) => Some(v),
                None => base.explicit_content,
            },
            external_link: match &m.external_link {
                Some(v) => Some(v.clone()),
                None => base.external_link,
            },
            start_trading_time: match m.start_trading_time {
                Some(v) => Some(v),
                None => base.start_trading_time,
            },
            royalty_info: match &m.royalty_info {
                Some(v) => Some(v.clone()),
                None => base.royalty_info,
            },
        },
    )
}

/// Applies a metadata update at time `now`, validating the merged extension.
/// On a fault the current metadata is handed back unchanged inside the error
/// path of the caller; this function only computes.
pub fn compute_metadata_update(
    cur: &CollectionMetadata,
    m: &CollectionMetadataMsg,
    now: u64,
) -> (r: Result<CollectionMetadata, ContractError>)
    ensures
        match r {
            Ok(v) => metadata_update_error(cur.deep_view(), m.deep_view()) is None
                && v.deep_view() == apply_metadata_update(cur.deep_view(), m.deep_view(), now),
            Err(e) => metadata_update_error(cur.deep_view(), m.deep_view()) == Some(e),
        },
{
    let merged = merge_extension_exec(&cur.extension, &m.extension);
    match &merged {
        Some(next) => {
            let prev = match &cur.extension {
                Some(c) => match &c.royalty_info {
                    Some(r) => Some(r.share_pct),
                    None => None,
                },
                None => None,
            };
            match validate_extension_exec(next, prev) {
                Ok(()) => {},
                Err(e) => {
                    return Err(e);
                },
            }
        },
        None => {},
    }
    Ok(
        CollectionMetadata {
            name: match &m.name {
                Some(n) => n.clone(),
                None => cur.name.clone(),
            },
            symbol: match &m.symbol {
                Some(s) => s.clone(),
                None => cur.symbol.clone(),
            },
            extension: merged,
            updated_at: now,
        },
    )
}

} // verus!
