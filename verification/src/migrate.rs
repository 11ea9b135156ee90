//! The migration engine: version-gated, non-destructive upgrade of a legacy
//! layout into the current data model.
//!
//! Migration runs once per version bump. It refuses any target version that
//! is not strictly ahead of the stored one (or that does not parse, in which
//! case no upgrade path exists). It reads the legacy records without deleting
//! them: the minter and creator roles are initialized from the flat legacy
//! minter (the creator defaulting to the minter when not named), the
//! collection metadata from the flat legacy record with no extension, and
//! every token record stays untouched. The version record then carries the
//! target version; on failure nothing changes.

use vstd::prelude::*;
use crate::error::ContractError;
use crate::metadata::{CollectionMetadata, CollectionMetadataView};
use crate::roles::{OwnershipRole, OwnershipRoleView, role_of};
use crate::state::{
    ContractState, StateView, state_wf, VersionRecord, VersionRecordView,
};
use crate::tokens::clone_opt_string;
use crate::version::{parse_version, version_lt, spec_parse_version, spec_version_lt};

verus! {

/// Whether `target` is a known strict upgrade of `stored`: both parse as
/// semantic versions and `stored` is strictly behind `target`.
pub open spec fn spec_upgrade_path(stored: Seq<char>, target: Seq<char>) -> bool {
    match (spec_parse_version(stored), spec_parse_version(target)) {
        (Option::Some(a), Option::Some(b)) => spec_version_lt(a, b),
        _ => false,
    }
}

/// The minter role after migration: an override wins, an existing role is
/// kept, and otherwise the role is initialized from the flat legacy minter.
pub open spec fn spec_migrated_minter(s: StateView, minter_override: Option<Seq<char>>) -> OwnershipRoleView {
    match minter_override {
        Option::Some(m) => OwnershipRoleView { holder: Some(m), pending: None },
        Option::None => match s.minter {
            Option::Some(r) => r,
            Option::None => OwnershipRoleView { holder: s.legacy_minter, pending: None },
        },
    }
}

/// The creator role after migration: an override wins, an existing role is
/// kept, and otherwise the creator defaults to the migrated minter's holder.
pub open spec fn spec_migrated_creator(
    s: StateView,
    minter_override: Option<Seq<char>>,
    creator_override: Option<Seq<char>>,
) -> OwnershipRoleView {
    match creator_override {
        Option::Some(c) => OwnershipRoleView { holder: Some(c), pending: None },
        Option::None => match s.creator {
            Option::Some(r) => r,
            Option::None => OwnershipRoleView {
                holder: spec_migrated_minter(s, minter_override).holder,
                pending: None,
            },
        },
    }
}

/// The collection metadata after migration: an existing record is kept;
/// otherwise it is initialized from the flat legacy record, with no
/// extension, stamped at `now`.
pub open spec fn spec_migrated_collection(s: StateView, now: u64) -> Option<
    CollectionMetadataView,
> {
    match s.collection {
        Option::Some(c) => Some(c),
        Option::None => match s.legacy_collection {
            Option::Some(lc) => Some(
                CollectionMetadataView {
                    name: lc.name,
                    symbol: lc.symbol,
                    extension: None,
                    updated_at: now,
                },
            ),
            Option::None => None,
        },
    }
}

/// What migration does, or why it is refused: without a strict upgrade path
/// it fails with `VersionMismatch` and changes nothing. On success the roles
/// and metadata are initialized as above, the version record carries the
/// target, and the token store, the operator grants and the legacy sidecar
/// stay exactly as they were.
pub open spec fn spec_migrate(
    s: StateView,
    target_contract: Seq<char>,
    target_version: Seq<char>,
    minter_override: Option<Seq<char>>,
    creator_override: Option<Seq<char>>,
    now: u64,
) -> Result<StateView, ContractError> {
    if !spec_upgrade_path(s.version.version, target_version) {
        Err(ContractError::VersionMismatch)
    } else {
        Ok(
            StateView {
                minter: Some(spec_migrated_minter(s, minter_override)),
                creator: Some(spec_migrated_creator(s, minter_override, creator_override)),
                collection: spec_migrated_collection(s, now),
                version: VersionRecordView { contract: target_contract, version: target_version },
                ..s
            },
        )
    }
}

/// Migrates the state to `target_version`, initializing the current-format
/// records from the legacy sidecar without deleting it.
pub fn migrate(
    st: &mut ContractState,
    target_contract: &str,
    target_version: &str,
    minter_override: Option<String>,
    creator_override: Option<String>,
    now: u64,
) -> (r: Result<(), ContractError>)
    requires
        state_wf(old(st)@),
    ensures
        state_wf(final(st)@),
        match r {
            Ok(()) => spec_migrate(old(st)@, target_contract@, target_version@,
            minter_override.deep_view(), creator_override.deep_view(), now) == Ok::<
                StateView,
                ContractError,
            >(final(st)@),
            Err(e) => spec_migrate(old(st)@, target_contract@, target_version@,
            minter_override.deep_view(), creator_override.deep_view(), now) == Err::<
                StateView,
                ContractError,
            >(e) && final(st)@ == old(st)@,
        },
{
    let stored = parse_version(st.version.version.as_str());
    let target = parse_version(target_version);
    let path = match (&stored, &target) {
        (Some(a), Some(b)) => version_lt(a, b),
        _ => false,
    };
    if !path {
        return Err(ContractError::VersionMismatch);
    }
    let new_minter: OwnershipRole = match &minter_override {
        Some(m) => role_of(m.as_str()),
        None => match &st.minter {
            Some(r) => r.clone(),
            None => OwnershipRole { holder: clone_opt_string(&st.legacy_minter), pending: None },
        },
    };
    let new_creator: OwnershipRole = match &creator_override {
        Some(c) => role_of(c.as_str()),
        None => match &st.creator {
            Some(r) => r.clone(),
            None => OwnershipRole {
                holder: clone_opt_string(&new_minter.holder),
                pending: None,
            },
        },
    };
    let new_collection: Option<CollectionMetadata> = match &st.collection {
        Some(c) => Some(c.clone()),
        None => match &st.legacy_collection {
            Some(lc) => Some(
                CollectionMetadata {
                    name: lc.name.clone(),
                    symbol: lc.symbol.clone(),
                    extension: None,
                    updated_at: now,
                },
            ),
            None => None,
        },
    };
    st.minter = Some(new_minter);
    st.creator = Some(new_creator);
    st.collection = new_collection;
    st.version = VersionRecord {
        contract: target_contract.to_owned(),
        version: target_version.to_owned(),
    };
    Ok(())
}

} // verus!
