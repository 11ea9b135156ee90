//! The registry's state: every store as one explicit value.
//!
//! All operations take the state as an argument, so the core runs and is
//! tested without any host. The state holds the token store, the operator
//! grants, the two ownership roles, the collection metadata, the version
//! record, and the immutable legacy sidecar kept after migration.

use vstd::prelude::*;
use crate::assoc::{AssocVec, assoc_sorted, assoc_get};
use crate::error::ContractError;
use crate::metadata::{
    CollectionExtension, CollectionMetadata, CollectionMetadataView, validate_extension,
    validate_extension_exec,
};
use crate::roles::{OwnershipRole, OwnershipRoleView, role_of};
use crate::tokens::{TokenRecord, TokenRecordView, token_wf, clone_opt_string};

verus! {

/// The version record: contract identifier and semantic version string,
/// written at instantiation and migration.
#[derive(Debug, PartialEq)]
pub struct VersionRecord {
    pub contract: String,
    pub version: String,
}

/// Spec-level shape of the version record.
pub ghost struct VersionRecordView {
    pub contract: Seq<char>,
    pub version: Seq<char>,
}

impl DeepView for VersionRecord {
    type V = VersionRecordView;

    open spec fn deep_view(&self) -> VersionRecordView {
        VersionRecordView { contract: self.contract@, version: self.version@ }
    }
}

impl Clone for VersionRecord {
    fn clone(&self) -> (r: Self)
        ensures
            r.deep_view() == self.deep_view(),
    {
        VersionRecord { contract: self.contract.clone(), version: self.version.clone() }
    }
}

/// The flat collection record of the legacy layout.
#[derive(Debug, PartialEq)]
pub struct LegacyCollection {
    pub name: String,
    pub symbol: String,
}

/// Spec-level shape of the legacy collection record.
pub ghost struct LegacyCollectionView {
    pub name: Seq<char>,
    pub symbol: Seq<char>,
}

impl DeepView for LegacyCollection {
    type V = LegacyCollectionView;

    open spec fn deep_view(&self) -> LegacyCollectionView {
        LegacyCollectionView { name: self.name@, symbol: self.symbol@ }
    }
}

impl Clone for LegacyCollection {
    fn clone(&self) -> (r: Self)
        ensures
            r.deep_view() == self.deep_view(),
    {
        LegacyCollection { name: self.name.clone(), symbol: self.symbol.clone() }
    }
}

/// The whole contract state.
#[derive(Debug)]
pub struct ContractState {
    /// Token records, keyed by token identifier, in lexicographic order.
    pub tokens: AssocVec<TokenRecord>,
    /// Operator grants: for each owner, the operators allowed to act on all
    /// of the owner's tokens, each with an optional expiration.
    pub operators: AssocVec<AssocVec<ExpiryValue>>,
    /// The minter role; absent in the legacy layout.
    pub minter: Option<OwnershipRole>,
    /// The creator role; absent in the legacy layout.
    pub creator: Option<OwnershipRole>,
    /// The collection metadata; absent in the legacy layout.
    pub collection: Option<CollectionMetadata>,
    /// The version record.
    pub version: VersionRecord,
    /// Legacy sidecar: the flat minter address, kept unchanged by migration.
    pub legacy_minter: Option<String>,
    /// Legacy sidecar: the flat collection record, kept unchanged by migration.
    pub legacy_collection: Option<LegacyCollection>,
    /// Where withdrawn funds go, if set.
    pub withdraw_address: Option<String>,
}

/// An operator grant's expiration; `None` never expires.
#[derive(Debug, PartialEq)]
pub struct ExpiryValue {
    pub expires: Option<u64>,
}

impl DeepView for ExpiryValue {
    type V = Option<u64>;

    open spec fn deep_view(&self) -> Option<u64> {
        self.expires
    }
}

impl Clone for ExpiryValue {
    fn clone(&self) -> (r: Self)
        ensures
            r.deep_view() == self.deep_view(),
    {
        ExpiryValue { expires: self.expires }
    }
}

/// Spec-level shape of the whole state.
pub ghost struct StateView {
    pub tokens: Seq<(Seq<char>, TokenRecordView)>,
    pub operators: Seq<(Seq<char>, Seq<(Seq<char>, Option<u64>)>)>,
    pub minter: Option<OwnershipRoleView>,
    pub creator: Option<OwnershipRoleView>,
    pub collection: Option<CollectionMetadataView>,
    pub version: VersionRecordView,
    pub legacy_minter: Option<Seq<char>>,
    pub legacy_collection: Option<LegacyCollectionView>,
    pub withdraw_address: Option<Seq<char>>,
}

impl View for ContractState {
    type V = StateView;

    open spec fn view(&self) -> StateView {
        StateView {
            tokens: self.tokens@,
            operators: self.operators@,
            minter: self.minter.deep_view(),
            creator: self.creator.deep_view(),
            collection: self.collection.deep_view(),
            version: self.version.deep_view(),
            legacy_minter: self.legacy_minter.deep_view(),
            legacy_collection: self.legacy_collection.deep_view(),
            withdraw_address: self.withdraw_address.deep_view(),
        }
    }
}

/// A looked-up token, if present, has well-formed approvals.
pub open spec fn token_value_wf(o: Option<TokenRecordView>) -> bool {
    match o {
        Option::Some(t) => token_wf(t),
        Option::None => true,
    }
}

/// A looked-up operator map, if present, is sorted.
pub open spec fn operator_value_wf(o: Option<Seq<(Seq<char>, Option<u64>)>>) -> bool {
    match o {
        Option::Some(m) => assoc_sorted(m),
        Option::None => true,
    }
}

/// Well-formedness of a state: both stores sorted by key, each inner operator
/// map sorted, and every token's approvals one-per-spender.
pub open spec fn state_wf(s: StateView) -> bool {
    &&& assoc_sorted(s.tokens)
    &&& forall|k: Seq<char>| token_value_wf(#[trigger] assoc_get(s.tokens, k))
    &&& assoc_sorted(s.operators)
    &&& forall|k: Seq<char>| operator_value_wf(#[trigger] assoc_get(s.operators, k))
}

/// What `instantiate` is asked to set up.
pub struct Cw721InstantiateMsg {
    /// Name of the collection metadata.
    pub name: String,
    /// Symbol of the collection metadata.
    pub symbol: String,
    /// Optional extension of the collection metadata.
    pub collection_extension: Option<CollectionExtension>,
    /// The only account allowed to mint; the caller when unset.
    pub minter: Option<String>,
    /// The only account allowed to update the collection metadata; the
    /// caller when unset.
    pub creator: Option<String>,
    /// Where withdrawn funds go, if set.
    pub withdraw_address: Option<String>,
}

/// Spec-level shape of the instantiation message.
pub ghost struct Cw721InstantiateMsgView {
    pub name: Seq<char>,
    pub symbol: Seq<char>,
    pub collection_extension: Option<crate::metadata::CollectionExtensionView>,
    pub minter: Option<Seq<char>>,
    pub creator: Option<Seq<char>>,
    pub withdraw_address: Option<Seq<char>>,
}

impl DeepView for Cw721InstantiateMsg {
    type V = Cw721InstantiateMsgView;

    open spec fn deep_view(&self) -> Cw721InstantiateMsgView {
        Cw721InstantiateMsgView {
            name: self.name@,
            symbol: self.symbol@,
            collection_extension: self.collection_extension.deep_view(),
            minter: self.minter.deep_view(),
            creator: self.creator.deep_view(),
            withdraw_address: self.withdraw_address.deep_view(),
        }
    }
}

/// The name an optional override resolves to: the override, or the caller.
pub open spec fn or_caller(named: Option<Seq<char>>, caller: Seq<char>) -> Seq<char> {
    match named {
        Option::Some(n) => n,
        Option::None => caller,
    }
}

/// What instantiation builds, or why it is refused: the collection extension
/// must validate (with no previous royalty share); the minter and creator
/// roles resolve to the named accounts, each defaulting to the caller; the
/// stores start empty and no legacy sidecar exists.
pub open spec fn spec_instantiate(
    msg: Cw721InstantiateMsgView,
    caller: Seq<char>,
    now: u64,
    contract_name: Seq<char>,
    contract_version: Seq<char>,
) -> Result<StateView, ContractError> {
    let ext_fault = match msg.collection_extension {
        Option::Some(e) => validate_extension(e, None),
        Option::None => None,
    };
    match ext_fault {
        Option::Some(e) => Err(e),
        Option::None => Ok(
            StateView {
                tokens: Seq::empty(),
                operators: Seq::empty(),
                minter: Some(
                    OwnershipRoleView { holder: Some(or_caller(msg.minter, caller)), pending: None },
                ),
                creator: Some(
                    OwnershipRoleView {
                        holder: Some(or_caller(msg.creator, caller)),
                        pending: None,
                    },
                ),
                collection: Some(
                    CollectionMetadataView {
                        name: msg.name,
                        symbol: msg.symbol,
                        extension: msg.collection_extension,
                        updated_at: now,
                    },
                ),
                version: VersionRecordView { contract: contract_name, version: contract_version },
                legacy_minter: None,
                legacy_collection: None,
                withdraw_address: msg.withdraw_address,
            },
        ),
    }
}

/// Sets a fresh contract instance up on behalf of `caller` at time `now`,
/// writing the given contract name and version into the version record.
pub fn instantiate(
    msg: Cw721InstantiateMsg,
    caller: &str,
    now: u64,
    contract_name: &str,
    contract_version: &str,
) -> (r: Result<ContractState, ContractError>)
    ensures
        match r {
            Ok(st) => spec_instantiate(msg.deep_view(), caller@, now, contract_name@,
            contract_version@) == Ok::<StateView, ContractError>(st@) && state_wf(st@),
            Err(e) => spec_instantiate(msg.deep_view(), caller@, now, contract_name@,
            contract_version@) == Err::<StateView, ContractError>(e),
        },
{
    match &msg.collection_extension {
        Some(e) => {
            match validate_extension_exec(e, None) {
                Ok(()) => {},
                Err(err) => {
                    return Err(err);
                },
            }
        },
        None => {},
    }
    let minter_holder = match &msg.minter {
        Some(m) => m.as_str(),
        None => caller,
    };
    let creator_holder = match &msg.creator {
        Some(c) => c.as_str(),
        None => caller,
    };
    let st = ContractState {
        tokens: AssocVec::new(),
        operators: AssocVec::new(),
        minter: Some(role_of(minter_holder)),
        creator: Some(role_of(creator_holder)),
        collection: Some(
            CollectionMetadata {
                name: msg.name,
                symbol: msg.symbol,
                extension: msg.collection_extension,
                updated_at: now,
            },
        ),
        version: VersionRecord {
            contract: contract_name.to_owned(),
            version: contract_version.to_owned(),
        },
        legacy_minter: None,
        legacy_collection: None,
        withdraw_address: msg.withdraw_address,
    };
    proof {
        assert(st@.tokens =~= Seq::<(Seq<char>, TokenRecordView)>::empty());
        assert(st@.operators =~= Seq::<(Seq<char>, Seq<(Seq<char>, Option<u64>)>)>::empty());
    }
    Ok(st)
}

/// Sets a legacy-layout instance up: the flat minter address and flat
/// collection record stand alone, no role or metadata record exists yet, and
/// the version record carries the given legacy version.
pub fn instantiate_legacy(
    name: &str,
    symbol: &str,
    minter: &str,
    contract_name: &str,
    contract_version: &str,
) -> (st: ContractState)
    ensures
        st@ == (StateView {
            tokens: Seq::<(Seq<char>, TokenRecordView)>::empty(),
            operators: Seq::<(Seq<char>, Seq<(Seq<char>, Option<u64>)>)>::empty(),
            minter: None,
            creator: None,
            collection: None,
            version: VersionRecordView { contract: contract_name@, version: contract_version@ },
            legacy_minter: Some(minter@),
            legacy_collection: Some(LegacyCollectionView { name: name@, symbol: symbol@ }),
            withdraw_address: None,
        }),
        state_wf(st@),
{
    let st = ContractState {
        tokens: AssocVec::new(),
        operators: AssocVec::new(),
        minter: None,
        creator: None,
        collection: None,
        version: VersionRecord {
            contract: contract_name.to_owned(),
            version: contract_version.to_owned(),
        },
        legacy_minter: Some(minter.to_owned()),
        legacy_collection: Some(
            LegacyCollection { name: name.to_owned(), symbol: symbol.to_owned() },
        ),
        withdraw_address: None,
    };
    proof {
        assert(st@.tokens =~= Seq::<(Seq<char>, TokenRecordView)>::empty());
        assert(st@.operators =~= Seq::<(Seq<char>, Seq<(Seq<char>, Option<u64>)>)>::empty());
    }
    st
}

/// Copies an optional role.
pub fn clone_opt_role(o: &Option<OwnershipRole>) -> (r: Option<OwnershipRole>)
    ensures
        r.deep_view() == o.deep_view(),
{
    match o {
        Some(v) => Some(v.clone()),
        None => None,
    }
}

/// Reads the minter role, as stored.
pub fn minter_ownership(st: &ContractState) -> (r: Option<&OwnershipRole>)
    ensures
        match r {
            Some(role) => st@.minter == Some(role.deep_view()),
            None => st@.minter is None,
        },
{
    st.minter.as_ref()
}

/// Reads the creator role, as stored.
pub fn creator_ownership(st: &ContractState) -> (r: Option<&OwnershipRole>)
    ensures
        match r {
            Some(role) => st@.creator == Some(role.deep_view()),
            None => st@.creator is None,
        },
{
    st.creator.as_ref()
}

/// Reads the withdraw address, as stored.
pub fn withdraw_address_of(st: &ContractState) -> (r: Option<String>)
    ensures
        r.deep_view() == st@.withdraw_address,
{
    clone_opt_string(&st.withdraw_address)
}

} // verus!
