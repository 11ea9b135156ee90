//! Ownership roles: minter and creator.
//!
//! Each role is a single-holder authority with a two-step transfer: the
//! current holder proposes a candidate with an optional expiration, and the
//! candidate accepts before it expires. Rejection or expiry cancels the
//! proposal; the holder may also renounce the role outright. At most one
//! proposal is pending at a time, by construction.

use vstd::prelude::*;
use crate::error::ContractError;
use crate::order::{str_cmp, KeyOrder};
use crate::tokens::not_expired;

verus! {

/// A pending transfer proposal: who may accept, and until when.
#[derive(Debug, PartialEq)]
pub struct PendingTransfer {
    pub candidate: String,
    pub expires: Option<u64>,
}

/// Spec-level shape of a pending transfer.
pub ghost struct PendingTransferView {
    pub candidate: Seq<char>,
    pub expires: Option<u64>,
}

impl DeepView for PendingTransfer {
    type V = PendingTransferView;

    open spec fn deep_view(&self) -> PendingTransferView {
        PendingTransferView { candidate: self.candidate@, expires: self.expires }
    }
}

impl Clone for PendingTransfer {
    fn clone(&self) -> (r: Self)
        ensures
            r.deep_view() == self.deep_view(),
    {
        PendingTransfer { candidate: self.candidate.clone(), expires: self.expires }
    }
}

/// One ownership role: its holder (absent once renounced) and at most one
/// pending transfer proposal.
#[derive(Debug, PartialEq)]
pub struct OwnershipRole {
    pub holder: Option<String>,
    pub pending: Option<PendingTransfer>,
}

/// Spec-level shape of an ownership role.
pub ghost struct OwnershipRoleView {
    pub holder: Option<Seq<char>>,
    pub pending: Option<PendingTransferView>,
}

impl DeepView for OwnershipRole {
    type V = OwnershipRoleView;

    open spec fn deep_view(&self) -> OwnershipRoleView {
        OwnershipRoleView { holder: self.holder.deep_view(), pending: self.pending.deep_view() }
    }
}

impl Clone for OwnershipRole {
    fn clone(&self) -> (r: Self)
        ensures
            r.deep_view() == self.deep_view(),
    {
        OwnershipRole {
            holder: crate::tokens::clone_opt_string(&self.holder),
            pending: match &self.pending {
                Some(p) => Some(p.clone()),
                None => None,
            },
        }
    }
}

/// The role held by `holder` with no pending proposal.
pub fn role_of(holder: &str) -> (r: OwnershipRole)
    ensures
        r.deep_view() == (OwnershipRoleView { holder: Some(holder@), pending: None }),
{
    OwnershipRole { holder: Some(holder.to_owned()), pending: None }
}

/// One step of the two-step role transfer.
#[derive(Debug, PartialEq)]
pub enum RoleAction {
    /// The holder proposes a candidate, with an optional expiration.
    Propose { candidate: String, expires: Option<u64> },
    /// The candidate takes the role, before the proposal expires.
    Accept,
    /// The candidate or the holder cancels the pending proposal.
    Reject,
    /// The holder gives the role up; nobody holds it afterwards.
    Renounce,
}

/// Spec-level shape of a role action.
pub ghost enum RoleActionView {
    Propose { candidate: Seq<char>, expires: Option<u64> },
    Accept,
    Reject,
    Renounce,
}

impl DeepView for RoleAction {
    type V = RoleActionView;

    open spec fn deep_view(&self) -> RoleActionView {
        match self {
            RoleAction::Propose { candidate, expires } => RoleActionView::Propose {
                candidate: candidate@,
                expires: *expires,
            },
            RoleAction::Accept => RoleActionView::Accept,
            RoleAction::Reject => RoleActionView::Reject,
            RoleAction::Renounce => RoleActionView::Renounce,
        }
    }
}

/// What a role action does, or why it is refused: only the holder proposes or
/// renounces; only the named candidate accepts, and only before expiry;
/// candidate or holder may reject; a proposal must be pending to be accepted
/// or rejected, and a fresh proposal may not be expired already.
pub open spec fn spec_role_update(
    role: OwnershipRoleView,
    action: RoleActionView,
    caller: Seq<char>,
    now: u64,
) -> Result<OwnershipRoleView, ContractError> {
    match action {
        RoleActionView::Propose { candidate, expires } => {
            if role.holder != Some(caller) {
                Err(ContractError::Unauthorized)
            } else if !not_expired(expires, now) {
                Err(ContractError::ApprovalExpiredOrAbsent)
            } else {
                Ok(
                    OwnershipRoleView {
                        holder: role.holder,
                        pending: Some(PendingTransferView { candidate, expires }),
                    },
                )
            }
        },
        RoleActionView::Accept => match role.pending {
            Option::None => Err(ContractError::ApprovalExpiredOrAbsent),
            Option::Some(p) => {
                if p.candidate != caller {
                    Err(ContractError::Unauthorized)
                } else if !not_expired(p.expires, now) {
                    Err(ContractError::ApprovalExpiredOrAbsent)
                } else {
                    Ok(OwnershipRoleView { holder: Some(caller), pending: None })
                }
            },
        },
        RoleActionView::Reject => match role.pending {
            Option::None => Err(ContractError::ApprovalExpiredOrAbsent),
            Option::Some(p) => {
                if p.candidate == caller || role.holder == Some(caller) {
                    Ok(OwnershipRoleView { holder: role.holder, pending: None })
                } else {
                    Err(ContractError::Unauthorized)
                }
            },
        },
        RoleActionView::Renounce => {
            if role.holder != Some(caller) {
                Err(ContractError::Unauthorized)
            } else {
                Ok(OwnershipRoleView { holder: None, pending: None })
            }
        },
    }
}

/// Whether the optional name is exactly `caller`.
pub fn is_named(holder: &Option<String>, caller: &str) -> (r: bool)
    ensures
        r == (holder.deep_view() == Some(caller@)),
{
    match holder {
        Some(h) => matches!(str_cmp(h.as_str(), caller), KeyOrder::Eq),
        None => false,
    }
}

/// Applies one step of the role transfer on behalf of `caller` at time `now`.
pub fn role_update(role: &OwnershipRole, action: &RoleAction, caller: &str, now: u64) -> (r: Result<
    OwnershipRole,
    ContractError,
>)
    ensures
        match r {
            Ok(v) => spec_role_update(role.deep_view(), action.deep_view(), caller@, now) == Ok::<
                OwnershipRoleView,
                ContractError,
            >(v.deep_view()),
            Err(e) => spec_role_update(role.deep_view(), action.deep_view(), caller@, now) == Err::<
                OwnershipRoleView,
                ContractError,
            >(e),
        },
{
    match action {
        RoleAction::Propose { candidate, expires } => {
            if !is_named(&role.holder, caller) {
                Err(ContractError::Unauthorized)
            } else {
                let live = match expires {
                    Some(e) => *e > now,
                    None => true,
                };
                if !live {
                    Err(ContractError::ApprovalExpiredOrAbsent)
                } else {
                    Ok(
                        OwnershipRole {
                            holder: crate::tokens::clone_opt_string(&role.holder),
                            pending: Some(
                                PendingTransfer { candidate: candidate.clone(), expires: *expires },
                            ),
                        },
                    )
                }
            }
        },
        RoleAction::Accept => match &role.pending {
            None => Err(ContractError::ApprovalExpiredOrAbsent),
            Some(p) => {
                if !matches!(str_cmp(p.candidate.as_str(), caller), KeyOrder::Eq) {
                    Err(ContractError::Unauthorized)
                } else {
                    let live = match p.expires {
                        Some(e) => e > now,
                        None => true,
                    };
                    if !live {
                        Err(ContractError::ApprovalExpiredOrAbsent)
                    } else {
                        Ok(OwnershipRole { holder: Some(caller.to_owned()), pending: None })
                    }
                }
            },
        },
        RoleAction::Reject => match &role.pending {
            None => Err(ContractError::ApprovalExpiredOrAbsent),
            Some(p) => {
                if matches!(str_cmp(p.candidate.as_str(), caller), KeyOrder::Eq) || is_named(
                    &role.holder,
                    caller,
                ) {
                    Ok(
                        OwnershipRole {
                            holder: crate::tokens::clone_opt_string(&role.holder),
                            pending: None,
                        },
                    )
                } else {
                    Err(ContractError::Unauthorized)
                }
            },
        },
        RoleAction::Renounce => {
            if !is_named(&role.holder, caller) {
                Err(ContractError::Unauthorized)
            } else {
                Ok(OwnershipRole { holder: None, pending: None })
            }
        },
    }
}

} // verus!
