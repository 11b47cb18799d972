//! The registry: one owner account and two independent membership sets,
//! with every mutation guarded by the authorization rule — the caller of the
//! current invocation must equal the owner exactly.

use vstd::prelude::*;
use crate::account::is_valid_account_id;
use crate::account::valid_account_id;
use crate::members::add_all;
use crate::members::added_ids;
use crate::members::batch_add;
use crate::members::batch_remove;
use crate::members::clone_members;
use crate::members::contains_account;
use crate::members::id_set;
use crate::members::id_views;
use crate::members::remove_all;
use crate::members::removed_ids;
use crate::members::wf_members;

verus! {

/// Why a call was rejected; every failure leaves the registry unchanged.
#[derive(Clone, Copy, Debug, PartialEq, Eq, Structural)]
pub enum WhitelistError {
    /// The registry already exists, so it cannot be initialized again.
    AlreadyInitialized,
    /// An argument is not a syntactically valid account identifier.
    InvalidIdentifier,
    /// The caller of the current invocation is not the owner.
    Unauthorized,
}

/// The registry: the owner account ID and the two membership sets.
#[derive(Debug)]
pub struct WhitelistIdoContract {
    /// The owner account ID: the one account allowed to mutate the registry.
    pub owner_account_id: String,

    /// The whitelisted account IDs, admitted to the gated activity.
    pub whitelist: Vec<String>,

    /// The account IDs pre-approved to request admission.
    pub registration_whitelist: Vec<String>,
}

impl WhitelistIdoContract {
    /// Well-formedness: the owner is a valid identifier, and each membership
    /// vector holds distinct valid identifiers. Established by `new` and
    /// preserved by every operation.
    pub open spec fn wf(self) -> bool {
        &&& valid_account_id(self.owner_account_id@)
        &&& wf_members(self.whitelist@)
        &&& wf_members(self.registration_whitelist@)
    }

    /// Whether `account_id` is the current owner.
    pub open spec fn spec_is_owner(self, account_id: Seq<char>) -> bool {
        self.owner_account_id@ == account_id
    }

    /// The whitelist as a set of identifiers.
    pub open spec fn whitelist_set(self) -> Set<Seq<char>> {
        id_set(self.whitelist@)
    }

    /// The registration whitelist as a set of identifiers.
    pub open spec fn registration_whitelist_set(self) -> Set<Seq<char>> {
        id_set(self.registration_whitelist@)
    }

    /// The authorization rule: the caller of the current invocation is
    /// authorized exactly when it equals the owner account ID, character for
    /// character.
    fn called_by_owner(&self, caller: &String) -> (r: bool)
        ensures
            r == self.spec_is_owner(caller@),
    {
        self.owner_account_id == *caller
    }

    /// Initializes the registry with the given owner account ID and two
    /// empty sets. `state_exists` is the host's report of whether a registry
    /// already exists; initialization is rejected when it does, and when the
    /// owner identifier is invalid.
    pub fn new(owner_account_id: String, state_exists: bool) -> (r: Result<WhitelistIdoContract, WhitelistError>)
        ensures
            state_exists ==> r == Err::<WhitelistIdoContract, WhitelistError>(WhitelistError::AlreadyInitialized),
            !state_exists && !valid_account_id(owner_account_id@) ==> r == Err::<WhitelistIdoContract, WhitelistError>(WhitelistError::InvalidIdentifier),
            !state_exists && valid_account_id(owner_account_id@) ==> ({
                &&& r is Ok
                &&& r->Ok_0.wf()
                &&& r->Ok_0.owner_account_id@ == owner_account_id@
                &&& r->Ok_0.whitelist@.len() == 0
                &&& r->Ok_0.registration_whitelist@.len() == 0
            }),
    {
        if state_exists {
            return Err(WhitelistError::AlreadyInitialized);
        }
        if !is_valid_account_id(&owner_account_id) {
            return Err(WhitelistError::InvalidIdentifier);
        }
        Ok(WhitelistIdoContract {
            owner_account_id,
            whitelist: Vec::new(),
            registration_whitelist: Vec::new(),
        })
    }

    /// Replaces the owner with `new_owner_account_id`. Only the current
    /// owner may call this; the new owner need not differ from the old one.
    pub fn tranfer_owner(&mut self, caller: String, new_owner_account_id: String) -> (r: Result<bool, WhitelistError>)
        requires
            old(self).wf(),
        ensures
            final(self).wf(),
            !old(self).spec_is_owner(caller@) ==> ({
                &&& r == Err::<bool, WhitelistError>(WhitelistError::Unauthorized)
                &&& *final(self) == *old(self)
            }),
            old(self).spec_is_owner(caller@) && !valid_account_id(new_owner_account_id@) ==> ({
                &&& r == Err::<bool, WhitelistError>(WhitelistError::InvalidIdentifier)
                &&& *final(self) == *old(self)
            }),
            old(self).spec_is_owner(caller@) && valid_account_id(new_owner_account_id@) ==> ({
                &&& r == Ok::<bool, WhitelistError>(true)
                &&& final(self).owner_account_id@ == new_owner_account_id@
                &&& final(self).whitelist == old(self).whitelist
                &&& final(self).registration_whitelist == old(self).registration_whitelist
            }),
    {
        if !self.called_by_owner(&caller) {
            return Err(WhitelistError::Unauthorized);
        }
        if !is_valid_account_id(&new_owner_account_id) {
            return Err(WhitelistError::InvalidIdentifier);
        }
        self.owner_account_id = new_owner_account_id;
        Ok(true)
    }

    /// Whether `account_id` is the current owner; no authorization needed.
    pub fn is_owner(&self, account_id: String) -> (r: bool)
        ensures
            r == self.spec_is_owner(account_id@),
    {
        self.owner_account_id == account_id
    }

    /// Returns a snapshot of the registration whitelist's members.
    pub fn get_list_registration_whitelist(&self) -> (r: Vec<String>)
        ensures
            r@ == self.registration_whitelist@,
            id_set(r@) == self.registration_whitelist_set(),
    {
        clone_members(&self.registration_whitelist)
    }

    /// Returns a snapshot of the whitelist's members.
    pub fn get_list_whitelisted(&self) -> (r: Vec<String>)
        ensures
            r@ == self.whitelist@,
            id_set(r@) == self.whitelist_set(),
    {
        clone_members(&self.whitelist)
    }

    /// Whether `registration_account_id` is on the registration whitelist;
    /// rejects an invalid identifier.
    pub fn is_registration_whitelisted(&self, registration_account_id: String) -> (r: Result<bool, WhitelistError>)
        ensures
            !valid_account_id(registration_account_id@) ==> r == Err::<bool, WhitelistError>(WhitelistError::InvalidIdentifier),
            valid_account_id(registration_account_id@) ==> r == Ok::<bool, WhitelistError>(self.registration_whitelist_set().contains(registration_account_id@)),
    {
        if !is_valid_account_id(&registration_account_id) {
            return Err(WhitelistError::InvalidIdentifier);
        }
        Ok(contains_account(&self.registration_whitelist, &registration_account_id))
    }

    /// Whether `account_id` is on the whitelist; rejects an invalid
    /// identifier.
    pub fn is_whitelisted(&self, account_id: String) -> (r: Result<bool, WhitelistError>)
        ensures
            !valid_account_id(account_id@) ==> r == Err::<bool, WhitelistError>(WhitelistError::InvalidIdentifier),
            valid_account_id(account_id@) ==> r == Ok::<bool, WhitelistError>(self.whitelist_set().contains(account_id@)),
    {
        if !is_valid_account_id(&account_id) {
            return Err(WhitelistError::InvalidIdentifier);
        }
        Ok(contains_account(&self.whitelist, &account_id))
    }

    /// Adds the given account IDs to the registration whitelist and returns
    /// those actually added. Only the current owner may call this; on
    /// `Unauthorized` no element is processed.
    pub fn add_registration_whitelist(&mut self, caller: String, account_ids: Vec<String>) -> (r: Result<Vec<String>, WhitelistError>)
        requires
            old(self).wf(),
        ensures
            final(self).wf(),
            !old(self).spec_is_owner(caller@) ==> ({
                &&& r == Err::<Vec<String>, WhitelistError>(WhitelistError::Unauthorized)
                &&& *final(self) == *old(self)
            }),
            old(self).spec_is_owner(caller@) ==> ({
                &&& r is Ok
                &&& final(self).registration_whitelist_set() == add_all(old(self).registration_whitelist_set(), id_views(account_ids@))
                &&& id_views(r->Ok_0@) == added_ids(old(self).registration_whitelist_set(), id_views(account_ids@))
                &&& final(self).whitelist == old(self).whitelist
                &&& final(self).owner_account_id == old(self).owner_account_id
            }),
    {
        if !self.called_by_owner(&caller) {
            return Err(WhitelistError::Unauthorized);
        }
        Ok(batch_add(&mut self.registration_whitelist, &account_ids))
    }

    /// Removes the given account IDs from the registration whitelist and
    /// returns those actually removed. Only the current owner may call this;
    /// on `Unauthorized` no element is processed.
    pub fn remove_registration_whitelist(&mut self, caller: String, account_ids: Vec<String>) -> (r: Result<Vec<String>, WhitelistError>)
        requires
            old(self).wf(),
        ensures
            final(self).wf(),
            !old(self).spec_is_owner(caller@) ==> ({
                &&& r == Err::<Vec<String>, WhitelistError>(WhitelistError::Unauthorized)
                &&& *final(self) == *old(self)
            }),
            old(self).spec_is_owner(caller@) ==> ({
                &&& r is Ok
                &&& final(self).registration_whitelist_set() == remove_all(old(self).registration_whitelist_set(), id_views(account_ids@))
                &&& id_views(r->Ok_0@) == removed_ids(old(self).registration_whitelist_set(), id_views(account_ids@))
                &&& final(self).whitelist == old(self).whitelist
                &&& final(self).owner_account_id == old(self).owner_account_id
            }),
    {
        if !self.called_by_owner(&caller) {
            return Err(WhitelistError::Unauthorized);
        }
        Ok(batch_remove(&mut self.registration_whitelist, &account_ids))
    }

    /// Adds the given account IDs to the whitelist and returns those
    /// actually added. Only the current owner may call this; on
    /// `Unauthorized` no element is processed.
    pub fn add_whitelist(&mut self, caller: String, account_ids: Vec<String>) -> (r: Result<Vec<String>, WhitelistError>)
        requires
            old(self).wf(),
        ensures
            final(self).wf(),
            !old(self).spec_is_owner(caller@) ==> ({
                &&& r == Err::<Vec<String>, WhitelistError>(WhitelistError::Unauthorized)
                &&& *final(self) == *old(self)
            }),
            old(self).spec_is_owner(caller@) ==> ({
                &&& r is Ok
                &&& final(self).whitelist_set() == add_all(old(self).whitelist_set(), id_views(account_ids@))
                &&& id_views(r->Ok_0@) == added_ids(old(self).whitelist_set(), id_views(account_ids@))
                &&& final(self).registration_whitelist == old(self).registration_whitelist
                &&& final(self).owner_account_id == old(self).owner_account_id
            }),
    {
        if !self.called_by_owner(&caller) {
            return Err(WhitelistError::Unauthorized);
        }
        Ok(batch_add(&mut self.whitelist, &account_ids))
    }

    /// Removes the given account IDs from the whitelist and returns those
    /// actually removed. Only the current owner may call this; on
    /// `Unauthorized` no element is processed.
    pub fn remove_whitelist(&mut self, caller: String, account_ids: Vec<String>) -> (r: Result<Vec<String>, WhitelistError>)
        requires
            old(self).wf(),
        ensures
            final(self).wf(),
            !old(self).spec_is_owner(caller@) ==> ({
                &&& r == Err::<Vec<String>, WhitelistError>(WhitelistError::Unauthorized)
                &&& *final(self) == *old(self)
            }),
            old(self).spec_is_owner(caller@) ==> ({
                &&& r is Ok
                &&& final(self).whitelist_set() == remove_all(old(self).whitelist_set(), id_views(account_ids@))
                &&& id_views(r->Ok_0@) == removed_ids(old(self).whitelist_set(), id_views(account_ids@))
                &&& final(self).registration_whitelist == old(self).registration_whitelist
                &&& final(self).owner_account_id == old(self).owner_account_id
            }),
    {
        if !self.called_by_owner(&caller) {
            return Err(WhitelistError::Unauthorized);
        }
        Ok(batch_remove(&mut self.whitelist, &account_ids))
    }
}

} // verus!
