//! The handles that the steward's components share.

use crate::catalogue::{catalogue_cell, catalogues_of, load_catalogue, makes_way};
use crate::catalogue::{swap_catalogue, Catalogue, CatalogueCell};
use crate::claimant::SharedIssuer;
use std::sync::Arc;
use vstd::prelude::*;

verus! {

/// The types of the stores and services that a steward shares.
pub trait Stores {
    type Subjects;

    type Relations;

    type Custody;

    type Bus;

    type Admin;

    type Persistence;

    type ConflictIndex: Default;

    type BearerTokenIssuer;

    type CredentialStore;

    type RevocationList;

    type CredentialVault;

    type CredentialChangeBus: Default;

    type OnlineProviderConfigStore;

    type OnlineProviderConfigBus: Default;
}

/// The bag of shared handles. It is built once, through
/// [`StewardState::builder`], and then shared.
pub struct StewardState<T: Stores> {
    /// The catalogue in use, which a reload replaces while others read.
    pub catalogue: CatalogueCell,
    pub subjects: Arc<T::Subjects>,
    pub relations: Arc<T::Relations>,
    pub custody: Arc<T::Custody>,
    pub bus: Arc<T::Bus>,
    pub admin: Arc<T::Admin>,
    pub persistence: Arc<T::Persistence>,
    /// The one issuer of claimant tokens. Every surface that shows a token
    /// borrows it.
    pub claimant_issuer: Arc<SharedIssuer>,
    pub conflict_index: Arc<T::ConflictIndex>,
    /// Set after boot, once there is an HTTPS substrate.
    pub bearer_token_issuer: Option<Arc<T::BearerTokenIssuer>>,
    /// Set after boot, once there is an HTTPS substrate.
    pub credential_store: Option<Arc<T::CredentialStore>>,
    /// Set after boot, once there is an HTTPS substrate.
    pub revocation_list: Option<Arc<T::RevocationList>>,
    /// Set after boot, once there is a vault.
    pub credential_vault: Option<Arc<T::CredentialVault>>,
    pub credential_change_bus: Arc<T::CredentialChangeBus>,
    /// Set after boot, once there is persistence.
    pub online_provider_config_store: Option<Arc<T::OnlineProviderConfigStore>>,
    pub online_provider_config_bus: Arc<T::OnlineProviderConfigBus>,
}

/// How a slot that is set after boot is shown, without its contents.
pub open spec fn slot_text(set: bool) -> Seq<char> {
    if set {
        "<set>"@
    } else {
        "<unset>"@
    }
}

/// How a slot that is set after boot is shown, without its contents.
pub fn slot_label<V>(slot: &Option<V>) -> (r: &'static str)
    ensures
        r@ == slot_text(slot is Some),
{
    match slot {
        Some(_) => "<set>",
        None => "<unset>",
    }
}

impl<T: Stores> StewardState<T> {
    /// Begins to build a bag.
    pub fn builder() -> (r: StewardStateBuilder<T>)
        ensures
            r.is_empty(),
    {
        StewardStateBuilder {
            catalogue: None,
            subjects: None,
            relations: None,
            custody: None,
            bus: None,
            admin: None,
            persistence: None,
            claimant_issuer: None,
            conflict_index: None,
        }
    }

    /// A snapshot of the catalogue in use: one that was put there, whoever has
    /// published meanwhile.
    pub fn current_catalogue(&self) -> (r: Arc<Catalogue>)
        ensures
            catalogues_of(self.catalogue).contains(*r),
    {
        load_catalogue(&self.catalogue)
    }

    /// Puts another catalogue in use, for everybody who shares the bag, and gives
    /// the one that it replaces.
    pub fn publish_catalogue(&self, catalogue: Arc<Catalogue>) -> (r: Arc<Catalogue>)
        ensures
            makes_way(self.catalogue, *r, *catalogue),
    {
        swap_catalogue(&self.catalogue, catalogue)
    }
}

/// What a bag lacks.
#[derive(Debug, Clone, Copy, PartialEq, Eq, Structural)]
pub enum StewardStateBuildError {
    MissingCatalogue,
    MissingSubjects,
    MissingRelations,
    MissingCustody,
    MissingBus,
    MissingAdmin,
    MissingPersistence,
    MissingClaimantIssuer,
}

impl StewardStateBuildError {
    /// The error as text.
    pub open spec fn text(self) -> Seq<char> {
        match self {
            StewardStateBuildError::MissingCatalogue => {
                "StewardState builder is missing the catalogue handle"@
            },
            StewardStateBuildError::MissingSubjects => {
                "StewardState builder is missing the subject-registry handle"@
            },
            StewardStateBuildError::MissingRelations => {
                "StewardState builder is missing the relation-graph handle"@
            },
            StewardStateBuildError::MissingCustody => {
                "StewardState builder is missing the custody-ledger handle"@
            },
            StewardStateBuildError::MissingBus => {
                "StewardState builder is missing the happenings-bus handle"@
            },
            StewardStateBuildError::MissingAdmin => {
                "StewardState builder is missing the admin-ledger handle"@
            },
            StewardStateBuildError::MissingPersistence => {
                "StewardState builder is missing the persistence-store handle"@
            },
            StewardStateBuildError::MissingClaimantIssuer => {
                "StewardState builder is missing the claimant-token-issuer handle"@
            },
        }
    }

    /// The error as text.
    pub fn as_str(self) -> (r: &'static str)
        ensures
            r@ == self.text(),
    {
        match self {
            StewardStateBuildError::MissingCatalogue => {
                "StewardState builder is missing the catalogue handle"
            },
            StewardStateBuildError::MissingSubjects => {
                "StewardState builder is missing the subject-registry handle"
            },
            StewardStateBuildError::MissingRelations => {
                "StewardState builder is missing the relation-graph handle"
            },
            StewardStateBuildError::MissingCustody => {
                "StewardState builder is missing the custody-ledger handle"
            },
            StewardStateBuildError::MissingBus => {
                "StewardState builder is missing the happenings-bus handle"
            },
            StewardStateBuildError::MissingAdmin => {
                "StewardState builder is missing the admin-ledger handle"
            },
            StewardStateBuildError::MissingPersistence => {
                "StewardState builder is missing the persistence-store handle"
            },
            StewardStateBuildError::MissingClaimantIssuer => {
                "StewardState builder is missing the claimant-token-issuer handle"
            },
        }
    }
}

/// A bag in the making.
pub struct StewardStateBuilder<T: Stores> {
    pub catalogue: Option<Arc<Catalogue>>,
    pub subjects: Option<Arc<T::Subjects>>,
    pub relations: Option<Arc<T::Relations>>,
    pub custody: Option<Arc<T::Custody>>,
    pub bus: Option<Arc<T::Bus>>,
    pub admin: Option<Arc<T::Admin>>,
    pub persistence: Option<Arc<T::Persistence>>,
    pub claimant_issuer: Option<Arc<SharedIssuer>>,
    pub conflict_index: Option<Arc<T::ConflictIndex>>,
}

impl<T: Stores> StewardStateBuilder<T> {
    /// Nothing has been provided yet.
    pub open spec fn is_empty(self) -> bool {
        &&& self.catalogue is None
        &&& self.subjects is None
        &&& self.relations is None
        &&& self.custody is None
        &&& self.bus is None
        &&& self.admin is None
        &&& self.persistence is None
        &&& self.claimant_issuer is None
        &&& self.conflict_index is None
    }

    /// The first required handle that is missing.
    pub open spec fn lacks(self) -> Option<StewardStateBuildError> {
        if self.catalogue is None {
            Some(StewardStateBuildError::MissingCatalogue)
        } else if self.subjects is None {
            Some(StewardStateBuildError::MissingSubjects)
        } else if self.relations is None {
            Some(StewardStateBuildError::MissingRelations)
        } else if self.custody is None {
            Some(StewardStateBuildError::MissingCustody)
        } else if self.bus is None {
            Some(StewardStateBuildError::MissingBus)
        } else if self.admin is None {
            Some(StewardStateBuildError::MissingAdmin)
        } else if self.persistence is None {
            Some(StewardStateBuildError::MissingPersistence)
        } else if self.claimant_issuer is None {
            Some(StewardStateBuildError::MissingClaimantIssuer)
        } else {
            None
        }
    }

    /// The bag that holds what was provided. Without a conflict index it has an
    /// empty one; what is set after boot is not set.
    pub open spec fn builds(self, state: StewardState<T>) -> bool {
        &&& self.catalogue matches Some(c) && catalogues_of(state.catalogue).contains(*c)
        &&& Some(state.subjects) == self.subjects
        &&& Some(state.relations) == self.relations
        &&& Some(state.custody) == self.custody
        &&& Some(state.bus) == self.bus
        &&& Some(state.admin) == self.admin
        &&& Some(state.persistence) == self.persistence
        &&& Some(state.claimant_issuer) == self.claimant_issuer
        &&& match self.conflict_index {
            Some(index) => state.conflict_index == index,
            None => call_ensures(T::ConflictIndex::default, (), *state.conflict_index),
        }
        &&& state.bearer_token_issuer is None
        &&& state.credential_store is None
        &&& state.revocation_list is None
        &&& state.credential_vault is None
        &&& call_ensures(T::CredentialChangeBus::default, (), *state.credential_change_bus)
        &&& state.online_provider_config_store is None
        &&& call_ensures(
            T::OnlineProviderConfigBus::default,
            (),
            *state.online_provider_config_bus,
        )
    }

    /// Provides the catalogue.
    pub fn catalogue(self, catalogue: Arc<Catalogue>) -> (r: Self)
        ensures
            r == (StewardStateBuilder { catalogue: Some(catalogue), ..self }),
    {
        StewardStateBuilder { catalogue: Some(catalogue), ..self }
    }

    /// Provides the subject registry.
    pub fn subjects(self, subjects: Arc<T::Subjects>) -> (r: Self)
        ensures
            r == (StewardStateBuilder { subjects: Some(subjects), ..self }),
    {
        StewardStateBuilder { subjects: Some(subjects), ..self }
    }

    /// Provides the relation graph.
    pub fn relations(self, relations: Arc<T::Relations>) -> (r: Self)
        ensures
            r == (StewardStateBuilder { relations: Some(relations), ..self }),
    {
        StewardStateBuilder { relations: Some(relations), ..self }
    }

    /// Provides the custody ledger.
    pub fn custody(self, custody: Arc<T::Custody>) -> (r: Self)
        ensures
            r == (StewardStateBuilder { custody: Some(custody), ..self }),
    {
        StewardStateBuilder { custody: Some(custody), ..self }
    }

    /// Provides the happenings bus.
    pub fn bus(self, bus: Arc<T::Bus>) -> (r: Self)
        ensures
            r == (StewardStateBuilder { bus: Some(bus), ..self }),
    {
        StewardStateBuilder { bus: Some(bus), ..self }
    }

    /// Provides the admin audit ledger.
    pub fn admin(self, admin: Arc<T::Admin>) -> (r: Self)
        ensures
            r == (StewardStateBuilder { admin: Some(admin), ..self }),
    {
        StewardStateBuilder { admin: Some(admin), ..self }
    }

    /// Provides the persistence store.
    pub fn persistence(self, persistence: Arc<T::Persistence>) -> (r: Self)
        ensures
            r == (StewardStateBuilder { persistence: Some(persistence), ..self }),
    {
        StewardStateBuilder { persistence: Some(persistence), ..self }
    }

    /// Provides the claimant token issuer.
    pub fn claimant_issuer(self, claimant_issuer: Arc<SharedIssuer>) -> (r: Self)
        ensures
            r == (StewardStateBuilder { claimant_issuer: Some(claimant_issuer), ..self }),
    {
        StewardStateBuilder { claimant_issuer: Some(claimant_issuer), ..self }
    }

    /// Provides the conflict index, which is optional.
    pub fn conflict_index(self, conflict_index: Arc<T::ConflictIndex>) -> (r: Self)
        ensures
            r == (StewardStateBuilder { conflict_index: Some(conflict_index), ..self }),
    {
        StewardStateBuilder { conflict_index: Some(conflict_index), ..self }
    }

    /// Finishes the bag, unless a required handle is missing.
    pub fn build(self) -> (r: Result<Arc<StewardState<T>>, StewardStateBuildError>)
        ensures
            match r {
                Ok(state) => self.lacks() is None && self.builds(*state),
                Err(e) => self.lacks() == Some(e),
            },
    {
        let catalogue = match self.catalogue {
            Some(h) => h,
            None => {
                return Err(StewardStateBuildError::MissingCatalogue);
            },
        };
        let subjects = match self.subjects {
            Some(h) => h,
            None => {
                return Err(StewardStateBuildError::MissingSubjects);
            },
        };
        let relations = match self.relations {
            Some(h) => h,
            None => {
                return Err(StewardStateBuildError::MissingRelations);
            },
        };
        let custody = match self.custody {
            Some(h) => h,
            None => {
                return Err(StewardStateBuildError::MissingCustody);
            },
        };
        let bus = match self.bus {
            Some(h) => h,
            None => {
                return Err(StewardStateBuildError::MissingBus);
            },
        };
        let admin = match self.admin {
            Some(h) => h,
            None => {
                return Err(StewardStateBuildError::MissingAdmin);
            },
        };
        let persistence = match self.persistence {
            Some(h) => h,
            None => {
                return Err(StewardStateBuildError::MissingPersistence);
            },
        };
        let claimant_issuer = match self.claimant_issuer {
            Some(h) => h,
            None => {
                return Err(StewardStateBuildError::MissingClaimantIssuer);
            },
        };
        let conflict_index = match self.conflict_index {
            Some(h) => h,
            None => Arc::new(T::ConflictIndex::default()),
        };
        Ok(
            Arc::new(
                StewardState {
                    catalogue: catalogue_cell(catalogue),
                    subjects,
                    relations,
                    custody,
                    bus,
                    admin,
                    persistence,
                    claimant_issuer,
                    conflict_index,
                    bearer_token_issuer: None,
                    credential_store: None,
                    revocation_list: None,
                    credential_vault: None,
                    credential_change_bus: Arc::new(T::CredentialChangeBus::default()),
                    online_provider_config_store: None,
                    online_provider_config_bus: Arc::new(T::OnlineProviderConfigBus::default()),
                },
            ),
        )
    }
}

}
