//! The server: what it listens on and what it was given.

use crate::access::{ClientAcl, ResponderLock, StewardIdentity};
use crate::capabilities::StaticLabels;
use crate::catalogue::{CatalogueSource, TimeTrust};
use crate::dispatch::{Desk, Wiring};
use crate::plugin_requests::CorrelationIds;
use crate::resolution::ResolutionLedger;
use crate::state::{StewardState, Stores};
use std::sync::Arc;
use vstd::prelude::*;

verus! {

/// The types of the subsystems that a server talks to.
pub trait Subsystems {
    type Router;

    /// What the shared steward state is made of.
    type Stores: Stores;

    type Projections;

    type Engine;

    type Reconciliation;

    type FastPath;

    type Prompts;

    type Appointments;

    type Watches;
}

/// The server of the client socket.
pub struct Server<T: Subsystems> {
    pub socket_path: String,
    pub router: Arc<T::Router>,
    pub state: Arc<StewardState<T::Stores>>,
    pub projections: Arc<T::Projections>,
    pub desk: Desk,
    pub engine: Option<Arc<T::Engine>>,
    pub reconciliation: Option<Arc<T::Reconciliation>>,
    /// Without one the fast path is not served.
    pub fast_path: Option<T::FastPath>,
    pub prompt_ledger: Option<Arc<T::Prompts>>,
    pub appointments: Option<Arc<T::Appointments>>,
    pub watches: Option<Arc<T::Watches>>,
}

impl<T: Subsystems> Server<T> {
    /// The server has none of the optional subsystems.
    pub open spec fn is_bare(self) -> bool {
        &&& self.engine is None
        &&& self.reconciliation is None
        &&& self.fast_path is None
        &&& self.prompt_ledger is None
        &&& self.appointments is None
        &&& self.watches is None
        &&& self.desk.responder is None
    }

    /// A server with the default access list, no identity of its own, an empty
    /// audit ledger, the configured catalogue, an untrusted clock and no battery
    /// backed clock.
    pub fn new(
        socket_path: String,
        router: Arc<T::Router>,
        state: Arc<StewardState<T::Stores>>,
        projections: Arc<T::Projections>,
        labels: Vec<StaticLabels>,
    ) -> (r: Self)
        ensures
            r.is_bare(),
            r.socket_path == socket_path,
            r.router == router,
            r.state == state,
            r.projections == projections,
            r.desk.labels == labels,
            forall|name: Seq<char>|
                (#[trigger] r.desk.acl.rule(name)) matches Some(rule) ==> rule.allow_local
                    && rule.allow_uids@.len() == 0 && rule.allow_gids@.len() == 0,
            r.desk.steward_identity == (StewardIdentity { uid: None, gid: None }),
            r.desk.resolution_ledger.log@.len() == 0,
            r.desk.correlation.next == 1,
            r.desk.catalogue_source == CatalogueSource::Configured,
            r.desk.clock_trust == TimeTrust::Untrusted,
            !r.desk.has_battery_rtc,
    {
        Self::with_acl(
            socket_path,
            router,
            state,
            projections,
            ClientAcl::default(),
            StewardIdentity { uid: None, gid: None },
            ResolutionLedger::new(),
            CatalogueSource::Configured,
            TimeTrust::Untrusted,
            false,
            labels,
        )
    }

    /// A server with the given policy and boot facts.
    pub fn with_acl(
        socket_path: String,
        router: Arc<T::Router>,
        state: Arc<StewardState<T::Stores>>,
        projections: Arc<T::Projections>,
        acl: ClientAcl,
        steward_identity: StewardIdentity,
        resolution_ledger: ResolutionLedger,
        catalogue_source: CatalogueSource,
        clock_trust: TimeTrust,
        has_battery_rtc: bool,
        labels: Vec<StaticLabels>,
    ) -> (r: Self)
        ensures
            r.is_bare(),
            r.socket_path == socket_path,
            r.router == router,
            r.state == state,
            r.projections == projections,
            r.desk.acl == acl,
            r.desk.steward_identity == steward_identity,
            r.desk.resolution_ledger == resolution_ledger,
            r.desk.correlation.next == 1,
            r.desk.catalogue_source == catalogue_source,
            r.desk.clock_trust == clock_trust,
            r.desk.has_battery_rtc == has_battery_rtc,
            r.desk.labels == labels,
    {
        Server {
            socket_path,
            router,
            state,
            projections,
            desk: Desk {
                acl,
                steward_identity,
                responder: None,
                resolution_ledger,
                correlation: CorrelationIds::new(),
                catalogue_source,
                clock_trust,
                has_battery_rtc,
                labels,
            },
            engine: None,
            reconciliation: None,
            fast_path: None,
            prompt_ledger: None,
            appointments: None,
            watches: None,
        }
    }

    /// Gives the server an admission engine. Without one it refuses the plugin lifecycle and reload
    /// operations.
    pub fn with_engine(self, engine: Arc<T::Engine>) -> (r: Self)
        ensures
            r == (Server { engine: Some(engine), ..self }),
    {
        Server { engine: Some(engine), ..self }
    }

    /// Gives the server a reconciliation coordinator. Without one it refuses the reconciliation
    /// operations.
    pub fn with_reconciliation(self, reconciliation: Arc<T::Reconciliation>) -> (r: Self)
        ensures
            r == (Server { reconciliation: Some(reconciliation), ..self }),
    {
        Server { reconciliation: Some(reconciliation), ..self }
    }

    /// Gives the server an appointments runtime. Without one it refuses the appointment
    /// operations.
    pub fn with_appointments(self, appointments: Arc<T::Appointments>) -> (r: Self)
        ensures
            r == (Server { appointments: Some(appointments), ..self }),
    {
        Server { appointments: Some(appointments), ..self }
    }

    /// Gives the server a watches runtime. Without one it refuses the watch
    /// operations.
    pub fn with_watches(self, watches: Arc<T::Watches>) -> (r: Self)
        ensures
            r == (Server { watches: Some(watches), ..self }),
    {
        Server { watches: Some(watches), ..self }
    }

    /// Gives the server a prompt ledger, with a responder lock that nobody holds.
    /// Without one it refuses the user interaction operations.
    pub fn with_prompt_ledger(self, prompt_ledger: Arc<T::Prompts>) -> (r: Self)
        ensures
            r == (Server {
                prompt_ledger: Some(prompt_ledger),
                desk: Desk { responder: Some(ResponderLock { holder: None }), ..self.desk },
                ..self
            }),
    {
        Server {
            prompt_ledger: Some(prompt_ledger),
            desk: Desk { responder: Some(ResponderLock::new()), ..self.desk },
            ..self
        }
    }

    /// Makes the server serve the fast path too.
    pub fn with_fast_path(self, config: T::FastPath) -> (r: Self)
        ensures
            r == (Server { fast_path: Some(config), ..self }),
    {
        Server { fast_path: Some(config), ..self }
    }

    /// The subsystems that the server was given.
    pub fn wiring(&self) -> (r: Wiring)
        ensures
            r == (Wiring {
                engine: self.engine is Some,
                reconciliation: self.reconciliation is Some,
                prompts: self.prompt_ledger is Some,
                appointments: self.appointments is Some,
                watches: self.watches is Some,
            }),
    {
        Wiring {
            engine: self.engine.is_some(),
            reconciliation: self.reconciliation.is_some(),
            prompts: self.prompt_ledger.is_some(),
            appointments: self.appointments.is_some(),
            watches: self.watches.is_some(),
        }
    }

    /// The audit ledger of `resolve_claimants`.
    pub fn resolution_ledger(&self) -> (r: &ResolutionLedger)
        ensures
            *r == self.desk.resolution_ledger,
    {
        &self.desk.resolution_ledger
    }

    /// The socket that the server listens on.
    pub fn socket_path(&self) -> (r: &str)
        ensures
            r@ == self.socket_path@,
    {
        self.socket_path.as_str()
    }
}

}
