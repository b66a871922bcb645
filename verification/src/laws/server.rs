//! Laws of the server and of the bag of handles that its components share.

use crate::access::{ClientAcl, StewardIdentity};
use crate::capabilities::StaticLabels;
use crate::catalogue::{catalogues_of, Catalogue, CatalogueSource, TimeTrust};
use crate::claimant::SharedIssuer;
use crate::dispatch::Wiring;
use crate::laws::access::only_local;
use crate::resolution::ResolutionLedger;
use crate::server::{Server, Subsystems};
use crate::state::{
    slot_label, StewardState, StewardStateBuildError, StewardStateBuilder, Stores,
};
use std::sync::Arc;
use vstd::prelude::*;

verus! {

/// Bags begin empty.
pub proof fn law_bags_begin_empty<T: Stores>(r: StewardStateBuilder<T>)
    requires
        call_ensures(StewardState::<T>::builder, (), r),
    ensures
        r.catalogue is None,
        r.subjects is None,
        r.relations is None,
        r.custody is None,
        r.bus is None,
        r.admin is None,
        r.persistence is None,
        r.claimant_issuer is None,
        r.conflict_index is None,
{
}

/// Providing the catalogue puts it into the bag and leaves the rest alone.
pub proof fn law_catalogue_is_provided<T: Stores>(
    b: StewardStateBuilder<T>,
    handle: Arc<Catalogue>,
    r: StewardStateBuilder<T>,
)
    requires
        call_ensures(StewardStateBuilder::<T>::catalogue, (b, handle), r),
    ensures
        r.catalogue == Some(handle),
        r.subjects == b.subjects,
        r.relations == b.relations,
        r.custody == b.custody,
        r.bus == b.bus,
        r.admin == b.admin,
        r.persistence == b.persistence,
        r.claimant_issuer == b.claimant_issuer,
        r.conflict_index == b.conflict_index,
{
}

/// Providing the subjects puts it into the bag and leaves the rest alone.
pub proof fn law_subjects_is_provided<T: Stores>(
    b: StewardStateBuilder<T>,
    handle: Arc<T::Subjects>,
    r: StewardStateBuilder<T>,
)
    requires
        call_ensures(StewardStateBuilder::<T>::subjects, (b, handle), r),
    ensures
        r.catalogue == b.catalogue,
        r.subjects == Some(handle),
        r.relations == b.relations,
        r.custody == b.custody,
        r.bus == b.bus,
        r.admin == b.admin,
        r.persistence == b.persistence,
        r.claimant_issuer == b.claimant_issuer,
        r.conflict_index == b.conflict_index,
{
}

/// Providing the relations puts it into the bag and leaves the rest alone.
pub proof fn law_relations_is_provided<T: Stores>(
    b: StewardStateBuilder<T>,
    handle: Arc<T::Relations>,
    r: StewardStateBuilder<T>,
)
    requires
        call_ensures(StewardStateBuilder::<T>::relations, (b, handle), r),
    ensures
        r.catalogue == b.catalogue,
        r.subjects == b.subjects,
        r.relations == Some(handle),
        r.custody == b.custody,
        r.bus == b.bus,
        r.admin == b.admin,
        r.persistence == b.persistence,
        r.claimant_issuer == b.claimant_issuer,
        r.conflict_index == b.conflict_index,
{
}

/// Providing the custody puts it into the bag and leaves the rest alone.
pub proof fn law_custody_is_provided<T: Stores>(
    b: StewardStateBuilder<T>,
    handle: Arc<T::Custody>,
    r: StewardStateBuilder<T>,
)
    requires
        call_ensures(StewardStateBuilder::<T>::custody, (b, handle), r),
    ensures
        r.catalogue == b.catalogue,
        r.subjects == b.subjects,
        r.relations == b.relations,
        r.custody == Some(handle),
        r.bus == b.bus,
        r.admin == b.admin,
        r.persistence == b.persistence,
        r.claimant_issuer == b.claimant_issuer,
        r.conflict_index == b.conflict_index,
{
}

/// Providing the bus puts it into the bag and leaves the rest alone.
pub proof fn law_bus_is_provided<T: Stores>(
    b: StewardStateBuilder<T>,
    handle: Arc<T::Bus>,
    r: StewardStateBuilder<T>,
)
    requires
        call_ensures(StewardStateBuilder::<T>::bus, (b, handle), r),
    ensures
        r.catalogue == b.catalogue,
        r.subjects == b.subjects,
        r.relations == b.relations,
        r.custody == b.custody,
        r.bus == Some(handle),
        r.admin == b.admin,
        r.persistence == b.persistence,
        r.claimant_issuer == b.claimant_issuer,
        r.conflict_index == b.conflict_index,
{
}

/// Providing the admin puts it into the bag and leaves the rest alone.
pub proof fn law_admin_is_provided<T: Stores>(
    b: StewardStateBuilder<T>,
    handle: Arc<T::Admin>,
    r: StewardStateBuilder<T>,
)
    requires
        call_ensures(StewardStateBuilder::<T>::admin, (b, handle), r),
    ensures
        r.catalogue == b.catalogue,
        r.subjects == b.subjects,
        r.relations == b.relations,
        r.custody == b.custody,
        r.bus == b.bus,
        r.admin == Some(handle),
        r.persistence == b.persistence,
        r.claimant_issuer == b.claimant_issuer,
        r.conflict_index == b.conflict_index,
{
}

/// Providing the persistence puts it into the bag and leaves the rest alone.
pub proof fn law_persistence_is_provided<T: Stores>(
    b: StewardStateBuilder<T>,
    handle: Arc<T::Persistence>,
    r: StewardStateBuilder<T>,
)
    requires
        call_ensures(StewardStateBuilder::<T>::persistence, (b, handle), r),
    ensures
        r.catalogue == b.catalogue,
        r.subjects == b.subjects,
        r.relations == b.relations,
        r.custody == b.custody,
        r.bus == b.bus,
        r.admin == b.admin,
        r.persistence == Some(handle),
        r.claimant_issuer == b.claimant_issuer,
        r.conflict_index == b.conflict_index,
{
}

/// Providing the claimant issuer puts it into the bag and leaves the rest alone.
pub proof fn law_claimant_issuer_is_provided<T: Stores>(
    b: StewardStateBuilder<T>,
    handle: Arc<SharedIssuer>,
    r: StewardStateBuilder<T>,
)
    requires
        call_ensures(StewardStateBuilder::<T>::claimant_issuer, (b, handle), r),
    ensures
        r.catalogue == b.catalogue,
        r.subjects == b.subjects,
        r.relations == b.relations,
        r.custody == b.custody,
        r.bus == b.bus,
        r.admin == b.admin,
        r.persistence == b.persistence,
        r.claimant_issuer == Some(handle),
        r.conflict_index == b.conflict_index,
{
}

/// Providing the conflict index puts it into the bag and leaves the rest alone.
pub proof fn law_conflict_index_is_provided<T: Stores>(
    b: StewardStateBuilder<T>,
    handle: Arc<T::ConflictIndex>,
    r: StewardStateBuilder<T>,
)
    requires
        call_ensures(StewardStateBuilder::<T>::conflict_index, (b, handle), r),
    ensures
        r.catalogue == b.catalogue,
        r.subjects == b.subjects,
        r.relations == b.relations,
        r.custody == b.custody,
        r.bus == b.bus,
        r.admin == b.admin,
        r.persistence == b.persistence,
        r.claimant_issuer == b.claimant_issuer,
        r.conflict_index == Some(handle),
{
}

/// A bag is finished if nothing that it needs is missing, and then holds what was
/// provided; what comes after boot is not there yet. Otherwise it is told what is missing
/// first.
pub proof fn law_bags_hold_what_was_provided<T: Stores>(
    b: StewardStateBuilder<T>,
    r: Result<Arc<StewardState<T>>, StewardStateBuildError>,
)
    requires
        call_ensures(StewardStateBuilder::<T>::build, (b,), r),
    ensures
        r is Ok ==> ({
            &&& b.catalogue is Some
            &&& b.subjects is Some
            &&& b.relations is Some
            &&& b.custody is Some
            &&& b.bus is Some
            &&& b.admin is Some
            &&& b.persistence is Some
            &&& b.claimant_issuer is Some
            &&& catalogues_of(r->Ok_0.catalogue).contains(*b.catalogue->Some_0)
            &&& r->Ok_0.subjects == b.subjects->Some_0
            &&& r->Ok_0.relations == b.relations->Some_0
            &&& r->Ok_0.custody == b.custody->Some_0
            &&& r->Ok_0.bus == b.bus->Some_0
            &&& r->Ok_0.admin == b.admin->Some_0
            &&& r->Ok_0.persistence == b.persistence->Some_0
            &&& r->Ok_0.claimant_issuer == b.claimant_issuer->Some_0
            &&& b.conflict_index is Some ==> r->Ok_0.conflict_index == b.conflict_index->Some_0
            &&& r->Ok_0.bearer_token_issuer is None
            &&& r->Ok_0.credential_store is None
            &&& r->Ok_0.revocation_list is None
            &&& r->Ok_0.credential_vault is None
            &&& r->Ok_0.online_provider_config_store is None
        }),
        r is Err && r->Err_0 is MissingCatalogue ==> b.catalogue is None,
        r is Err && r->Err_0 is MissingSubjects ==> b.subjects is None
            && b.catalogue is Some,
        r is Err && r->Err_0 is MissingRelations ==> b.relations is None
            && b.catalogue is Some
            && b.subjects is Some,
        r is Err && r->Err_0 is MissingCustody ==> b.custody is None
            && b.catalogue is Some
            && b.subjects is Some
            && b.relations is Some,
        r is Err && r->Err_0 is MissingBus ==> b.bus is None
            && b.catalogue is Some
            && b.subjects is Some
            && b.relations is Some
            && b.custody is Some,
        r is Err && r->Err_0 is MissingAdmin ==> b.admin is None
            && b.catalogue is Some
            && b.subjects is Some
            && b.relations is Some
            && b.custody is Some
            && b.bus is Some,
        r is Err && r->Err_0 is MissingPersistence ==> b.persistence is None
            && b.catalogue is Some
            && b.subjects is Some
            && b.relations is Some
            && b.custody is Some
            && b.bus is Some
            && b.admin is Some,
        r is Err && r->Err_0 is MissingClaimantIssuer ==> b.claimant_issuer is None
            && b.catalogue is Some
            && b.subjects is Some
            && b.relations is Some
            && b.custody is Some
            && b.bus is Some
            && b.admin is Some
            && b.persistence is Some,
{
}

/// What is missing is named.
pub proof fn law_missing_handles_are_named(e: StewardStateBuildError, text: &'static str)
    requires
        call_ensures(StewardStateBuildError::as_str, (e,), text),
    ensures
        e is MissingCatalogue ==> text@ == "StewardState builder is missing the catalogue handle"@,
        e is MissingSubjects ==> text@
            == "StewardState builder is missing the subject-registry handle"@,
        e is MissingRelations ==> text@
            == "StewardState builder is missing the relation-graph handle"@,
        e is MissingCustody ==> text@
            == "StewardState builder is missing the custody-ledger handle"@,
        e is MissingBus ==> text@ == "StewardState builder is missing the happenings-bus handle"@,
        e is MissingAdmin ==> text@ == "StewardState builder is missing the admin-ledger handle"@,
        e is MissingPersistence ==> text@
            == "StewardState builder is missing the persistence-store handle"@,
        e is MissingClaimantIssuer ==> text@
            == "StewardState builder is missing the claimant-token-issuer handle"@,
{
}

/// A slot that is set after boot shows whether it is set, and nothing of what is in it.
pub proof fn law_slots_show_whether_they_are_set<V>(slot: Option<V>, text: &'static str)
    requires
        call_ensures(slot_label::<V>, (&slot,), text),
    ensures
        slot is Some ==> text@ == "<set>"@,
        slot is None ==> text@ == "<unset>"@,
{
}

/// The catalogue in use is one that was put there, and one that is replaced was too.
pub proof fn law_catalogues_are_those_put_there<T: Stores>(
    state: StewardState<T>,
    current: Arc<Catalogue>,
    next: Arc<Catalogue>,
    replaced: Arc<Catalogue>,
)
    requires
        call_ensures(StewardState::<T>::current_catalogue, (&state,), current),
        call_ensures(StewardState::<T>::publish_catalogue, (&state, next), replaced),
    ensures
        catalogues_of(state.catalogue).contains(*current),
        catalogues_of(state.catalogue).contains(*next),
        catalogues_of(state.catalogue).contains(*replaced),
{
}

/// The server has none of the subsystems that it can do without.
pub open spec fn bare<T: Subsystems>(s: Server<T>) -> bool {
    &&& s.engine is None
    &&& s.reconciliation is None
    &&& s.fast_path is None
    &&& s.prompt_ledger is None
    &&& s.appointments is None
    &&& s.watches is None
    &&& s.desk.responder is None
}

/// A server is made of what it is given, with no subsystem that it can do without.
pub proof fn law_servers_are_what_they_are_given<T: Subsystems>(
    socket_path: String,
    router: Arc<T::Router>,
    state: Arc<StewardState<T::Stores>>,
    projections: Arc<T::Projections>,
    acl: ClientAcl,
    identity: StewardIdentity,
    ledger: ResolutionLedger,
    source: CatalogueSource,
    trust: TimeTrust,
    has_battery_rtc: bool,
    labels: Vec<StaticLabels>,
    r: Server<T>,
)
    requires
        call_ensures(
            Server::<T>::with_acl,
            (
                socket_path,
                router,
                state,
                projections,
                acl,
                identity,
                ledger,
                source,
                trust,
                has_battery_rtc,
                labels,
            ),
            r,
        ),
    ensures
        bare(r),
        r.socket_path == socket_path,
        r.router == router,
        r.state == state,
        r.projections == projections,
        r.desk.acl == acl,
        r.desk.steward_identity == identity,
        r.desk.resolution_ledger == ledger,
        r.desk.catalogue_source == source,
        r.desk.clock_trust == trust,
        r.desk.has_battery_rtc == has_battery_rtc,
        r.desk.labels == labels,
        r.desk.correlation.next == 1,
{
}

/// A server that is told nothing more admits local peers only, has answered nobody, and
/// trusts no clock.
pub proof fn law_plain_servers_are_careful<T: Subsystems>(
    socket_path: String,
    router: Arc<T::Router>,
    state: Arc<StewardState<T::Stores>>,
    projections: Arc<T::Projections>,
    labels: Vec<StaticLabels>,
    r: Server<T>,
)
    requires
        call_ensures(
            Server::<T>::new,
            (socket_path, router, state, projections, labels),
            r,
        ),
    ensures
        bare(r),
        r.socket_path == socket_path,
        r.router == router,
        r.state == state,
        r.projections == projections,
        r.desk.labels == labels,
        only_local(r.desk.acl.resolve_claimants),
        only_local(r.desk.acl.plugins_admin),
        only_local(r.desk.acl.reconciliation_admin),
        only_local(r.desk.acl.fast_path_admin),
        only_local(r.desk.acl.user_interaction_responder),
        only_local(r.desk.acl.appointments_admin),
        only_local(r.desk.acl.watches_admin),
        only_local(r.desk.acl.grammar_admin),
        r.desk.steward_identity.uid is None,
        r.desk.steward_identity.gid is None,
        r.desk.resolution_ledger.log@.len() == 0,
        r.desk.correlation.next == 1,
        r.desk.catalogue_source is Configured,
        r.desk.clock_trust is Untrusted,
        !r.desk.has_battery_rtc,
{
    crate::laws::access::lemma_names_differ();
    assert(r.desk.acl.rule("resolve_claimants"@) == Some(r.desk.acl.resolve_claimants));
    assert(r.desk.acl.rule("plugins_admin"@) == Some(r.desk.acl.plugins_admin));
    assert(r.desk.acl.rule("reconciliation_admin"@) == Some(r.desk.acl.reconciliation_admin));
    assert(r.desk.acl.rule("fast_path_admin"@) == Some(r.desk.acl.fast_path_admin));
    assert(r.desk.acl.rule("user_interaction_responder"@) == Some(
        r.desk.acl.user_interaction_responder,
    ));
    assert(r.desk.acl.rule("appointments_admin"@) == Some(r.desk.acl.appointments_admin));
    assert(r.desk.acl.rule("watches_admin"@) == Some(r.desk.acl.watches_admin));
    assert(r.desk.acl.rule("grammar_admin"@) == Some(r.desk.acl.grammar_admin));
}

/// Giving a server its engine leaves the rest alone.
pub proof fn law_servers_get_engine<T: Subsystems>(
    s: Server<T>,
    given: Arc<T::Engine>,
    r: Server<T>,
)
    requires
        call_ensures(Server::<T>::with_engine, (s, given), r),
    ensures
        r.engine == Some(given),
        r.reconciliation == s.reconciliation,
        r.fast_path == s.fast_path,
        r.prompt_ledger == s.prompt_ledger,
        r.appointments == s.appointments,
        r.watches == s.watches,
        r.socket_path == s.socket_path,
        r.router == s.router,
        r.state == s.state,
        r.projections == s.projections,
        r.desk.acl == s.desk.acl,
        r.desk.steward_identity == s.desk.steward_identity,
        r.desk.resolution_ledger == s.desk.resolution_ledger,
        r.desk.correlation == s.desk.correlation,
        r.desk.catalogue_source == s.desk.catalogue_source,
        r.desk.clock_trust == s.desk.clock_trust,
        r.desk.has_battery_rtc == s.desk.has_battery_rtc,
        r.desk.labels == s.desk.labels,
        r.desk.responder == s.desk.responder,
{
}

/// Giving a server its reconciliation leaves the rest alone.
pub proof fn law_servers_get_reconciliation<T: Subsystems>(
    s: Server<T>,
    given: Arc<T::Reconciliation>,
    r: Server<T>,
)
    requires
        call_ensures(Server::<T>::with_reconciliation, (s, given), r),
    ensures
        r.engine == s.engine,
        r.reconciliation == Some(given),
        r.fast_path == s.fast_path,
        r.prompt_ledger == s.prompt_ledger,
        r.appointments == s.appointments,
        r.watches == s.watches,
        r.socket_path == s.socket_path,
        r.router == s.router,
        r.state == s.state,
        r.projections == s.projections,
        r.desk.acl == s.desk.acl,
        r.desk.steward_identity == s.desk.steward_identity,
        r.desk.resolution_ledger == s.desk.resolution_ledger,
        r.desk.correlation == s.desk.correlation,
        r.desk.catalogue_source == s.desk.catalogue_source,
        r.desk.clock_trust == s.desk.clock_trust,
        r.desk.has_battery_rtc == s.desk.has_battery_rtc,
        r.desk.labels == s.desk.labels,
        r.desk.responder == s.desk.responder,
{
}

/// Giving a server its fast path leaves the rest alone.
pub proof fn law_servers_get_fast_path<T: Subsystems>(
    s: Server<T>,
    given: T::FastPath,
    r: Server<T>,
)
    requires
        call_ensures(Server::<T>::with_fast_path, (s, given), r),
    ensures
        r.engine == s.engine,
        r.reconciliation == s.reconciliation,
        r.fast_path == Some(given),
        r.prompt_ledger == s.prompt_ledger,
        r.appointments == s.appointments,
        r.watches == s.watches,
        r.socket_path == s.socket_path,
        r.router == s.router,
        r.state == s.state,
        r.projections == s.projections,
        r.desk.acl == s.desk.acl,
        r.desk.steward_identity == s.desk.steward_identity,
        r.desk.resolution_ledger == s.desk.resolution_ledger,
        r.desk.correlation == s.desk.correlation,
        r.desk.catalogue_source == s.desk.catalogue_source,
        r.desk.clock_trust == s.desk.clock_trust,
        r.desk.has_battery_rtc == s.desk.has_battery_rtc,
        r.desk.labels == s.desk.labels,
        r.desk.responder == s.desk.responder,
{
}

/// Giving a server its prompt ledger leaves the rest alone, but for a lock that
/// nobody holds.
pub proof fn law_servers_get_prompt_ledger<T: Subsystems>(
    s: Server<T>,
    given: Arc<T::Prompts>,
    r: Server<T>,
)
    requires
        call_ensures(Server::<T>::with_prompt_ledger, (s, given), r),
    ensures
        r.engine == s.engine,
        r.reconciliation == s.reconciliation,
        r.fast_path == s.fast_path,
        r.prompt_ledger == Some(given),
        r.appointments == s.appointments,
        r.watches == s.watches,
        r.socket_path == s.socket_path,
        r.router == s.router,
        r.state == s.state,
        r.projections == s.projections,
        r.desk.acl == s.desk.acl,
        r.desk.steward_identity == s.desk.steward_identity,
        r.desk.resolution_ledger == s.desk.resolution_ledger,
        r.desk.correlation == s.desk.correlation,
        r.desk.catalogue_source == s.desk.catalogue_source,
        r.desk.clock_trust == s.desk.clock_trust,
        r.desk.has_battery_rtc == s.desk.has_battery_rtc,
        r.desk.labels == s.desk.labels,
        r.desk.responder is Some && r.desk.responder->Some_0.holder is None,
{
}

/// Giving a server its appointments leaves the rest alone.
pub proof fn law_servers_get_appointments<T: Subsystems>(
    s: Server<T>,
    given: Arc<T::Appointments>,
    r: Server<T>,
)
    requires
        call_ensures(Server::<T>::with_appointments, (s, given), r),
    ensures
        r.engine == s.engine,
        r.reconciliation == s.reconciliation,
        r.fast_path == s.fast_path,
        r.prompt_ledger == s.prompt_ledger,
        r.appointments == Some(given),
        r.watches == s.watches,
        r.socket_path == s.socket_path,
        r.router == s.router,
        r.state == s.state,
        r.projections == s.projections,
        r.desk.acl == s.desk.acl,
        r.desk.steward_identity == s.desk.steward_identity,
        r.desk.resolution_ledger == s.desk.resolution_ledger,
        r.desk.correlation == s.desk.correlation,
        r.desk.catalogue_source == s.desk.catalogue_source,
        r.desk.clock_trust == s.desk.clock_trust,
        r.desk.has_battery_rtc == s.desk.has_battery_rtc,
        r.desk.labels == s.desk.labels,
        r.desk.responder == s.desk.responder,
{
}

/// Giving a server its watches leaves the rest alone.
pub proof fn law_servers_get_watches<T: Subsystems>(
    s: Server<T>,
    given: Arc<T::Watches>,
    r: Server<T>,
)
    requires
        call_ensures(Server::<T>::with_watches, (s, given), r),
    ensures
        r.engine == s.engine,
        r.reconciliation == s.reconciliation,
        r.fast_path == s.fast_path,
        r.prompt_ledger == s.prompt_ledger,
        r.appointments == s.appointments,
        r.watches == Some(given),
        r.socket_path == s.socket_path,
        r.router == s.router,
        r.state == s.state,
        r.projections == s.projections,
        r.desk.acl == s.desk.acl,
        r.desk.steward_identity == s.desk.steward_identity,
        r.desk.resolution_ledger == s.desk.resolution_ledger,
        r.desk.correlation == s.desk.correlation,
        r.desk.catalogue_source == s.desk.catalogue_source,
        r.desk.clock_trust == s.desk.clock_trust,
        r.desk.has_battery_rtc == s.desk.has_battery_rtc,
        r.desk.labels == s.desk.labels,
        r.desk.responder == s.desk.responder,
{
}

/// A server knows which subsystems it was given, and shows its ledger and its socket.
pub proof fn law_servers_know_themselves<T: Subsystems>(
    s: Server<T>,
    wiring: Wiring,
    ledger: &ResolutionLedger,
    path: &str,
)
    requires
        call_ensures(Server::<T>::wiring, (&s,), wiring),
        call_ensures(Server::<T>::resolution_ledger, (&s,), ledger),
        call_ensures(Server::<T>::socket_path, (&s,), path),
    ensures
        wiring.engine <==> s.engine is Some,
        wiring.reconciliation <==> s.reconciliation is Some,
        wiring.prompts <==> s.prompt_ledger is Some,
        wiring.appointments <==> s.appointments is Some,
        wiring.watches <==> s.watches is Some,
        *ledger == s.desk.resolution_ledger,
        path@ == s.socket_path@,
{
}

}
