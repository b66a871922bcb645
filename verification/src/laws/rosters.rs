//! Laws of what is admitted and declared: the inventory, the racks, the subject
//! grammar, and the requests to plugins.

use crate::catalogue::{Catalogue, Rack, Shelf};
use crate::codec::{base64_decoded, base64_text};
use crate::errors::{ApiError, ErrorClass, StewardFailure};
use crate::grammar::{
    accept_grammar_orphans_reply, declared_types, list_grammar_orphans_reply,
    migrate_grammar_orphans_reply, migrate_request, project_grammar_orphan, GrammarOrphanStatus,
    MigrateError, MigrateOutcome, MigrateRequest, PersistedGrammarOrphan, PersistenceFailure,
};
use crate::happenings::Happening;
use crate::inventory::{
    handle_list_plugins, handle_project_rack, occupant_of, rack_at, AdmittedPlugin,
};
use crate::json::{bytes_value, value_bool, value_fields};
use crate::laws::dispatch::{rules_asked, rules_followed};
use crate::laws::refusals::{refuses, says};
use crate::laws::replies::passes_on;
use crate::paging::{law_ordered, ordered, parts_lt, PageRow};
use crate::plugin_requests::{
    flight_mode_on, parse_flight_mode_set_on, plugin_request_reply, post_dispatch_happening,
    prepare_plugin_request, CorrelationIds, PluginRequest,
};
use crate::requests::{MapMappingEntry, MigrationStrategyWire};
use crate::responses::{
    ClientResponse, GrammarOrphanWire, PluginInventoryEntry, RackShelfEntry, RackShelfOccupant,
};
use crate::text::{contains_text, debug_text, lemma_lex_irreflexive, text_lt};
use serde_json::Value;
use std::time::SystemTime;
use vstd::prelude::*;
use vstd::utf8::*;

verus! {

/// The kind that is shown is the plugin's, or `unknown` where none is known.
pub open spec fn kind_shown(shown: Seq<char>, kind: Option<String>) -> bool {
    &&& kind is Some ==> shown == kind->Some_0@
    &&& kind is None ==> shown == "unknown"@
}

/// The entry shows the plugin.
pub open spec fn plugin_shown(e: PluginInventoryEntry, p: AdmittedPlugin) -> bool {
    e.name == p.name && e.shelf == p.shelf && kind_shown(e.interaction_kind@, p.kind)
}

/// Every admitted plugin is listed, in its place, with the current sequence number.
pub proof fn law_plugins_are_listed(
    admitted: Vec<AdmittedPlugin>,
    current_seq: u64,
    r: ClientResponse,
)
    requires
        call_ensures(handle_list_plugins, (&admitted, current_seq), r),
    ensures
        r is Plugins,
        r->plugins_inventory,
        r->Plugins_current_seq == current_seq,
        r->Plugins_plugins@.len() == admitted@.len(),
        forall|i: int|
            0 <= i < admitted@.len() ==> plugin_shown(
                #[trigger] r->Plugins_plugins@[i],
                admitted@[i],
            ),
{
}

/// The shelf is taken by the plugin that was admitted on it last, and by none where none
/// was.
pub open spec fn taken_by(
    occupant: Option<RackShelfOccupant>,
    admitted: Seq<AdmittedPlugin>,
    shelf: Seq<char>,
) -> bool {
    match occupant {
        Some(o) => exists|i: int| ({
            &&& 0 <= i < admitted.len()
            &&& (#[trigger] admitted[i]).shelf@ == shelf
            &&& o.plugin == admitted[i].name
            &&& kind_shown(o.interaction_kind@, admitted[i].kind)
            &&& forall|j: int| i < j < admitted.len() ==> (#[trigger] admitted[j]).shelf@ != shelf
        }),
        None => forall|i: int|
            0 <= i < admitted.len() ==> (#[trigger] admitted[i]).shelf@ != shelf,
    }
}

proof fn lemma_last_on_the_shelf(admitted: Seq<AdmittedPlugin>, shelf: Seq<char>)
    ensures
        match occupant_of(admitted, shelf) {
            Some(p) => exists|i: int| ({
                &&& 0 <= i < admitted.len()
                &&& #[trigger] admitted[i] == p
                &&& p.shelf@ == shelf
                &&& forall|j: int|
                    i < j < admitted.len() ==> (#[trigger] admitted[j]).shelf@ != shelf
            }),
            None => forall|i: int|
                0 <= i < admitted.len() ==> (#[trigger] admitted[i]).shelf@ != shelf,
        },
    decreases admitted.len(),
{
    if admitted.len() > 0 {
        let rest = admitted.drop_last();
        let last = admitted.len() - 1;
        assert(admitted[last] == admitted.last());
        if admitted.last().shelf@ != shelf {
            lemma_last_on_the_shelf(rest, shelf);
            assert forall|i: int| 0 <= i < rest.len() implies #[trigger] admitted[i]
                == rest[i] by {}
            match occupant_of(rest, shelf) {
                Some(p) => {
                    let i = choose|i: int| ({
                        &&& 0 <= i < rest.len()
                        &&& #[trigger] rest[i] == p
                        &&& p.shelf@ == shelf
                        &&& forall|j: int|
                            i < j < rest.len() ==> (#[trigger] rest[j]).shelf@ != shelf
                    });
                    assert(admitted[i] == p);
                    assert forall|j: int| i < j < admitted.len() implies (
                    #[trigger] admitted[j]).shelf@ != shelf by {
                        if j < rest.len() {
                            assert(rest[j].shelf@ != shelf);
                        }
                    }
                },
                None => {
                    assert forall|i: int| 0 <= i < admitted.len() implies (
                    #[trigger] admitted[i]).shelf@ != shelf by {
                        if i < rest.len() {
                            assert(rest[i].shelf@ != shelf);
                        }
                    }
                },
            }
        }
    }
}

/// The entry shows a shelf of the rack, under the rack's name and its own, with who has
/// taken it.
pub open spec fn shelf_shown(
    e: RackShelfEntry,
    rack: Rack,
    shelf: Shelf,
    admitted: Seq<AdmittedPlugin>,
) -> bool {
    &&& e.name == shelf.name
    &&& e.fully_qualified@ == rack.name@ + "."@ + shelf.name@
    &&& e.shape == shelf.shape
    &&& e.shape_supports@ == shelf.shape_supports@
    &&& e.description == shelf.description
    &&& taken_by(e.occupant, admitted, rack.name@ + "."@ + shelf.name@)
}

/// A rack that the catalogue declares is shown with all of its shelves, in their order;
/// any other is unknown.
pub proof fn law_racks_are_shown(
    catalogue: Catalogue,
    admitted: Vec<AdmittedPlugin>,
    rack_name: String,
    current_seq: u64,
    r: ClientResponse,
)
    requires
        call_ensures(handle_project_rack, (&catalogue, &admitted, rack_name, current_seq), r),
    ensures
        (forall|i: int|
            0 <= i < catalogue.racks@.len() ==> (#[trigger] catalogue.racks@[i]).name@
                != rack_name@) ==> refuses(
            r,
            ErrorClass::NotFound,
            "unknown rack: "@ + rack_name@,
            "unknown_rack"@,
        ),
        (exists|i: int|
            0 <= i < catalogue.racks@.len() && (#[trigger] catalogue.racks@[i]).name@
                == rack_name@) ==> ({
            &&& r is RackProjection
            &&& r->rack_projection
            &&& r->RackProjection_current_seq == current_seq
            &&& exists|i: int| ({
                &&& 0 <= i < catalogue.racks@.len()
                &&& (#[trigger] catalogue.racks@[i]).name@ == rack_name@
                &&& r->rack == catalogue.racks@[i].name
                &&& r->charter == catalogue.racks@[i].charter
                &&& r->shelves@.len() == catalogue.racks@[i].shelves@.len()
                &&& forall|j: int|
                    0 <= j < r->shelves@.len() ==> shelf_shown(
                        #[trigger] r->shelves@[j],
                        catalogue.racks@[i],
                        catalogue.racks@[i].shelves@[j],
                        admitted@,
                    )
            })
        }),
{
    if exists|i: int|
        0 <= i < catalogue.racks@.len() && (#[trigger] catalogue.racks@[i]).name@ == rack_name@ {
        let some = choose|i: int|
            0 <= i < catalogue.racks@.len() && (#[trigger] catalogue.racks@[i]).name@
                == rack_name@;
        lemma_first_rack(catalogue, rack_name@, some);
        let first = choose|i: int| #[trigger] rack_at(catalogue, rack_name@, i);
        assert(rack_at(catalogue, rack_name@, first));
        let i = choose|i: int| #[trigger]
            rack_at(catalogue, rack_name@, i) && {
                let found = catalogue.racks@[i];
                &&& r->rack == found.name
                &&& r->charter == found.charter
                &&& r->shelves@.len() == found.shelves@.len()
                &&& forall|j: int|
                    0 <= j < r->shelves@.len() ==> crate::inventory::surveys(
                        #[trigger] r->shelves@[j],
                        found,
                        found.shelves@[j],
                        admitted@,
                    )
            };
        let found = catalogue.racks@[i];
        assert forall|j: int| 0 <= j < r->shelves@.len() implies shelf_shown(
            #[trigger] r->shelves@[j],
            found,
            found.shelves@[j],
            admitted@,
        ) by {
            let shelf = found.name@ + "."@ + found.shelves@[j].name@;
            lemma_last_on_the_shelf(admitted@, shelf);
        }
    }
}

proof fn lemma_first_rack(catalogue: Catalogue, name: Seq<char>, i: int)
    requires
        0 <= i < catalogue.racks@.len(),
        catalogue.racks@[i].name@ == name,
    ensures
        exists|k: int| #[trigger] rack_at(catalogue, name, k),
    decreases i,
{
    if exists|j: int| 0 <= j < i && (#[trigger] catalogue.racks@[j]).name@ == name {
        let j = choose|j: int| 0 <= j < i && (#[trigger] catalogue.racks@[j]).name@ == name;
        lemma_first_rack(catalogue, name, j);
    } else {
        assert(rack_at(catalogue, name, i));
    }
}

/// The wire form of an orphaned type names its status and leaves the rest as it is.
pub open spec fn orphan_shown(w: GrammarOrphanWire, row: PersistedGrammarOrphan) -> bool {
    &&& w.subject_type == row.subject_type
    &&& w.first_observed_at_ms == row.first_observed_at_ms
    &&& w.last_observed_at_ms == row.last_observed_at_ms
    &&& w.count == row.count
    &&& status_named(w.status@, row.status)
    &&& w.accepted_reason == row.accepted_reason
    &&& w.accepted_at_ms == row.accepted_at_ms
    &&& w.migration_id == row.migration_id
}

/// The name of a status.
pub open spec fn status_named(name: Seq<char>, status: GrammarOrphanStatus) -> bool {
    &&& status is Pending ==> name == "pending"@
    &&& status is Migrating ==> name == "migrating"@
    &&& status is Resolved ==> name == "resolved"@
    &&& status is Accepted ==> name == "accepted"@
    &&& status is Recovered ==> name == "recovered"@
}

/// An orphaned type is shown as it is stored.
pub proof fn law_orphans_are_shown(
    row: PersistedGrammarOrphan,
    w: GrammarOrphanWire,
    status: GrammarOrphanStatus,
    name: &'static str,
)
    requires
        call_ensures(project_grammar_orphan, (&row,), w),
        call_ensures(GrammarOrphanStatus::as_str, (status,), name),
    ensures
        orphan_shown(w, row),
        status_named(name@, status),
{
}

/// The orphaned types are listed, all of them and nothing else, in the order of their
/// names; a failing store is reported.
pub proof fn law_orphans_are_listed(
    outcome: Result<Vec<PersistedGrammarOrphan>, String>,
    r: ClientResponse,
)
    requires
        call_ensures(list_grammar_orphans_reply, (outcome,), r),
    ensures
        outcome is Err ==> refuses(
            r,
            ErrorClass::Internal,
            "list_grammar_orphans"@ + ": persistence: "@ + outcome->Err_0@,
            "persistence_error"@,
        ),
        outcome is Ok ==> ({
            &&& r is GrammarOrphans
            &&& r->grammar_orphans
            &&& r->GrammarOrphans_entries@.len() == outcome->Ok_0@.len()
            &&& forall|i: int|
                0 <= i < r->GrammarOrphans_entries@.len() ==> exists|k: int|
                    0 <= k < outcome->Ok_0@.len() && orphan_shown(
                        #[trigger] r->GrammarOrphans_entries@[i],
                        #[trigger] outcome->Ok_0@[k],
                    )
            &&& forall|k: int|
                0 <= k < outcome->Ok_0@.len() ==> exists|i: int|
                    0 <= i < r->GrammarOrphans_entries@.len() && orphan_shown(
                        #[trigger] r->GrammarOrphans_entries@[i],
                        #[trigger] outcome->Ok_0@[k],
                    )
            &&& forall|i: int, j: int|
                0 <= i < j < r->GrammarOrphans_entries@.len() ==> !text_lt(
                    (#[trigger] r->GrammarOrphans_entries@[j]).subject_type@,
                    (#[trigger] r->GrammarOrphans_entries@[i]).subject_type@,
                )
        }),
{
    if outcome is Ok {
        let rows = outcome->Ok_0@;
        let sorted = ordered(rows);
        let shown = r->GrammarOrphans_entries@;
        law_ordered(rows);
        broadcast use vstd::seq_lib::group_to_multiset_ensures;

        assert forall|i: int| 0 <= i < shown.len() implies exists|k: int|
            0 <= k < rows.len() && orphan_shown(#[trigger] shown[i], #[trigger] rows[k]) by {
            assert(sorted.contains(sorted[i]));
            assert(sorted.to_multiset().count(sorted[i]) > 0);
            assert(rows.contains(sorted[i]));
            let k = choose|k: int| 0 <= k < rows.len() && rows[k] == sorted[i];
            assert(orphan_shown(shown[i], rows[k]));
        }
        assert forall|k: int| 0 <= k < rows.len() implies exists|i: int|
            0 <= i < shown.len() && orphan_shown(#[trigger] shown[i], #[trigger] rows[k]) by {
            assert(rows.contains(rows[k]));
            assert(rows.to_multiset().count(rows[k]) > 0);
            assert(sorted.contains(rows[k]));
            let i = choose|i: int| 0 <= i < sorted.len() && sorted[i] == rows[k];
            assert(orphan_shown(shown[i], rows[k]));
        }
        assert forall|i: int, j: int| 0 <= i < j < shown.len() implies !text_lt(
            (#[trigger] shown[j]).subject_type@,
            (#[trigger] shown[i]).subject_type@,
        ) by {
            assert(!parts_lt(sorted[j].parts(), sorted[i].parts()));
            lemma_lex_irreflexive(encode_utf8(sorted[i].subject_type@));
        }
    }
}

/// Accepting an orphaned type tells whether anything changed, and only a change is
/// announced. A type that is being migrated is told apart from one that is unknown.
pub proof fn law_acceptance_is_announced_once(
    from_type: String,
    reason: String,
    now: SystemTime,
    outcome: Result<bool, PersistenceFailure>,
    r: (ClientResponse, Option<Happening>),
)
    requires
        call_ensures(accept_grammar_orphans_reply, (from_type, reason, now, outcome), r),
    ensures
        outcome is Ok ==> ({
            &&& r.0 is GrammarOrphansAccepted
            &&& r.0->grammar_orphans_accepted
            &&& r.0->GrammarOrphansAccepted_from_type == from_type
            &&& r.0->accepted == outcome->Ok_0
            &&& r.1 is Some <==> outcome->Ok_0
        }),
        r.1 is Some ==> r.1 == Some(
            Happening::GrammarOrphansAccepted { subject_type: from_type, reason, at: now },
        ),
        outcome is Err ==> r.1 is None,
        outcome is Err && outcome->Err_0 is Invalid ==> ({
            let why = outcome->Err_0->Invalid_0@;
            if contains_text(why, "in-flight migration"@) {
                refuses(
                    r.0,
                    ErrorClass::ContractViolation,
                    "accept_grammar_orphans: "@ + why,
                    "migration_in_flight"@,
                )
            } else {
                refuses(
                    r.0,
                    ErrorClass::NotFound,
                    "accept_grammar_orphans: "@ + why,
                    "not_found"@,
                )
            }
        }),
        outcome is Err && outcome->Err_0 is Other ==> refuses(
            r.0,
            ErrorClass::Internal,
            "accept_grammar_orphans"@ + ": persistence: "@ + outcome->Err_0->Other_0@,
            "persistence_error"@,
        ),
{
}

/// A migration is what the request asks for.
pub proof fn law_migrations_are_what_is_asked(
    from_type: String,
    strategy: MigrationStrategyWire,
    dry_run: bool,
    batch_size: Option<u32>,
    max_subjects: Option<u32>,
    reason: Option<String>,
    r: MigrateRequest,
)
    requires
        call_ensures(
            migrate_request,
            (from_type, strategy, dry_run, batch_size, max_subjects, reason),
            r,
        ),
    ensures
        r.from_type == from_type,
        rules_followed(r.strategy) == rules_asked(strategy),
        r.dry_run == dry_run,
        r.reason == reason,
        r.batch_size is Some <==> batch_size is Some,
        batch_size is Some ==> r.batch_size->Some_0 as int == batch_size->Some_0 as int,
        r.max_subjects == max_subjects,
{
    if let MigrationStrategyWire::Mapping { mapping, .. } = strategy {
        assert(mapping@.map_values(|e: MapMappingEntry| (e.value, e.to_type)) =~= Seq::new(
            mapping@.len(),
            |i: int| (mapping@[i].value, mapping@[i].to_type),
        ));
    }
}

/// The declared types are the catalogue's, in its order.
pub proof fn law_declared_types_are_the_catalogues(catalogue: Catalogue, r: Vec<String>)
    requires
        call_ensures(declared_types, (&catalogue,), r),
    ensures
        r@.len() == catalogue.subjects@.len(),
        forall|i: int|
            0 <= i < catalogue.subjects@.len() ==> #[trigger] r@[i] == catalogue.subjects@[i].name,
{
}

/// A migration is answered with all that it did; a refusal says what it was refused for.
pub proof fn law_migrations_are_told(
    outcome: Result<MigrateOutcome, MigrateError>,
    r: ClientResponse,
)
    requires
        call_ensures(migrate_grammar_orphans_reply, (outcome,), r),
    ensures
        outcome is Ok ==> ({
            let o = outcome->Ok_0;
            &&& r is GrammarMigrationCompleted
            &&& r->grammar_migration
            &&& r->migration_id == o.migration_id
            &&& r->GrammarMigrationCompleted_from_type == o.from_type
            &&& r->migrated_count == o.migrated_count
            &&& r->unmigrated_count == o.unmigrated_count
            &&& r->unmigrated_sample == o.unmigrated_sample
            &&& r->GrammarMigrationCompleted_duration_ms == o.duration_ms
            &&& r->GrammarMigrationCompleted_dry_run == o.dry_run
            &&& r->target_type_breakdown@.len() == o.target_type_breakdown@.len()
            &&& forall|i: int|
                0 <= i < o.target_type_breakdown@.len() ==> (
                #[trigger] r->target_type_breakdown@[i]).to_type == o.target_type_breakdown@[i].0
                    && r->target_type_breakdown@[i].count == o.target_type_breakdown@[i].1
            &&& r->sample_first == o.sample_first
            &&& r->sample_last == o.sample_last
        }),
        outcome is Err ==> match outcome->Err_0 {
            MigrateError::NotAnOrphan { from_type } => refuses(
                r,
                ErrorClass::ContractViolation,
                "migrate_grammar_orphans: "@ + debug_text(from_type@)
                    + " is not an orphan in this catalogue"@,
                "not_an_orphan"@,
            ),
            MigrateError::UndeclaredTargetType { to_type } => refuses(
                r,
                ErrorClass::ContractViolation,
                "migrate_grammar_orphans: target type "@ + debug_text(to_type@)
                    + " is not declared in the loaded catalogue"@,
                "undeclared_target_type"@,
            ),
            MigrateError::StrategyNotYetImplemented { strategy } => refuses(
                r,
                ErrorClass::Unavailable,
                "migrate_grammar_orphans: strategy "@ + debug_text(strategy@)
                    + " is wire-stable but its runtime evaluator is not yet implemented in this build"@,
                "strategy_not_yet_implemented"@,
            ),
            MigrateError::Persistence(text) => refuses(
                r,
                ErrorClass::Internal,
                "migrate_grammar_orphans"@ + ": persistence: "@ + text@,
                "persistence_error"@,
            ),
        },
{
}

/// A client's request reaches the router as it is, with its payload decoded and an id of
/// its own; one whose payload is no base64 is refused and uses up no id.
pub proof fn law_requests_reach_the_router(
    ids: &mut CorrelationIds,
    request_type: String,
    payload_b64: &str,
    instance_id: Option<String>,
    r: Result<PluginRequest, ApiError>,
)
    requires
        call_ensures(prepare_plugin_request, (ids, request_type, payload_b64, instance_id), r),
    ensures
        r is Ok ==> ({
            &&& base64_decoded(payload_b64@) == Ok::<Seq<u8>, Seq<char>>(r->Ok_0.payload@)
            &&& r->Ok_0.request_type == request_type
            &&& r->Ok_0.instance_id == instance_id
            &&& r->Ok_0.correlation_id == old(ids).next
            &&& final(ids).next != old(ids).next
        }),
        r is Err ==> ({
            &&& base64_decoded(payload_b64@) is Err
            &&& says(
                r->Err_0,
                ErrorClass::ContractViolation,
                "invalid base64 payload: "@ + base64_decoded(payload_b64@)->Err_0,
                "invalid_base64"@,
            )
            &&& final(ids).next == old(ids).next
        }),
{
    if r is Err {
        let why = base64_decoded(payload_b64@)->Err_0;
        reveal_strlit("");
        assert(""@ + "invalid base64 payload: "@ + why =~= "invalid base64 payload: "@ + why);
    }
}

/// The payload says outright that the mode is to be off.
pub open spec fn says_off(v: Value) -> bool {
    &&& value_fields(v) is Some
    &&& value_fields(v)->Some_0.contains_key("on"@)
    &&& value_bool(value_fields(v)->Some_0["on"@]) == Some(false)
}

/// A payload turns the flight mode on unless it says outright that it is to be off.
pub proof fn law_flight_mode_is_on_unless_told_off(
    parsed: Option<&Value>,
    on: bool,
    payload: &[u8],
    read: bool,
)
    requires
        call_ensures(flight_mode_on, (parsed,), on),
        call_ensures(parse_flight_mode_set_on, (payload,), read),
    ensures
        !on <==> parsed is Some && says_off(*parsed->Some_0),
        !read <==> bytes_value(payload@) is Some && says_off(bytes_value(payload@)->Some_0),
{
}

/// A change of flight mode is announced for `flight_mode.set` on a `flight_mode.` shelf,
/// with the shelf, the state that was asked for and the time; nothing else is announced.
pub open spec fn announces(
    h: Option<Happening>,
    shelf: Seq<char>,
    request_type: Seq<char>,
    payload: Seq<u8>,
    now: SystemTime,
) -> bool {
    &&& h is Some <==> request_type == "flight_mode.set"@ && "flight_mode."@.len() <= shelf.len()
        && shelf.take("flight_mode."@.len() as int) == "flight_mode."@
    &&& h is Some ==> ({
        &&& h->Some_0 is FlightModeChanged
        &&& h->Some_0->rack_class@ == shelf
        &&& h->Some_0->on <==> !(bytes_value(payload) is Some && says_off(
            bytes_value(payload)->Some_0,
        ))
        &&& h->Some_0->FlightModeChanged_at == now
    })
}

proof fn lemma_flight_shelf(shelf: Seq<char>)
    ensures
        "flight_mode."@.is_prefix_of(shelf) <==> "flight_mode."@.len() <= shelf.len()
            && shelf.take("flight_mode."@.len() as int) == "flight_mode."@,
{
    if "flight_mode."@.is_prefix_of(shelf) {
        assert(shelf.take("flight_mode."@.len() as int) =~= "flight_mode."@);
    }
}

/// A change of flight mode is announced, and nothing else is.
pub proof fn law_flight_mode_changes_are_announced(
    shelf: &str,
    request_type: &str,
    payload: &[u8],
    now: SystemTime,
    r: Option<Happening>,
)
    requires
        call_ensures(post_dispatch_happening, (shelf, request_type, payload, now), r),
    ensures
        announces(r, shelf@, request_type@, payload@, now),
{
    lemma_flight_shelf(shelf@);
}

/// A plugin's answer reaches the client in base64, and what it changed is announced; a
/// failure is passed on, and announced nowhere.
pub proof fn law_plugin_answers_reach_the_client(
    shelf: &str,
    request_type: &str,
    payload: &[u8],
    now: SystemTime,
    outcome: Result<Vec<u8>, StewardFailure>,
    r: (ClientResponse, Option<Happening>),
)
    requires
        call_ensures(plugin_request_reply, (shelf, request_type, payload, now, outcome), r),
    ensures
        outcome is Ok ==> ({
            &&& r.0 is Success
            &&& r.0->payload_b64@ == base64_text(outcome->Ok_0@)
            &&& base64_decoded(r.0->payload_b64@) == Ok::<Seq<u8>, Seq<char>>(outcome->Ok_0@)
            &&& announces(r.1, shelf@, request_type@, payload@, now)
        }),
        outcome is Err ==> r.0 is Error && passes_on(r.0->error, outcome->Err_0) && r.1 is None,
{
    lemma_flight_shelf(shelf@);
}

}
