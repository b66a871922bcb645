//! Laws of the wire: frames, the names on it, and what a build says of itself.

use crate::access::ConnectionState;
use crate::capabilities::{
    build_coalesce_labels_map, describe_capabilities, features, labelled, labels_of,
    law_advertised_kinds, shown, supported_features, StaticLabels,
};
use crate::catalogue::{Catalogue, CatalogueSource, TimeTrust};
use crate::claimant::ClaimantTokenIssuer;
use crate::dispatch::{dispatch_request, Desk, Plan, Wiring};
use crate::frames::{
    be_bytes, be_value, frame_header, frame_length, next_body, FrameError, HeaderRead,
};
use crate::happenings::{happening_kinds, kinds, law_kinds_are_complete, Happening};
use crate::laws::dispatch::{
    rules_asked, rules_followed, scope_asked, scope_walked, source_asked, source_read,
};
use crate::projections::{ProjectionScope, ProjectionScopeWire};
use crate::requests::{
    client_request_op_tag, default_follow_aliases, default_include_chain,
    law_every_op_is_supported, supported, supported_ops, ClientRequest, HappeningFilter,
    HappeningFilterWire, ManifestSource, MapMappingEntry, MigrationStrategy,
    MigrationStrategyWire, ReloadSourceWire,
};
use crate::responses::{ClientResponse, KindLabels};
use crate::text::decimal;
use std::time::SystemTime;
use vstd::prelude::*;
use vstd::std_specs::convert::FromSpec;

verus! {

/// The length that a header announces: its bytes, the most significant first.
pub open spec fn announced(header: Seq<u8>) -> int {
    ((header[0] * 256 + header[1]) * 256 + header[2]) * 256 + header[3]
}

/// The length is read, and refused where it is zero or over 64 MiB.
pub open spec fn length_read(header: Seq<u8>, r: Result<usize, FrameError>) -> bool {
    &&& announced(header) == 0 ==> r is Err && r->Err_0 is ZeroLength
    &&& 0 < announced(header) <= 64 * 1024 * 1024 ==> r is Ok && r->Ok_0 == announced(header)
    &&& announced(header) > 64 * 1024 * 1024 ==> r is Err && r->Err_0 is TooLarge
        && r->Err_0->len == announced(header)
}

/// A header is read for the length of its frame, and an end of the connection is clean
/// only between two frames.
pub proof fn law_headers_are_read(
    header: [u8; 4],
    length: Result<usize, FrameError>,
    read: HeaderRead,
    next: Result<Option<usize>, FrameError>,
)
    requires
        call_ensures(frame_length, (header,), length),
        call_ensures(next_body, (read,), next),
    ensures
        length_read(header@, length),
        match read {
            HeaderRead::Complete(h) => match next {
                Ok(Some(n)) => length_read(h@, Ok(n)),
                Ok(None) => false,
                Err(e) => length_read(h@, Err(e)),
            },
            HeaderRead::Closed { after } => {
                &&& after == 0 ==> next is Ok && next->Ok_0 is None
                &&& after > 0 ==> next is Err && next->Err_0 is TruncatedHeader
            },
            HeaderRead::Failed { text } => next is Err && next->Err_0 is Read
                && next->Err_0->text@ == text@,
        },
{
}

/// A header announces the length that it was made for; a body that no header can announce
/// is too large.
pub proof fn law_headers_announce_their_bodies(len: usize, r: Result<[u8; 4], FrameError>)
    requires
        call_ensures(frame_header, (len,), r),
    ensures
        r is Ok <==> len <= u32::MAX,
        r is Ok ==> announced(r->Ok_0@) == len,
        r is Err ==> r->Err_0 is ResponseTooLarge,
{
    if r is Ok {
        crate::frames::law_header_round_trip(len as int);
        let h = r->Ok_0@;
        assert(h == be_bytes(len as int));
        assert(be_value(h) == len);
    }
}

/// An error of a frame says what is wrong with it.
pub proof fn law_frame_errors_say_what_is_wrong(e: FrameError, text: String)
    requires
        call_ensures(FrameError::to_text, (&e,), text),
    ensures
        e is ZeroLength ==> text@ == "zero-length frame"@,
        e is TooLarge ==> text@ == "frame too large: "@ + decimal(e->len as nat) + " bytes (max "@
            + decimal(67_108_864) + ")"@,
        e is TruncatedHeader ==> text@ == "reading frame length: unexpected end of file"@,
        e is Read ==> text@ == "reading frame length: "@ + e->text@,
        e is ResponseTooLarge ==> text@ == "response too large"@,
{
}

/// The name of a tier of the catalogue.
pub open spec fn tier_named(name: Seq<char>, source: CatalogueSource) -> bool {
    &&& source is Configured ==> name == "configured"@
    &&& source is Lkg ==> name == "lkg"@
    &&& source is Builtin ==> name == "builtin"@
}

/// The name of a state of the clock.
pub open spec fn trust_named(name: Seq<char>, trust: TimeTrust) -> bool {
    &&& trust is Untrusted ==> name == "untrusted"@
    &&& trust is Trusted ==> name == "trusted"@
    &&& trust is Stale ==> name == "stale"@
    &&& trust is Adjusting ==> name == "adjusting"@
}

/// A tier of the catalogue and a state of the clock go by their names, and a catalogue
/// begins empty.
pub proof fn law_boot_facts_go_by_their_names(
    source: CatalogueSource,
    tier: &'static str,
    trust: TimeTrust,
    state: &'static str,
    catalogue: Catalogue,
)
    requires
        call_ensures(CatalogueSource::as_str, (source,), tier),
        call_ensures(TimeTrust::as_str, (trust,), state),
        call_ensures(<Catalogue as Default>::default, (), catalogue),
    ensures
        tier_named(tier@, source),
        trust_named(state@, trust),
        catalogue.racks@.len() == 0,
        catalogue.subjects@.len() == 0,
{
}

/// These are the features of the build, in the order in which they were added.
pub open spec fn feature_names(names: Seq<&'static str>) -> bool {
    &&& names.len() == 17
    &&& names[0]@ == "subscribe_happenings_cursor"@
    &&& names[1]@ == "alias_chain_walking"@
    &&& names[2]@ == "active_custodies_snapshot"@
    &&& names[3]@ == "paginated_state_snapshots"@
    &&& names[4]@ == "capability_negotiation"@
    &&& names[5]@ == "subscribe_subject_push"@
    &&& names[6]@ == "rack_structural_projection"@
    &&& names[7]@ == "plugin_inventory"@
    &&& names[8]@ == "catalogue_resilience"@
    &&& names[9]@ == "clock_trust_signal"@
    &&& names[10]@ == "plugins_admin_lifecycle"@
    &&& names[11]@ == "operator_reload_verbs"@
    &&& names[12]@ == "reconciliation_pairs"@
    &&& names[13]@ == "user_interaction_routing"@
    &&& names[14]@ == "appointment_scheduling"@
    &&& names[15]@ == "condition_driven_watches"@
    &&& names[16]@ == "grammar_orphan_admin"@
}

proof fn lemma_features(names: Seq<&'static str>)
    requires
        names.len() == features().len(),
        forall|i: int| 0 <= i < names.len() ==> (#[trigger] names[i])@ == features()[i],
    ensures
        feature_names(names),
{
}

/// The operations that are advertised are those of the requests.
pub proof fn law_every_request_is_advertised(
    req: ClientRequest,
    tag: &'static str,
    ops: Vec<&'static str>,
    named: Vec<&'static str>,
)
    requires
        call_ensures(client_request_op_tag, (&req,), tag),
        call_ensures(supported_ops, (), ops),
        call_ensures(supported_features, (), named),
    ensures
        exists|i: int| 0 <= i < ops@.len() && (#[trigger] ops@[i])@ == tag@,
        feature_names(named@),
{
    law_every_op_is_supported(req);
    let i = choose|i: int| 0 <= i < supported().len() && supported()[i] == req.op();
    assert(supported()[i] == tag@);
    assert(ops@[i]@ == tag@);
    assert forall|i: int| 0 <= i < named@.len() implies (#[trigger] named@[i])@
        == features()[i] by {
        assert(features()[i] == named@[i]@);
    }
    lemma_features(named@);
}

/// Every happening's kind is listed.
pub proof fn law_every_kind_is_listed(
    h: Happening,
    kind: &'static str,
    all: Vec<&'static str>,
)
    requires
        call_ensures(Happening::kind, (&h,), kind),
        call_ensures(happening_kinds, (), all),
    ensures
        exists|i: int| 0 <= i < all@.len() && (#[trigger] all@[i])@ == kind@,
{
    law_kinds_are_complete(h);
    let i = choose|i: int| 0 <= i < kinds().len() && kinds()[i] == kind@;
    assert(kinds()[i] == kind@);
    assert(all@[i]@ == kind@);
}

/// The row is the table's first for the kind, and has labels.
pub open spec fn row_for(table: Seq<StaticLabels>, kind: Seq<char>, k: int) -> bool {
    &&& 0 <= k < table.len()
    &&& table[k].kind@ == kind
    &&& table[k].labels@.len() > 0
    &&& forall|j: int| 0 <= j < k ==> (#[trigger] table[j]).kind@ != kind
}

/// The entry shows the labels of the row for its kind.
pub open spec fn entry_shown(entry: KindLabels, table: Seq<StaticLabels>) -> bool {
    exists|k: int| #[trigger]
        row_for(table, entry.kind@, k) && table[k].labels@ == entry.labels@
}

/// The list has an entry for the kind.
pub open spec fn kind_shown(list: Seq<KindLabels>, kind: Seq<char>) -> bool {
    exists|i: int| 0 <= i < list.len() && (#[trigger] list[i]).kind@ == kind
}

/// The list shows the kinds that have labels, each with the labels of its row, in the
/// order of the kinds.
pub open spec fn labels_shown(
    list: Seq<KindLabels>,
    table: Seq<StaticLabels>,
    all: Seq<&'static str>,
) -> bool {
    &&& forall|i: int| 0 <= i < list.len() ==> entry_shown(#[trigger] list[i], table)
    &&& forall|j: int, k: int|
        0 <= j < all.len() && #[trigger] row_for(table, all[j]@, k) ==> kind_shown(list, all[j]@)
    &&& forall|i: int, j: int|
        0 <= i < j < list.len() ==> stand_in_order(
            all.map_values(|s: &'static str| s@),
            (#[trigger] list[i]).kind@,
            (#[trigger] list[j]).kind@,
        )
}

/// The one stands in the list before the other.
pub open spec fn stand_in_order(all: Seq<Seq<char>>, one: Seq<char>, other: Seq<char>) -> bool {
    exists|p: int, q: int|
        0 <= p < q < all.len() && #[trigger] all[p] == one && #[trigger] all[q] == other
}

proof fn lemma_labelled_in_order(table: Seq<StaticLabels>, among: Seq<Seq<char>>, i: int, j: int)
    requires
        0 <= i < j < labelled(table, among).len(),
    ensures
        stand_in_order(among, labelled(table, among)[i].0, labelled(table, among)[j].0),
    decreases among.len(),
{
    let rest = among.drop_last();
    let before = labelled(table, rest);
    let one = labelled(table, among)[i].0;
    let other = labelled(table, among)[j].0;
    if j < before.len() {
        lemma_labelled_in_order(table, rest, i, j);
        let (p, q) = choose|p: int, q: int|
            0 <= p < q < rest.len() && #[trigger] rest[p] == one && #[trigger] rest[q] == other;
        assert(among[p] == one && among[q] == other);
    } else {
        law_advertised_kinds(table, rest, one);
        assert(before[i].0 == one);
        let p = choose|p: int| 0 <= p < rest.len() && rest[p] == one;
        assert(among[p] == one && among[among.len() - 1] == other);
    }
}

proof fn lemma_row(table: Seq<StaticLabels>, kind: Seq<char>)
    ensures
        labels_of(table, kind).len() > 0 ==> exists|k: int| #[trigger]
            row_for(table, kind, k) && table[k].labels@ == labels_of(table, kind),
        (exists|k: int| #[trigger] row_for(table, kind, k)) ==> labels_of(table, kind).len() > 0,
    decreases table.len(),
{
    if table.len() > 0 {
        if table[0].kind@ == kind {
            if table[0].labels@.len() > 0 {
                assert(row_for(table, kind, 0));
            }
            if exists|k: int| #[trigger] row_for(table, kind, k) {
                let k = choose|k: int| #[trigger] row_for(table, kind, k);
                if k > 0 {
                    assert(table[0].kind@ != kind);
                }
            }
        } else {
            let rest = table.drop_first();
            lemma_row(rest, kind);
            if labels_of(rest, kind).len() > 0 {
                let k = choose|k: int| #[trigger]
                    row_for(rest, kind, k) && rest[k].labels@ == labels_of(rest, kind);
                assert forall|j: int| 0 <= j < k + 1 implies (#[trigger] table[j]).kind@
                    != kind by {
                    if j > 0 {
                        assert(rest[j - 1].kind@ != kind);
                    }
                }
                assert(row_for(table, kind, k + 1));
            }
            if exists|k: int| #[trigger] row_for(table, kind, k) {
                let k = choose|k: int| #[trigger] row_for(table, kind, k);
                assert(k > 0);
                assert forall|j: int| 0 <= j < k - 1 implies (#[trigger] rest[j]).kind@
                    != kind by {
                    assert(table[j + 1].kind@ != kind);
                }
                assert(row_for(rest, kind, k - 1));
            }
        }
    }
}

proof fn lemma_labelled(table: Seq<StaticLabels>, among: Seq<Seq<char>>, i: int)
    requires
        0 <= i < labelled(table, among).len(),
    ensures
        labelled(table, among)[i].1 == labels_of(table, labelled(table, among)[i].0),
        labelled(table, among)[i].1.len() > 0,
    decreases among.len(),
{
    let before = labelled(table, among.drop_last());
    if i < before.len() {
        lemma_labelled(table, among.drop_last(), i);
    }
}

proof fn lemma_labels_shown(
    list: Seq<KindLabels>,
    table: Seq<StaticLabels>,
    all: Seq<&'static str>,
)
    requires
        shown(list) == labelled(table, kinds()),
        all.len() == kinds().len(),
        forall|i: int| 0 <= i < all.len() ==> (#[trigger] all[i])@ == kinds()[i],
    ensures
        labels_shown(list, table, all),
{
    let rows = labelled(table, kinds());
    assert forall|i: int| 0 <= i < list.len() implies entry_shown(#[trigger] list[i], table) by {
        assert(shown(list)[i] == (list[i].kind@, list[i].labels@));
        lemma_labelled(table, kinds(), i);
        lemma_row(table, list[i].kind@);
    }
    assert forall|j: int, k: int|
        0 <= j < all.len() && #[trigger] row_for(table, all[j]@, k) implies kind_shown(
        list,
        all[j]@,
    ) by {
        let kind = all[j]@;
        lemma_row(table, kind);
        assert(kinds()[j] == kind);
        assert(kinds().contains(kind));
        law_advertised_kinds(table, kinds(), kind);
        let i = choose|i: int| 0 <= i < rows.len() && (#[trigger] rows[i]).0 == kind;
        assert(shown(list)[i] == (list[i].kind@, list[i].labels@));
        assert(list[i].kind@ == kind);
    }
    let names = all.map_values(|s: &'static str| s@);
    assert(names =~= kinds());
    assert forall|i: int, j: int| 0 <= i < j < list.len() implies stand_in_order(
        names,
        (#[trigger] list[i]).kind@,
        (#[trigger] list[j]).kind@,
    ) by {
        assert(shown(list)[i] == (list[i].kind@, list[i].labels@));
        assert(shown(list)[j] == (list[j].kind@, list[j].labels@));
        lemma_labelled_in_order(table, kinds(), i, j);
    }
}

/// The labels are those of the table, for the kinds that there are.
pub proof fn law_labels_are_the_tables(
    table: Vec<StaticLabels>,
    list: Vec<KindLabels>,
    all: Vec<&'static str>,
)
    requires
        call_ensures(build_coalesce_labels_map, (&table,), list),
        call_ensures(happening_kinds, (), all),
    ensures
        labels_shown(list@, table@, all@),
{
    assert forall|i: int| 0 <= i < all@.len() implies (#[trigger] all@[i])@ == kinds()[i] by {
        assert(kinds()[i] == all@[i]@);
    }
    lemma_labels_shown(list@, table@, all@);
}

/// The response says what the build supports, in version 1 of the protocol, and what it
/// found at boot.
pub open spec fn describes(
    r: ClientResponse,
    source: CatalogueSource,
    trust: TimeTrust,
    has_battery_rtc: bool,
    table: Seq<StaticLabels>,
    tag: Seq<char>,
    all: Seq<&'static str>,
) -> bool {
    &&& r is Capabilities
    &&& r->capabilities
    &&& r->wire_version == 1
    &&& exists|i: int| 0 <= i < r->ops@.len() && (#[trigger] r->ops@[i])@ == tag
    &&& feature_names(r->features@)
    &&& tier_named(r->catalogue_source@, source)
    &&& trust_named(r->clock_trust@, trust)
    &&& r->has_battery_rtc == has_battery_rtc
    &&& labels_shown(r->coalesce_labels@, table, all)
}

proof fn lemma_describes(
    r: ClientResponse,
    source: CatalogueSource,
    trust: TimeTrust,
    has_battery_rtc: bool,
    table: Seq<StaticLabels>,
    req: ClientRequest,
    tag: &'static str,
    all: Vec<&'static str>,
)
    requires
        r is Capabilities,
        r->capabilities,
        r->wire_version == 1,
        r->ops@.map_values(|s: &'static str| s@) == supported(),
        r->features@.map_values(|s: &'static str| s@) == features(),
        tier_named(r->catalogue_source@, source),
        trust_named(r->clock_trust@, trust),
        r->has_battery_rtc == has_battery_rtc,
        shown(r->coalesce_labels@) == labelled(table, kinds()),
        call_ensures(client_request_op_tag, (&req,), tag),
        call_ensures(happening_kinds, (), all),
    ensures
        describes(r, source, trust, has_battery_rtc, table, tag@, all@),
{
    law_every_op_is_supported(req);
    let i = choose|i: int| 0 <= i < supported().len() && supported()[i] == req.op();
    assert(supported()[i] == tag@);
    assert(r->ops@[i]@ == tag@);
    assert forall|i: int| 0 <= i < r->features@.len() implies (#[trigger] r->features@[i])@
        == features()[i] by {
        assert(features()[i] == r->features@[i]@);
    }
    lemma_features(r->features@);
    assert forall|i: int| 0 <= i < all@.len() implies (#[trigger] all@[i])@ == kinds()[i] by {
        assert(kinds()[i] == all@[i]@);
    }
    lemma_labels_shown(r->coalesce_labels@, table, all@);
}

/// A build says what it supports and what it found at boot.
pub proof fn law_builds_describe_themselves(
    source: CatalogueSource,
    trust: TimeTrust,
    has_battery_rtc: bool,
    table: Vec<StaticLabels>,
    r: ClientResponse,
    req: ClientRequest,
    tag: &'static str,
    all: Vec<&'static str>,
)
    requires
        call_ensures(describe_capabilities, (source, trust, has_battery_rtc, &table), r),
        call_ensures(client_request_op_tag, (&req,), tag),
        call_ensures(happening_kinds, (), all),
    ensures
        describes(r, source, trust, has_battery_rtc, table@, tag@, all@),
{
    lemma_describes(r, source, trust, has_battery_rtc, table@, req, tag, all);
}

/// A client that asks is told what the server's build supports and what the server found
/// at boot.
pub proof fn law_clients_are_told_what_is_supported(
    desk: &mut Desk,
    issuer: &ClaimantTokenIssuer,
    wiring: Wiring,
    conn: &mut ConnectionState,
    now: SystemTime,
    plan: Plan,
    req: ClientRequest,
    tag: &'static str,
    all: Vec<&'static str>,
)
    requires
        call_ensures(
            dispatch_request,
            (ClientRequest::DescribeCapabilities, desk, issuer, wiring, conn, now),
            plan,
        ),
        call_ensures(client_request_op_tag, (&req,), tag),
        call_ensures(happening_kinds, (), all),
    ensures
        plan is Reply,
        describes(
            plan->Reply_0,
            old(desk).catalogue_source,
            old(desk).clock_trust,
            old(desk).has_battery_rtc,
            old(desk).labels@,
            tag@,
            all@,
        ),
{
    lemma_describes(
        plan->Reply_0,
        old(desk).catalogue_source,
        old(desk).clock_trust,
        old(desk).has_battery_rtc,
        old(desk).labels@,
        req,
        tag,
        all,
    );
}

/// What a request leaves out is taken for the usual: aliases are followed and chains
/// shown, a filter permits everything, and a walk starts nowhere in particular.
pub proof fn law_what_is_left_out_is_the_usual(
    follow: bool,
    chain: bool,
    filter: HappeningFilterWire,
    scope: ProjectionScopeWire,
)
    requires
        call_ensures(default_follow_aliases, (), follow),
        call_ensures(default_include_chain, (), chain),
        call_ensures(<HappeningFilterWire as Default>::default, (), filter),
        call_ensures(<ProjectionScopeWire as Default>::default, (), scope),
    ensures
        follow,
        chain,
        filter.variants@.len() == 0,
        filter.plugins@.len() == 0,
        filter.shelves@.len() == 0,
        scope.relation_predicates@.len() == 0,
        scope.max_depth is None,
        scope.max_visits is None,
        scope_asked(scope).direction == "forward"@,
{
}

/// The wire forms of a source, a strategy, a filter and a scope stand for what they say.
pub proof fn law_wire_forms_stand_for_what_they_say(
    source: ReloadSourceWire,
    manifest: ManifestSource,
    strategy: MigrationStrategyWire,
    rules: MigrationStrategy,
    filter: HappeningFilterWire,
    scope: ProjectionScopeWire,
)
    requires
        call_ensures(ReloadSourceWire::into_manifest_source, (source,), manifest),
        call_ensures(MigrationStrategyWire::into_strategy, (strategy,), rules),
    ensures
        source_read(manifest) == source_asked(source),
        rules_followed(rules) == rules_asked(strategy),
        <HappeningFilter as FromSpec<HappeningFilterWire>>::from_spec(filter).variants
            == filter.variants,
        <HappeningFilter as FromSpec<HappeningFilterWire>>::from_spec(filter).plugins
            == filter.plugins,
        <HappeningFilter as FromSpec<HappeningFilterWire>>::from_spec(filter).shelves
            == filter.shelves,
        scope_walked(
            <ProjectionScope as FromSpec<ProjectionScopeWire>>::from_spec(scope),
        ) == scope_asked(scope),
{
    if let MigrationStrategyWire::Mapping { mapping, .. } = strategy {
        assert(mapping@.map_values(|e: MapMappingEntry| (e.value, e.to_type)) =~= Seq::new(
            mapping@.len(),
            |i: int| (mapping@[i].value, mapping@[i].to_type),
        ));
    }
}

}
