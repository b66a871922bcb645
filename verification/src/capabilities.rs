//! Capability discovery: what this build supports.

use crate::catalogue::{CatalogueSource, TimeTrust};
use crate::happenings::{happening_kinds, kinds};
use crate::requests::{supported, supported_ops};
use crate::responses::{ClientResponse, KindLabels};
use crate::text::same_text;
use vstd::prelude::*;

verus! {

/// The version of the wire protocol. A new operation or feature does not change
/// it.
pub const CLIENT_WIRE_VERSION: u16 = 1;

/// The features that this build supports. New ones are appended.
pub open spec fn features() -> Seq<Seq<char>> {
    seq![
        "subscribe_happenings_cursor"@,
        "alias_chain_walking"@,
        "active_custodies_snapshot"@,
        "paginated_state_snapshots"@,
        "capability_negotiation"@,
        "subscribe_subject_push"@,
        "rack_structural_projection"@,
        "plugin_inventory"@,
        "catalogue_resilience"@,
        "clock_trust_signal"@,
        "plugins_admin_lifecycle"@,
        "operator_reload_verbs"@,
        "reconciliation_pairs"@,
        "user_interaction_routing"@,
        "appointment_scheduling"@,
        "condition_driven_watches"@,
        "grammar_orphan_admin"@,
    ]
}

/// The features that this build supports.
pub fn supported_features() -> (r: Vec<&'static str>)
    ensures
        r@.map_values(|s: &'static str| s@) == features(),
{
    let mut out: Vec<&'static str> = Vec::new();
    out.push("subscribe_happenings_cursor");
    out.push("alias_chain_walking");
    out.push("active_custodies_snapshot");
    out.push("paginated_state_snapshots");
    out.push("capability_negotiation");
    out.push("subscribe_subject_push");
    out.push("rack_structural_projection");
    out.push("plugin_inventory");
    out.push("catalogue_resilience");
    out.push("clock_trust_signal");
    out.push("plugins_admin_lifecycle");
    out.push("operator_reload_verbs");
    out.push("reconciliation_pairs");
    out.push("user_interaction_routing");
    out.push("appointment_scheduling");
    out.push("condition_driven_watches");
    out.push("grammar_orphan_admin");
    assert(out@.map_values(|s: &'static str| s@) =~= features());
    out
}

/// The labels by which happenings of one kind can be coalesced, as far as they
/// are known without a payload.
#[derive(Debug)]
pub struct StaticLabels {
    pub kind: String,
    pub labels: Vec<String>,
}

/// The labels of a kind; none for a kind that the table does not list.
pub open spec fn labels_of(table: Seq<StaticLabels>, kind: Seq<char>) -> Seq<String>
    decreases table.len(),
{
    if table.len() == 0 {
        Seq::empty()
    } else if table[0].kind@ == kind {
        table[0].labels@
    } else {
        labels_of(table.drop_first(), kind)
    }
}

/// The kinds that have labels, with their labels, in the order of the kinds.
pub open spec fn labelled(table: Seq<StaticLabels>, among: Seq<Seq<char>>) -> Seq<
    (Seq<char>, Seq<String>),
>
    decreases among.len(),
{
    if among.len() == 0 {
        Seq::empty()
    } else {
        let before = labelled(table, among.drop_last());
        let labels = labels_of(table, among.last());
        if labels.len() > 0 {
            before.push((among.last(), labels))
        } else {
            before
        }
    }
}

/// What a list of kinds with their labels shows.
pub open spec fn shown(map: Seq<KindLabels>) -> Seq<(Seq<char>, Seq<String>)> {
    map.map_values(|e: KindLabels| (e.kind@, e.labels@))
}

fn find_labels<'a>(table: &'a Vec<StaticLabels>, kind: &str) -> (r: Option<&'a Vec<String>>)
    ensures
        match r {
            Some(labels) => labels@ == labels_of(table@, kind@),
            None => labels_of(table@, kind@).len() == 0,
        },
{
    let mut i: usize = 0;
    assert(table@.skip(0) =~= table@);
    while i < table.len()
        invariant
            i <= table.len(),
            labels_of(table@, kind@) == labels_of(table@.skip(i as int), kind@),
        decreases table.len() - i,
    {
        assert(table@.skip(i as int)[0] == table@[i as int]);
        if same_text(table[i].kind.as_str(), kind) {
            return Some(&table[i].labels);
        }
        assert(table@.skip(i as int).drop_first() =~= table@.skip(i + 1));
        i += 1;
    }
    None
}

fn copy_texts(v: &Vec<String>) -> (r: Vec<String>)
    ensures
        r@ == v@,
{
    let mut out: Vec<String> = Vec::new();
    let mut i: usize = 0;
    while i < v.len()
        invariant
            i <= v.len(),
            out@ == v@.take(i as int),
        decreases v.len() - i,
    {
        out.push(v[i].clone());
        assert(v@.take(i + 1) =~= v@.take(i as int).push(v@[i as int]));
        i += 1;
    }
    assert(v@.take(v@.len() as int) =~= v@);
    out
}

/// Every kind of happening that has labels, with its labels, in ascending order
/// of the kinds.
pub fn build_coalesce_labels_map(table: &Vec<StaticLabels>) -> (r: Vec<KindLabels>)
    ensures
        shown(r@) == labelled(table@, kinds()),
{
    let all = happening_kinds();
    let ghost names = all@.map_values(|s: &'static str| s@);
    let mut out: Vec<KindLabels> = Vec::new();
    let mut i: usize = 0;
    proof {
        assert(names.take(0) =~= Seq::<Seq<char>>::empty());
        assert(shown(out@) =~= Seq::<(Seq<char>, Seq<String>)>::empty());
    }
    while i < all.len()
        invariant
            i <= all.len(),
            names == all@.map_values(|s: &'static str| s@),
            shown(out@) == labelled(table@, names.take(i as int)),
        decreases all.len() - i,
    {
        let ghost before = shown(out@);
        proof {
            let next = names.take(i + 1);
            assert(next.drop_last() =~= names.take(i as int));
            assert(next.last() == all@[i as int]@);
        }
        match find_labels(table, all[i]) {
            Some(labels) => {
                if labels.len() > 0 {
                    out.push(KindLabels { kind: all[i], labels: copy_texts(labels) });
                    assert(shown(out@) =~= before.push((all@[i as int]@, labels@)));
                }
            },
            None => {},
        }
        i += 1;
    }
    assert(names.take(all@.len() as int) =~= names);
    out
}

/// The answer to `describe_capabilities`.
pub fn describe_capabilities(
    catalogue_source: CatalogueSource,
    clock_trust: TimeTrust,
    has_battery_rtc: bool,
    table: &Vec<StaticLabels>,
) -> (r: ClientResponse)
    ensures
        ({
            &&& r matches ClientResponse::Capabilities {
                capabilities,
                wire_version,
                ops,
                features: named,
                catalogue_source: source,
                clock_trust: trust,
                has_battery_rtc: rtc,
                coalesce_labels,
            }
            &&& capabilities
            &&& wire_version == CLIENT_WIRE_VERSION
            &&& ops@.map_values(|s: &'static str| s@) == supported()
            &&& named@.map_values(|s: &'static str| s@) == features()
            &&& source@ == catalogue_source.text()
            &&& trust@ == clock_trust.text()
            &&& rtc == has_battery_rtc
            &&& shown(coalesce_labels@) == labelled(table@, kinds())
        }),
{
    ClientResponse::Capabilities {
        capabilities: true,
        wire_version: CLIENT_WIRE_VERSION,
        ops: supported_ops(),
        features: supported_features(),
        catalogue_source: catalogue_source.as_str(),
        clock_trust: clock_trust.as_str(),
        has_battery_rtc,
        coalesce_labels: build_coalesce_labels_map(table),
    }
}

/// A kind is advertised if and only if it has labels.
pub proof fn law_advertised_kinds(
    table: Seq<StaticLabels>,
    among: Seq<Seq<char>>,
    kind: Seq<char>,
)
    ensures
        (exists|i: int|
            0 <= i < labelled(table, among).len() && (#[trigger] labelled(table, among)[i]).0
                == kind) <==> among.contains(kind) && labels_of(table, kind).len() > 0,
    decreases among.len(),
{
    if among.len() > 0 {
        let rest = among.drop_last();
        let last = among.last();
        let before = labelled(table, rest);
        let after = labelled(table, among);
        law_advertised_kinds(table, rest, kind);
        assert(among =~= rest.push(last));
        if rest.contains(kind) {
            let k = choose|k: int| 0 <= k < rest.len() && rest[k] == kind;
            assert(among[k] == kind);
        }
        assert(among[rest.len() as int] == last);
        if exists|i: int| 0 <= i < before.len() && (#[trigger] before[i]).0 == kind {
            let i = choose|i: int| 0 <= i < before.len() && (#[trigger] before[i]).0 == kind;
            assert(after[i].0 == kind);
        }
        if labels_of(table, last).len() > 0 {
            assert(after[before.len() as int].0 == last);
        }
        if exists|i: int| 0 <= i < after.len() && (#[trigger] after[i]).0 == kind {
            let i = choose|i: int| 0 <= i < after.len() && (#[trigger] after[i]).0 == kind;
            if i < before.len() {
                assert(before[i].0 == kind);
            }
        }
    }
}

}
