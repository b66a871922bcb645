//! The requests that consumers send.

use crate::projections::ProjectionScopeWire;
use crate::text::same_text;
use serde_json::Value;
use vstd::prelude::*;
use vstd::string::*;

verus! {

/// A custody that a warden has handed out. `body` is the handle as the plugin
/// contract defines it.
#[derive(Debug)]
pub struct CustodyHandle {
    pub id: String,
    pub body: Value,
}

/// When an appointment is due. `body` is the specification as the plugin
/// contract defines it.
#[derive(Debug)]
pub struct AppointmentSpec {
    pub appointment_id: String,
    pub body: Value,
}

/// What a watch waits for. `body` is the specification as the plugin contract
/// defines it.
#[derive(Debug)]
pub struct WatchSpec {
    pub watch_id: String,
    pub body: Value,
}

/// Where a catalogue or a manifest comes from.
#[derive(Debug)]
pub enum ManifestSource {
    Inline(String),
    Path(String),
}

/// The wire form of [`ManifestSource`].
#[derive(Debug)]
pub enum ReloadSourceWire {
    /// TOML, verbatim.
    Inline { toml: String },
    /// A path that is read at reload time.
    Path { path: String },
}

impl ReloadSourceWire {
    /// The source that the wire form stands for.
    pub open spec fn source(self) -> ManifestSource {
        match self {
            ReloadSourceWire::Inline { toml } => ManifestSource::Inline(toml),
            ReloadSourceWire::Path { path } => ManifestSource::Path(path),
        }
    }

    /// The source that the wire form stands for.
    pub fn into_manifest_source(self) -> (r: ManifestSource)
        ensures
            r == self.source(),
    {
        match self {
            ReloadSourceWire::Inline { toml } => ManifestSource::Inline(toml),
            ReloadSourceWire::Path { path } => ManifestSource::Path(path),
        }
    }
}

/// One rule of [`MigrationStrategyWire::Mapping`].
#[derive(Debug)]
pub struct MapMappingEntry {
    /// The value that the rule matches.
    pub value: String,
    /// The type that matching subjects get.
    pub to_type: String,
}

/// How the subjects of an orphaned type are routed.
#[derive(Debug)]
pub enum MigrationStrategyWire {
    /// Every subject gets the same type.
    Rename { to_type: String },
    /// A field of the subject's projection picks the type.
    Mapping {
        discriminator_field: String,
        mapping: Vec<MapMappingEntry>,
        default_to_type: Option<String>,
    },
    /// Only subjects that match the predicate get the type.
    Filter { predicate: String, to_type: String },
}

/// The strategy as the migration runtime takes it.
#[derive(Debug)]
pub enum MigrationStrategy {
    Rename { to_type: String },
    Mapping {
        discriminator_field: String,
        /// Pairs of a value and a type.
        mapping: Vec<(String, String)>,
        default_to_type: Option<String>,
    },
    Filter { predicate: String, to_type: String },
}

impl MigrationStrategyWire {
    /// The strategy that the wire form stands for.
    pub open spec fn stands_for(self, s: MigrationStrategy) -> bool {
        match self {
            MigrationStrategyWire::Rename { to_type } => s == (MigrationStrategy::Rename {
                to_type,
            }),
            MigrationStrategyWire::Mapping { discriminator_field, mapping, default_to_type } => {
                &&& s matches MigrationStrategy::Mapping {
                    discriminator_field: f,
                    mapping: m,
                    default_to_type: d,
                }
                &&& f == discriminator_field
                &&& d == default_to_type
                &&& m@ == mapping@.map_values(|e: MapMappingEntry| (e.value, e.to_type))
            },
            MigrationStrategyWire::Filter { predicate, to_type } => s == (
            MigrationStrategy::Filter { predicate, to_type }),
        }
    }

    /// The strategy that the wire form stands for.
    pub fn into_strategy(self) -> (r: MigrationStrategy)
        ensures
            self.stands_for(r),
    {
        match self {
            MigrationStrategyWire::Rename { to_type } => MigrationStrategy::Rename { to_type },
            MigrationStrategyWire::Mapping { discriminator_field, mapping, default_to_type } => {
                let ghost rules = mapping@;
                let mut pairs: Vec<(String, String)> = Vec::new();
                for rule in it: mapping
                    invariant
                        it.seq() == rules,
                        pairs@.len() == it.index(),
                        forall|i: int|
                            0 <= i < pairs@.len() ==> #[trigger] pairs@[i] == (
                                rules[i].value,
                                rules[i].to_type,
                            ),
                {
                    assert(rule == rules[it.index() as int]);
                    pairs.push((rule.value, rule.to_type));
                }
                assert(pairs@ =~= rules.map_values(
                    |e: MapMappingEntry| (e.value, e.to_type),
                ));
                MigrationStrategy::Mapping { discriminator_field, mapping: pairs, default_to_type }
            },
            MigrationStrategyWire::Filter { predicate, to_type } => {
                MigrationStrategy::Filter { predicate, to_type }
            },
        }
    }
}

/// Which happenings a subscriber wants. A list names the permitted values of
/// one dimension; an empty list permits every value.
#[derive(Debug)]
pub struct HappeningFilter {
    pub variants: Vec<String>,
    pub plugins: Vec<String>,
    pub shelves: Vec<String>,
}

/// The wire form of [`HappeningFilter`].
#[derive(Debug)]
pub struct HappeningFilterWire {
    pub variants: Vec<String>,
    pub plugins: Vec<String>,
    pub shelves: Vec<String>,
}

impl Default for HappeningFilterWire {
    /// The filter that permits everything.
    fn default() -> (r: HappeningFilterWire)
        ensures
            r.variants@.len() == 0,
            r.plugins@.len() == 0,
            r.shelves@.len() == 0,
    {
        HappeningFilterWire { variants: Vec::new(), plugins: Vec::new(), shelves: Vec::new() }
    }
}

/// The filter that a request asks for.
pub open spec fn filter_of(w: HappeningFilterWire) -> HappeningFilter {
    HappeningFilter { variants: w.variants, plugins: w.plugins, shelves: w.shelves }
}

impl From<HappeningFilterWire> for HappeningFilter {
    fn from(w: HappeningFilterWire) -> (r: HappeningFilter) {
        HappeningFilter { variants: w.variants, plugins: w.plugins, shelves: w.shelves }
    }
}

impl vstd::std_specs::convert::FromSpecImpl<HappeningFilterWire> for HappeningFilter {
    open spec fn obeys_from_spec() -> bool {
        true
    }

    open spec fn from_spec(w: HappeningFilterWire) -> HappeningFilter {
        filter_of(w)
    }
}

/// The list permits the value: it is empty, or the value is there and listed.
pub open spec fn permits(list: Seq<String>, value: Option<Seq<char>>) -> bool {
    list.len() == 0 || (value matches Some(v) && exists|i: int|
        0 <= i < list.len() && (#[trigger] list[i])@ == v)
}

fn permitted(list: &Vec<String>, value: Option<&str>) -> (r: bool)
    ensures
        r == permits(
            list@,
            match value {
                Some(v) => Some(v@),
                None => None,
            },
        ),
{
    if list.len() == 0 {
        return true;
    }
    let wanted = match value {
        Some(v) => v,
        None => {
            return false;
        },
    };
    let mut i: usize = 0;
    while i < list.len()
        invariant
            i <= list.len(),
            value == Some(wanted),
            forall|j: int| 0 <= j < i ==> (#[trigger] list@[j])@ != wanted@,
        decreases list.len() - i,
    {
        if same_text(list[i].as_str(), wanted) {
            return true;
        }
        i += 1;
    }
    false
}

impl HappeningFilter {
    /// A happening of this kind, plugin and shelf passes: every dimension
    /// permits it.
    pub open spec fn passes(
        self,
        kind: Seq<char>,
        plugin: Option<Seq<char>>,
        shelf: Option<Seq<char>>,
    ) -> bool {
        &&& permits(self.variants@, Some(kind))
        &&& permits(self.plugins@, plugin)
        &&& permits(self.shelves@, shelf)
    }

    /// Whether a happening of this kind, plugin and shelf passes.
    pub fn accepts(&self, kind: &str, plugin: Option<&str>, shelf: Option<&str>) -> (r: bool)
        ensures
            r == self.passes(
                kind@,
                match plugin {
                    Some(p) => Some(p@),
                    None => None,
                },
                match shelf {
                    Some(s) => Some(s@),
                    None => None,
                },
            ),
    {
        permitted(&self.variants, Some(kind)) && permitted(&self.plugins, plugin) && permitted(
            &self.shelves,
            shelf,
        )
    }
}

/// A filter whose lists are empty passes everything.
pub proof fn law_empty_filter(
    filter: HappeningFilter,
    kind: Seq<char>,
    plugin: Option<Seq<char>>,
    shelf: Option<Seq<char>>,
)
    requires
        filter.variants@.len() == 0,
        filter.plugins@.len() == 0,
        filter.shelves@.len() == 0,
    ensures
        filter.passes(kind, plugin, shelf),
{
}

/// Alias chains are followed unless the request says otherwise.
pub fn default_follow_aliases() -> (r: bool)
    ensures
        r,
{
    true
}

/// Alias chains are walked in full unless the request says otherwise.
pub fn default_include_chain() -> (r: bool)
    ensures
        r,
{
    true
}

/// A request. The operation's name selects the variant.
#[derive(Debug)]
pub enum ClientRequest {
    /// Dispatch a plugin request on a shelf.
    Request {
        shelf: String,
        request_type: String,
        payload_b64: String,
        instance_id: Option<String>,
    },
    /// Compose the projection of a subject.
    ProjectSubject {
        canonical_id: String,
        scope: ProjectionScopeWire,
        follow_aliases: bool,
    },
    /// Take the census of a rack.
    ProjectRack {
        rack: String,
    },
    /// List every admitted plugin.
    ListPlugins,
    /// Look up the alias records of a subject.
    DescribeAlias {
        subject_id: String,
        include_chain: bool,
    },
    /// Snapshot the custody ledger.
    ListActiveCustodies,
    /// One page of the live subjects.
    ListSubjects {
        cursor: Option<String>,
        page_size: Option<usize>,
    },
    /// One page of the live relations.
    ListRelations {
        cursor: Option<String>,
        page_size: Option<usize>,
    },
    /// One page of the claimed addressings.
    EnumerateAddressings {
        cursor: Option<String>,
        page_size: Option<usize>,
    },
    /// Stream happenings; `since` asks for a replay first.
    SubscribeHappenings {
        since: Option<u64>,
        filter: HappeningFilterWire,
        coalesce: Option<Value>,
    },
    /// Stream the projections of one subject.
    SubscribeSubject {
        canonical_id: String,
        scope: ProjectionScopeWire,
        follow_aliases: bool,
    },
    /// Ask what this build supports.
    DescribeCapabilities,
    /// Ask for capabilities on this connection.
    Negotiate {
        capabilities: Vec<String>,
    },
    /// Resolve claimant tokens to plugin names.
    ResolveClaimants {
        tokens: Vec<String>,
    },
    /// Enable a plugin.
    EnablePlugin {
        plugin: String,
        reason: Option<String>,
    },
    /// Disable a plugin.
    DisablePlugin {
        plugin: String,
        reason: Option<String>,
    },
    /// Uninstall a plugin; `purge_state` also wipes its state.
    UninstallPlugin {
        plugin: String,
        reason: Option<String>,
        purge_state: bool,
    },
    /// Wipe the state of a plugin.
    PurgePluginState {
        plugin: String,
    },
    /// Reload the catalogue.
    ReloadCatalogue {
        source: ReloadSourceWire,
        dry_run: bool,
    },
    /// Reload the manifest of a plugin.
    ReloadManifest {
        plugin: String,
        source: ReloadSourceWire,
        dry_run: bool,
    },
    /// Reload a plugin.
    ReloadPlugin {
        plugin: String,
    },
    /// Take custody through a warden.
    TakeCustody {
        shelf: String,
        custody_type: String,
        payload_b64: String,
    },
    /// Correct the course of an open custody.
    CourseCorrect {
        shelf: String,
        handle: CustodyHandle,
        correction_type: String,
        payload_b64: String,
    },
    /// Release an open custody.
    ReleaseCustody {
        shelf: String,
        handle: CustodyHandle,
    },
    /// List the active reconciliation pairs.
    ListReconciliationPairs,
    /// Show the applied state of one pair.
    ProjectReconciliationPair {
        pair: String,
    },
    /// Run one reconciliation cycle of a pair now.
    ReconcilePairNow {
        pair: String,
    },
    /// List the open prompts.
    ListUserInteractions,
    /// Answer an open prompt.
    AnswerUserInteraction {
        plugin: String,
        prompt_id: String,
        response: Value,
        retain_for: Option<Value>,
    },
    /// Cancel an open prompt.
    CancelUserInteraction {
        plugin: String,
        prompt_id: String,
    },
    /// Schedule an appointment.
    CreateAppointment {
        creator: String,
        spec: AppointmentSpec,
        action: Value,
    },
    /// Cancel an appointment.
    CancelAppointment {
        creator: String,
        appointment_id: String,
    },
    /// List the appointments.
    ListAppointments,
    /// Show one appointment.
    ProjectAppointment {
        creator: String,
        appointment_id: String,
    },
    /// Schedule a watch.
    CreateWatch {
        creator: String,
        spec: WatchSpec,
        action: Value,
    },
    /// Cancel a watch.
    CancelWatch {
        creator: String,
        watch_id: String,
    },
    /// List the watches.
    ListWatches,
    /// Show one watch.
    ProjectWatch {
        creator: String,
        watch_id: String,
    },
    /// List the orphaned subject types.
    ListGrammarOrphans,
    /// Accept an orphaned subject type.
    AcceptGrammarOrphans {
        from_type: String,
        reason: String,
    },
    /// Migrate the subjects of an orphaned type.
    MigrateGrammarOrphans {
        from_type: String,
        strategy: MigrationStrategyWire,
        dry_run: bool,
        batch_size: Option<u32>,
        max_subjects: Option<u32>,
        reason: Option<String>,
    },
}

impl ClientRequest {
    /// The operation's name.
    pub open spec fn op(self) -> Seq<char> {
        match self {
            ClientRequest::Request { .. } => "request"@,
            ClientRequest::ProjectSubject { .. } => "project_subject"@,
            ClientRequest::ProjectRack { .. } => "project_rack"@,
            ClientRequest::ListPlugins => "list_plugins"@,
            ClientRequest::DescribeAlias { .. } => "describe_alias"@,
            ClientRequest::ListActiveCustodies => "list_active_custodies"@,
            ClientRequest::ListSubjects { .. } => "list_subjects"@,
            ClientRequest::ListRelations { .. } => "list_relations"@,
            ClientRequest::EnumerateAddressings { .. } => "enumerate_addressings"@,
            ClientRequest::SubscribeHappenings { .. } => "subscribe_happenings"@,
            ClientRequest::SubscribeSubject { .. } => "subscribe_subject"@,
            ClientRequest::DescribeCapabilities => "describe_capabilities"@,
            ClientRequest::Negotiate { .. } => "negotiate"@,
            ClientRequest::ResolveClaimants { .. } => "resolve_claimants"@,
            ClientRequest::EnablePlugin { .. } => "enable_plugin"@,
            ClientRequest::DisablePlugin { .. } => "disable_plugin"@,
            ClientRequest::UninstallPlugin { .. } => "uninstall_plugin"@,
            ClientRequest::PurgePluginState { .. } => "purge_plugin_state"@,
            ClientRequest::ReloadCatalogue { .. } => "reload_catalogue"@,
            ClientRequest::ReloadManifest { .. } => "reload_manifest"@,
            ClientRequest::ReloadPlugin { .. } => "reload_plugin"@,
            ClientRequest::TakeCustody { .. } => "take_custody"@,
            ClientRequest::CourseCorrect { .. } => "course_correct"@,
            ClientRequest::ReleaseCustody { .. } => "release_custody"@,
            ClientRequest::ListReconciliationPairs => "list_reconciliation_pairs"@,
            ClientRequest::ProjectReconciliationPair { .. } => "project_reconciliation_pair"@,
            ClientRequest::ReconcilePairNow { .. } => "reconcile_pair_now"@,
            ClientRequest::ListUserInteractions => "list_user_interactions"@,
            ClientRequest::AnswerUserInteraction { .. } => "answer_user_interaction"@,
            ClientRequest::CancelUserInteraction { .. } => "cancel_user_interaction"@,
            ClientRequest::CreateAppointment { .. } => "create_appointment"@,
            ClientRequest::CancelAppointment { .. } => "cancel_appointment"@,
            ClientRequest::ListAppointments => "list_appointments"@,
            ClientRequest::ProjectAppointment { .. } => "project_appointment"@,
            ClientRequest::CreateWatch { .. } => "create_watch"@,
            ClientRequest::CancelWatch { .. } => "cancel_watch"@,
            ClientRequest::ListWatches => "list_watches"@,
            ClientRequest::ProjectWatch { .. } => "project_watch"@,
            ClientRequest::ListGrammarOrphans => "list_grammar_orphans"@,
            ClientRequest::AcceptGrammarOrphans { .. } => "accept_grammar_orphans"@,
            ClientRequest::MigrateGrammarOrphans { .. } => "migrate_grammar_orphans"@,
        }
    }
}

/// The operation's name.
pub fn client_request_op_tag(req: &ClientRequest) -> (r: &'static str)
    ensures
        r@ == req.op(),
{
    match req {
        ClientRequest::Request { .. } => "request",
        ClientRequest::ProjectSubject { .. } => "project_subject",
        ClientRequest::ProjectRack { .. } => "project_rack",
        ClientRequest::ListPlugins => "list_plugins",
        ClientRequest::DescribeAlias { .. } => "describe_alias",
        ClientRequest::ListActiveCustodies => "list_active_custodies",
        ClientRequest::ListSubjects { .. } => "list_subjects",
        ClientRequest::ListRelations { .. } => "list_relations",
        ClientRequest::EnumerateAddressings { .. } => "enumerate_addressings",
        ClientRequest::SubscribeHappenings { .. } => "subscribe_happenings",
        ClientRequest::SubscribeSubject { .. } => "subscribe_subject",
        ClientRequest::DescribeCapabilities => "describe_capabilities",
        ClientRequest::Negotiate { .. } => "negotiate",
        ClientRequest::ResolveClaimants { .. } => "resolve_claimants",
        ClientRequest::EnablePlugin { .. } => "enable_plugin",
        ClientRequest::DisablePlugin { .. } => "disable_plugin",
        ClientRequest::UninstallPlugin { .. } => "uninstall_plugin",
        ClientRequest::PurgePluginState { .. } => "purge_plugin_state",
        ClientRequest::ReloadCatalogue { .. } => "reload_catalogue",
        ClientRequest::ReloadManifest { .. } => "reload_manifest",
        ClientRequest::ReloadPlugin { .. } => "reload_plugin",
        ClientRequest::TakeCustody { .. } => "take_custody",
        ClientRequest::CourseCorrect { .. } => "course_correct",
        ClientRequest::ReleaseCustody { .. } => "release_custody",
        ClientRequest::ListReconciliationPairs => "list_reconciliation_pairs",
        ClientRequest::ProjectReconciliationPair { .. } => "project_reconciliation_pair",
        ClientRequest::ReconcilePairNow { .. } => "reconcile_pair_now",
        ClientRequest::ListUserInteractions => "list_user_interactions",
        ClientRequest::AnswerUserInteraction { .. } => "answer_user_interaction",
        ClientRequest::CancelUserInteraction { .. } => "cancel_user_interaction",
        ClientRequest::CreateAppointment { .. } => "create_appointment",
        ClientRequest::CancelAppointment { .. } => "cancel_appointment",
        ClientRequest::ListAppointments => "list_appointments",
        ClientRequest::ProjectAppointment { .. } => "project_appointment",
        ClientRequest::CreateWatch { .. } => "create_watch",
        ClientRequest::CancelWatch { .. } => "cancel_watch",
        ClientRequest::ListWatches => "list_watches",
        ClientRequest::ProjectWatch { .. } => "project_watch",
        ClientRequest::ListGrammarOrphans => "list_grammar_orphans",
        ClientRequest::AcceptGrammarOrphans { .. } => "accept_grammar_orphans",
        ClientRequest::MigrateGrammarOrphans { .. } => "migrate_grammar_orphans",
    }
}

/// The operations that this build accepts.
pub open spec fn supported() -> Seq<Seq<char>> {
    seq![
        "request"@,
        "project_subject"@,
        "project_rack"@,
        "list_plugins"@,
        "describe_alias"@,
        "list_active_custodies"@,
        "list_subjects"@,
        "list_relations"@,
        "enumerate_addressings"@,
        "subscribe_happenings"@,
        "subscribe_subject"@,
        "describe_capabilities"@,
        "negotiate"@,
        "resolve_claimants"@,
        "enable_plugin"@,
        "disable_plugin"@,
        "uninstall_plugin"@,
        "purge_plugin_state"@,
        "reload_catalogue"@,
        "reload_manifest"@,
        "reload_plugin"@,
        "take_custody"@,
        "course_correct"@,
        "release_custody"@,
        "list_reconciliation_pairs"@,
        "project_reconciliation_pair"@,
        "reconcile_pair_now"@,
        "list_user_interactions"@,
        "answer_user_interaction"@,
        "cancel_user_interaction"@,
        "create_appointment"@,
        "cancel_appointment"@,
        "list_appointments"@,
        "project_appointment"@,
        "create_watch"@,
        "cancel_watch"@,
        "list_watches"@,
        "project_watch"@,
        "list_grammar_orphans"@,
        "accept_grammar_orphans"@,
        "migrate_grammar_orphans"@,
    ]
}

/// The operations that this build accepts.
pub fn supported_ops() -> (r: Vec<&'static str>)
    ensures
        r@.map_values(|s: &'static str| s@) == supported(),
{
    let mut out: Vec<&'static str> = Vec::new();
    out.push("request");
    out.push("project_subject");
    out.push("project_rack");
    out.push("list_plugins");
    out.push("describe_alias");
    out.push("list_active_custodies");
    out.push("list_subjects");
    out.push("list_relations");
    out.push("enumerate_addressings");
    out.push("subscribe_happenings");
    out.push("subscribe_subject");
    out.push("describe_capabilities");
    out.push("negotiate");
    out.push("resolve_claimants");
    out.push("enable_plugin");
    out.push("disable_plugin");
    out.push("uninstall_plugin");
    out.push("purge_plugin_state");
    out.push("reload_catalogue");
    out.push("reload_manifest");
    out.push("reload_plugin");
    out.push("take_custody");
    out.push("course_correct");
    out.push("release_custody");
    out.push("list_reconciliation_pairs");
    out.push("project_reconciliation_pair");
    out.push("reconcile_pair_now");
    out.push("list_user_interactions");
    out.push("answer_user_interaction");
    out.push("cancel_user_interaction");
    out.push("create_appointment");
    out.push("cancel_appointment");
    out.push("list_appointments");
    out.push("project_appointment");
    out.push("create_watch");
    out.push("cancel_watch");
    out.push("list_watches");
    out.push("project_watch");
    out.push("list_grammar_orphans");
    out.push("accept_grammar_orphans");
    out.push("migrate_grammar_orphans");
    assert(out@.map_values(|s: &'static str| s@) =~= supported());
    out
}

/// Every request's operation is advertised.
pub proof fn law_every_op_is_supported(req: ClientRequest)
    ensures
        supported().contains(req.op()),
{
    let all = supported();
    match req {
        ClientRequest::Request { .. } => {
            assert(all[0] == "request"@);
        },
        ClientRequest::ProjectSubject { .. } => {
            assert(all[1] == "project_subject"@);
        },
        ClientRequest::ProjectRack { .. } => {
            assert(all[2] == "project_rack"@);
        },
        ClientRequest::ListPlugins => {
            assert(all[3] == "list_plugins"@);
        },
        ClientRequest::DescribeAlias { .. } => {
            assert(all[4] == "describe_alias"@);
        },
        ClientRequest::ListActiveCustodies => {
            assert(all[5] == "list_active_custodies"@);
        },
        ClientRequest::ListSubjects { .. } => {
            assert(all[6] == "list_subjects"@);
        },
        ClientRequest::ListRelations { .. } => {
            assert(all[7] == "list_relations"@);
        },
        ClientRequest::EnumerateAddressings { .. } => {
            assert(all[8] == "enumerate_addressings"@);
        },
        ClientRequest::SubscribeHappenings { .. } => {
            assert(all[9] == "subscribe_happenings"@);
        },
        ClientRequest::SubscribeSubject { .. } => {
            assert(all[10] == "subscribe_subject"@);
        },
        ClientRequest::DescribeCapabilities => {
            assert(all[11] == "describe_capabilities"@);
        },
        ClientRequest::Negotiate { .. } => {
            assert(all[12] == "negotiate"@);
        },
        ClientRequest::ResolveClaimants { .. } => {
            assert(all[13] == "resolve_claimants"@);
        },
        ClientRequest::EnablePlugin { .. } => {
            assert(all[14] == "enable_plugin"@);
        },
        ClientRequest::DisablePlugin { .. } => {
            assert(all[15] == "disable_plugin"@);
        },
        ClientRequest::UninstallPlugin { .. } => {
            assert(all[16] == "uninstall_plugin"@);
        },
        ClientRequest::PurgePluginState { .. } => {
            assert(all[17] == "purge_plugin_state"@);
        },
        ClientRequest::ReloadCatalogue { .. } => {
            assert(all[18] == "reload_catalogue"@);
        },
        ClientRequest::ReloadManifest { .. } => {
            assert(all[19] == "reload_manifest"@);
        },
        ClientRequest::ReloadPlugin { .. } => {
            assert(all[20] == "reload_plugin"@);
        },
        ClientRequest::TakeCustody { .. } => {
            assert(all[21] == "take_custody"@);
        },
        ClientRequest::CourseCorrect { .. } => {
            assert(all[22] == "course_correct"@);
        },
        ClientRequest::ReleaseCustody { .. } => {
            assert(all[23] == "release_custody"@);
        },
        ClientRequest::ListReconciliationPairs => {
            assert(all[24] == "list_reconciliation_pairs"@);
        },
        ClientRequest::ProjectReconciliationPair { .. } => {
            assert(all[25] == "project_reconciliation_pair"@);
        },
        ClientRequest::ReconcilePairNow { .. } => {
            assert(all[26] == "reconcile_pair_now"@);
        },
        ClientRequest::ListUserInteractions => {
            assert(all[27] == "list_user_interactions"@);
        },
        ClientRequest::AnswerUserInteraction { .. } => {
            assert(all[28] == "answer_user_interaction"@);
        },
        ClientRequest::CancelUserInteraction { .. } => {
            assert(all[29] == "cancel_user_interaction"@);
        },
        ClientRequest::CreateAppointment { .. } => {
            assert(all[30] == "create_appointment"@);
        },
        ClientRequest::CancelAppointment { .. } => {
            assert(all[31] == "cancel_appointment"@);
        },
        ClientRequest::ListAppointments => {
            assert(all[32] == "list_appointments"@);
        },
        ClientRequest::ProjectAppointment { .. } => {
            assert(all[33] == "project_appointment"@);
        },
        ClientRequest::CreateWatch { .. } => {
            assert(all[34] == "create_watch"@);
        },
        ClientRequest::CancelWatch { .. } => {
            assert(all[35] == "cancel_watch"@);
        },
        ClientRequest::ListWatches => {
            assert(all[36] == "list_watches"@);
        },
        ClientRequest::ProjectWatch { .. } => {
            assert(all[37] == "project_watch"@);
        },
        ClientRequest::ListGrammarOrphans => {
            assert(all[38] == "list_grammar_orphans"@);
        },
        ClientRequest::AcceptGrammarOrphans { .. } => {
            assert(all[39] == "accept_grammar_orphans"@);
        },
        ClientRequest::MigrateGrammarOrphans { .. } => {
            assert(all[40] == "migrate_grammar_orphans"@);
        },
    }
}

}
