//! The responses that consumers get.

use crate::claimant::ClaimantToken;
use crate::custody::CustodyRecordWire;
use crate::errors::ApiError;
use crate::happenings::HappeningWire;
use crate::projections::SubjectProjectionWire;
use crate::requests::{AppointmentSpec, CustodyHandle, WatchSpec};
use serde_json::Value;
use vstd::prelude::*;

verus! {

/// The record of a live subject. `body` is the record as the plugin contract
/// defines it.
#[derive(Debug)]
pub struct SubjectRecord {
    pub id: String,
    pub body: Value,
}

/// What the registry knows of a subject id.
#[derive(Debug)]
pub enum SubjectQueryResult {
    /// The id is a live subject.
    Found { record: SubjectRecord },
    /// The id was merged or split. The terminal is missing if the chain of
    /// records forks.
    Aliased { chain: Vec<Value>, terminal: Option<SubjectRecord> },
    /// The id is unknown.
    NotFound,
    /// An answer that this build does not know.
    Unsupported,
}

/// The alias records behind a projection.
#[derive(Debug)]
pub struct AliasedFromWire {
    /// The id that was asked for.
    pub queried_id: String,
    /// The alias records, oldest first.
    pub chain: Vec<Value>,
    /// The live subject that the chain leads to.
    pub terminal_id: Option<String>,
}

/// The coalescing labels of one kind of happening.
#[derive(Debug)]
pub struct KindLabels {
    pub kind: &'static str,
    pub labels: Vec<String>,
}

/// An admitted plugin.
#[derive(Debug)]
pub struct PluginInventoryEntry {
    pub name: String,
    /// The shelf, with its rack.
    pub shelf: String,
    /// `respondent`, `warden`, or `unknown` while the plugin is in transition.
    pub interaction_kind: String,
}

/// The plugin on a shelf.
#[derive(Debug)]
pub struct RackShelfOccupant {
    pub plugin: String,
    pub interaction_kind: String,
}

/// A shelf of a rack.
#[derive(Debug)]
pub struct RackShelfEntry {
    pub name: String,
    /// The shelf, with its rack.
    pub fully_qualified: String,
    pub shape: u32,
    pub shape_supports: Vec<u32>,
    pub description: String,
    pub occupant: Option<RackShelfOccupant>,
}

/// A gap in a stream of happenings.
#[derive(Debug)]
pub struct LaggedSignal {
    /// How many happenings were dropped.
    pub missed_count: u64,
    /// The oldest happening that can still be replayed.
    pub oldest_available_seq: u64,
    /// The latest happening.
    pub current_seq: u64,
}

/// An addressing of a subject.
#[derive(Debug)]
pub struct SubjectListAddressingWire {
    pub scheme: String,
    pub value: String,
    pub claimant_token: ClaimantToken,
}

/// A subject in a page.
#[derive(Debug)]
pub struct SubjectListEntryWire {
    pub canonical_id: String,
    pub subject_type: String,
    pub addressings: Vec<SubjectListAddressingWire>,
}

/// A relation in a page.
#[derive(Debug)]
pub struct RelationListEntryWire {
    pub source_id: String,
    pub predicate: String,
    pub target_id: String,
    pub claimant_tokens: Vec<ClaimantToken>,
    pub suppressed: bool,
}

/// An addressing in a page.
#[derive(Debug)]
pub struct AddressingListEntryWire {
    pub scheme: String,
    pub value: String,
    pub canonical_id: String,
}

/// What a claimant token stands for.
#[derive(Debug)]
pub struct ClaimantResolutionWire {
    /// The token as it was asked for.
    pub token: String,
    pub plugin_name: String,
    pub plugin_version: Option<String>,
}

/// A reconciliation pair.
#[derive(Debug)]
pub struct ReconciliationPairWire {
    pub pair_id: String,
    pub composer_shelf: String,
    pub warden_shelf: String,
    pub generation: u64,
    pub last_applied_at_ms: Option<u64>,
}

/// An open prompt.
#[derive(Debug)]
pub struct UserInteractionWire {
    pub plugin: String,
    pub prompt: Value,
}

/// An appointment.
#[derive(Debug)]
pub struct AppointmentEntryWire {
    pub creator: String,
    pub spec: AppointmentSpec,
    pub action: Value,
    /// `pending`, `cancelled` or `terminal`.
    pub state: &'static str,
    /// The next fire; none for an entry that is over.
    pub next_fire_ms: Option<u64>,
    pub fires_completed: u64,
    pub last_fired_ms: Option<u64>,
}

/// A watch.
#[derive(Debug)]
pub struct WatchEntryWire {
    pub creator: String,
    pub spec: WatchSpec,
    pub action: Value,
    /// `pending`, `matched`, `fired` or `cancelled`.
    pub state: &'static str,
    pub fires_completed: u64,
    pub last_fired_ms: Option<u64>,
}

/// An orphaned subject type.
#[derive(Debug)]
pub struct GrammarOrphanWire {
    pub subject_type: String,
    pub first_observed_at_ms: u64,
    pub last_observed_at_ms: u64,
    pub count: u64,
    /// `pending`, `migrating`, `resolved`, `accepted` or `recovered`.
    pub status: &'static str,
    pub accepted_reason: Option<String>,
    pub accepted_at_ms: Option<u64>,
    pub migration_id: Option<String>,
}

/// How many subjects a migration routes to a type.
#[derive(Debug)]
pub struct TargetTypeBreakdownWire {
    pub to_type: String,
    pub count: u64,
}

/// A response. Each shape has a key of its own, which is how consumers tell the
/// shapes apart; a flag that is such a key is always true.
#[derive(Debug)]
pub enum ClientResponse {
    Success { payload_b64: String },
    Projection(SubjectProjectionWire),
    ProjectionAliased {
        subject: Option<Box<SubjectProjectionWire>>,
        aliased_from: AliasedFromWire,
    },
    DescribeAliasResponse { ok: bool, subject_id: String, result: SubjectQueryResult },
    ActiveCustodies { active_custodies: Vec<CustodyRecordWire> },
    Capabilities {
        capabilities: bool,
        wire_version: u16,
        ops: Vec<&'static str>,
        features: Vec<&'static str>,
        catalogue_source: &'static str,
        clock_trust: &'static str,
        has_battery_rtc: bool,
        /// In ascending order of the kinds.
        coalesce_labels: Vec<KindLabels>,
    },
    Subscribed { subscribed: bool, current_seq: u64 },
    Happening { seq: u64, happening: HappeningWire },
    Plugins { plugins_inventory: bool, current_seq: u64, plugins: Vec<PluginInventoryEntry> },
    RackProjection {
        rack_projection: bool,
        rack: String,
        charter: String,
        current_seq: u64,
        shelves: Vec<RackShelfEntry>,
    },
    SubscribedSubject { subscribed_subject: bool, canonical_id: String, current_seq: u64 },
    /// The projection is missing if the subject is forgotten.
    ProjectionUpdate {
        seq: u64,
        canonical_id: String,
        projection: Option<Box<SubjectProjectionWire>>,
    },
    Lagged { lagged: LaggedSignal },
    SubjectsPage {
        subjects: Vec<SubjectListEntryWire>,
        next_cursor: Option<String>,
        current_seq: u64,
    },
    RelationsPage {
        relations: Vec<RelationListEntryWire>,
        next_cursor: Option<String>,
        current_seq: u64,
    },
    AddressingsPage {
        addressings: Vec<AddressingListEntryWire>,
        next_cursor: Option<String>,
        current_seq: u64,
    },
    Negotiated { ok: bool, granted: Vec<String> },
    Resolutions { resolutions: Vec<ClaimantResolutionWire> },
    PluginLifecycle {
        plugin_lifecycle: bool,
        plugin: String,
        was_currently_admitted: bool,
        change_applied: bool,
    },
    CatalogueReloaded {
        catalogue_reload: bool,
        from_schema_version: u32,
        to_schema_version: u32,
        rack_count: u32,
        duration_ms: u64,
        dry_run: bool,
    },
    ReconciliationPairs { reconciliation_pairs: bool, pairs: Vec<ReconciliationPairWire> },
    ReconciliationPairProjection {
        reconciliation_pair: bool,
        pair: String,
        generation: u64,
        applied_state: Value,
    },
    ReconcileNow { reconcile_now: bool, pair: String },
    UserInteractions { user_interactions: bool, prompts: Vec<UserInteractionWire> },
    UserInteractionAnswered { answered: bool, plugin: String, prompt_id: String },
    UserInteractionCancelled { cancelled: bool, plugin: String, prompt_id: String },
    AppointmentCreated {
        appointment_created: bool,
        creator: String,
        appointment_id: String,
        next_fire_ms: Option<u64>,
    },
    AppointmentCancelled {
        appointment_cancelled: bool,
        creator: String,
        appointment_id: String,
        cancelled: bool,
    },
    Appointments { appointments: bool, entries: Vec<AppointmentEntryWire> },
    AppointmentProjection {
        appointment_projection: bool,
        creator: String,
        appointment_id: String,
        entry: Option<AppointmentEntryWire>,
    },
    WatchCreated { watch_created: bool, creator: String, watch_id: String },
    WatchCancelled { watch_cancelled: bool, creator: String, watch_id: String, cancelled: bool },
    Watches { watches: bool, entries: Vec<WatchEntryWire> },
    WatchProjection {
        watch_projection: bool,
        creator: String,
        watch_id: String,
        entry: Option<WatchEntryWire>,
    },
    GrammarOrphans { grammar_orphans: bool, entries: Vec<GrammarOrphanWire> },
    GrammarOrphansAccepted { grammar_orphans_accepted: bool, from_type: String, accepted: bool },
    GrammarMigrationCompleted {
        grammar_migration: bool,
        migration_id: String,
        from_type: String,
        migrated_count: u64,
        unmigrated_count: u64,
        unmigrated_sample: Vec<String>,
        duration_ms: u64,
        dry_run: bool,
        target_type_breakdown: Vec<TargetTypeBreakdownWire>,
        sample_first: Vec<String>,
        sample_last: Vec<String>,
    },
    ManifestReloaded {
        manifest_reload: bool,
        plugin: String,
        from_manifest_version: String,
        to_manifest_version: String,
        duration_ms: u64,
        dry_run: bool,
    },
    CustodyTaken { custody: bool, shelf: String, handle: CustodyHandle },
    CustodyCourseCorrected { course_corrected: bool, shelf: String, handle_id: String },
    CustodyReleased { released: bool, shelf: String, handle_id: String },
    PluginReloaded { plugin_reload: bool, plugin: String },
    Error { error: ApiError },
}

}
