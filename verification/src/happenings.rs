//! Happenings: the transitions that the steward streams to consumers, in their
//! domain form and in their wire form.

use crate::claimant::{learns, lemma_learns_both, lemma_learns_nothing, token_of};
use crate::claimant::{ClaimantToken, ClaimantTokenIssuer};
use crate::time::{ms_of, system_time_to_ms};
use serde_json::Value;
use std::time::SystemTime;
use vstd::prelude::*;

verus! {

/// How a plugin judges itself.
#[derive(Debug, Clone, Copy, PartialEq, Eq, Structural)]
pub enum HealthStatus {
    Healthy,
    Degraded,
    Unhealthy,
}

/// The end of a relation whose declared cardinality is violated.
#[derive(Debug, Clone, Copy, PartialEq, Eq, Structural)]
pub enum CardinalityViolationSide {
    Source,
    Target,
}

/// How many relations a predicate allows at one end.
#[derive(Debug, Clone, Copy, PartialEq, Eq, Structural)]
pub enum Cardinality {
    ExactlyOne,
    AtMostOne,
    AtLeastOne,
    Many,
}

/// What kind of claim was reassigned.
#[derive(Debug, Clone, Copy, PartialEq, Eq, Structural)]
pub enum ReassignedClaimKind {
    Addressing,
    Relation,
}

/// What becomes of the relations of a subject that is split.
#[derive(Debug, Clone, Copy, PartialEq, Eq, Structural)]
pub enum SplitRelationStrategy {
    ToBoth,
    ToFirst,
    Explicit,
}

/// An addressing outside of the steward.
#[derive(Debug)]
pub struct ExternalAddressing {
    pub scheme: String,
    pub value: String,
}

/// Why a relation was forgotten.
#[derive(Debug)]
pub enum RelationForgottenReason {
    /// The last claim was retracted.
    ClaimsRetracted { retracting_plugin: String },
    /// A subject at one of its ends was forgotten.
    SubjectCascade { forgotten_subject: String },
}

/// Why a relation was forgotten, as consumers see it.
#[derive(Debug)]
pub enum RelationForgottenReasonWire {
    ClaimsRetracted { retracting_claimant_token: ClaimantToken },
    SubjectCascade { forgotten_subject: String },
}

impl RelationForgottenReason {
    /// The plugins that the reason names.
    pub open spec fn plugins(self) -> Seq<Seq<char>> {
        match self {
            RelationForgottenReason::ClaimsRetracted { retracting_plugin } => seq![
                retracting_plugin@,
            ],
            RelationForgottenReason::SubjectCascade { .. } => Seq::empty(),
        }
    }
}

impl RelationForgottenReasonWire {
    /// The wire form of a reason.
    pub open spec fn of(
        r: RelationForgottenReason,
        steward: Seq<char>,
    ) -> RelationForgottenReasonWire {
        match r {
            RelationForgottenReason::ClaimsRetracted { retracting_plugin } =>
                RelationForgottenReasonWire::ClaimsRetracted {
                retracting_claimant_token: token_of(steward, retracting_plugin@),
            },
            RelationForgottenReason::SubjectCascade { forgotten_subject } =>
                RelationForgottenReasonWire::SubjectCascade { forgotten_subject },
        }
    }

    /// The tokens that the reason shows.
    pub open spec fn tokens(self) -> Seq<ClaimantToken> {
        match self {
            RelationForgottenReasonWire::ClaimsRetracted { retracting_claimant_token } => seq![
                retracting_claimant_token,
            ],
            RelationForgottenReasonWire::SubjectCascade { .. } => Seq::empty(),
        }
    }

    /// The wire form of a reason.
    pub fn from_reason(r: RelationForgottenReason, issuer: &mut ClaimantTokenIssuer) -> (w: Self)
        ensures
            w == RelationForgottenReasonWire::of(r, old(issuer).instance_id@),
            final(issuer).instance_id == old(issuer).instance_id,
            learns(*old(issuer), *final(issuer), r.plugins().to_set()),
    {
        proof {
            lemma_learns_nothing(*issuer);
        }
        match r {
            RelationForgottenReason::ClaimsRetracted { retracting_plugin } =>
                RelationForgottenReasonWire::ClaimsRetracted {
                retracting_claimant_token: issuer.token_for(retracting_plugin.as_str()),
            },
            RelationForgottenReason::SubjectCascade { forgotten_subject } =>
                RelationForgottenReasonWire::SubjectCascade { forgotten_subject },
        }
    }
}

/// Who suppressed a relation, when and why.
#[derive(Debug)]
pub struct SuppressionRecord {
    pub admin_plugin: String,
    pub suppressed_at: SystemTime,
    pub reason: Option<String>,
}

/// Who suppressed a relation, when and why, as consumers see it.
#[derive(Debug)]
pub struct SuppressionRecordWire {
    pub admin_token: ClaimantToken,
    pub suppressed_at_ms: u64,
    pub reason: Option<String>,
}

impl SuppressionRecordWire {
    /// The wire form of a suppression record.
    pub open spec fn of(s: SuppressionRecord, steward: Seq<char>) -> SuppressionRecordWire {
        SuppressionRecordWire {
            admin_token: token_of(steward, s.admin_plugin@),
            suppressed_at_ms: ms_of(s.suppressed_at),
            reason: s.reason,
        }
    }

    /// The wire form of a suppression record.
    pub fn from_record(s: SuppressionRecord, issuer: &mut ClaimantTokenIssuer) -> (w: Self)
        ensures
            w == SuppressionRecordWire::of(s, old(issuer).instance_id@),
            final(issuer).instance_id == old(issuer).instance_id,
            learns(*old(issuer), *final(issuer), seq![s.admin_plugin@].to_set()),
    {
        SuppressionRecordWire {
            admin_token: issuer.token_for(s.admin_plugin.as_str()),
            suppressed_at_ms: system_time_to_ms(s.suppressed_at),
            reason: s.reason,
        }
    }
}

/// A transition of the fabric. Plugins appear by name.
#[derive(Debug)]
pub enum Happening {
    CustodyTaken {
        plugin: String,
        handle_id: String,
        shelf: String,
        custody_type: String,
        at: SystemTime,
    },
    CustodyReleased {
        plugin: String,
        handle_id: String,
        at: SystemTime,
    },
    CustodyStateReported {
        plugin: String,
        handle_id: String,
        health: HealthStatus,
        at: SystemTime,
    },
    CustodyAborted {
        plugin: String,
        handle_id: String,
        shelf: String,
        reason: String,
        at: SystemTime,
    },
    CustodyDegraded {
        plugin: String,
        handle_id: String,
        shelf: String,
        reason: String,
        at: SystemTime,
    },
    RelationCardinalityViolation {
        plugin: String,
        predicate: String,
        source_id: String,
        target_id: String,
        side: CardinalityViolationSide,
        declared: Cardinality,
        observed_count: usize,
        at: SystemTime,
    },
    SubjectForgotten {
        plugin: String,
        canonical_id: String,
        subject_type: String,
        at: SystemTime,
    },
    SubjectStateChanged {
        plugin: String,
        canonical_id: String,
        subject_type: String,
        prev_state: Value,
        new_state: Value,
        at: SystemTime,
    },
    RelationForgotten {
        plugin: String,
        source_id: String,
        predicate: String,
        target_id: String,
        reason: RelationForgottenReason,
        at: SystemTime,
    },
    SubjectAddressingForcedRetract {
        admin_plugin: String,
        target_plugin: String,
        canonical_id: String,
        scheme: String,
        value: String,
        reason: Option<String>,
        at: SystemTime,
    },
    RelationClaimForcedRetract {
        admin_plugin: String,
        target_plugin: String,
        source_id: String,
        predicate: String,
        target_id: String,
        reason: Option<String>,
        at: SystemTime,
    },
    SubjectMerged {
        admin_plugin: String,
        source_ids: Vec<String>,
        new_id: String,
        reason: Option<String>,
        at: SystemTime,
    },
    SubjectSplit {
        admin_plugin: String,
        source_id: String,
        new_ids: Vec<String>,
        strategy: SplitRelationStrategy,
        reason: Option<String>,
        at: SystemTime,
    },
    RelationSuppressed {
        admin_plugin: String,
        source_id: String,
        predicate: String,
        target_id: String,
        reason: Option<String>,
        at: SystemTime,
    },
    RelationSuppressionReasonUpdated {
        admin_plugin: String,
        source_id: String,
        predicate: String,
        target_id: String,
        old_reason: Option<String>,
        new_reason: Option<String>,
        at: SystemTime,
    },
    RelationUnsuppressed {
        admin_plugin: String,
        source_id: String,
        predicate: String,
        target_id: String,
        at: SystemTime,
    },
    RelationSplitAmbiguous {
        admin_plugin: String,
        source_subject: String,
        predicate: String,
        other_endpoint_id: String,
        candidate_new_ids: Vec<String>,
        at: SystemTime,
    },
    RelationRewritten {
        admin_plugin: String,
        predicate: String,
        old_subject_id: String,
        new_subject_id: String,
        target_id: String,
        at: SystemTime,
    },
    RelationCardinalityViolatedPostRewrite {
        admin_plugin: String,
        subject_id: String,
        predicate: String,
        side: CardinalityViolationSide,
        declared: Cardinality,
        observed_count: usize,
        at: SystemTime,
    },
    ClaimReassigned {
        admin_plugin: String,
        plugin: String,
        kind: ReassignedClaimKind,
        old_subject_id: String,
        new_subject_id: String,
        scheme: Option<String>,
        value: Option<String>,
        predicate: Option<String>,
        target_id: Option<String>,
        at: SystemTime,
    },
    RelationClaimSuppressionCollapsed {
        admin_plugin: String,
        subject_id: String,
        predicate: String,
        target_id: String,
        demoted_claimant: String,
        surviving_suppression_record: SuppressionRecord,
        at: SystemTime,
    },
    SubjectConflictDetected {
        plugin: String,
        addressings: Vec<ExternalAddressing>,
        canonical_ids: Vec<String>,
        at: SystemTime,
    },
    FactoryInstanceAnnounced {
        plugin: String,
        instance_id: String,
        canonical_id: String,
        shelf: String,
        payload_bytes: usize,
        at: SystemTime,
    },
    FactoryInstanceRetracted {
        plugin: String,
        instance_id: String,
        canonical_id: String,
        shelf: String,
        at: SystemTime,
    },
    CatalogueFallback {
        source: String,
        reason: String,
        at: SystemTime,
    },
    ClockTrustChanged {
        from: String,
        to: String,
        at: SystemTime,
    },
    ClockAdjusted {
        delta_seconds: i64,
        at: SystemTime,
    },
    AppointmentApproaching {
        creator: String,
        appointment_id: String,
        scheduled_for_ms: u64,
        fires_in_ms: u32,
        at: SystemTime,
    },
    AppointmentFired {
        creator: String,
        appointment_id: String,
        fired_at_ms: u64,
        dispatch_outcome: String,
        at: SystemTime,
    },
    AppointmentMissed {
        creator: String,
        appointment_id: String,
        scheduled_for_ms: u64,
        reason: String,
        at: SystemTime,
    },
    AppointmentCancelled {
        creator: String,
        appointment_id: String,
        cancelled_by: String,
        at: SystemTime,
    },
    WatchFired {
        creator: String,
        watch_id: String,
        fired_at_ms: u64,
        dispatch_outcome: String,
        at: SystemTime,
    },
    WatchMissed {
        creator: String,
        watch_id: String,
        suppressed_at_ms: u64,
        reason: String,
        at: SystemTime,
    },
    WatchCancelled {
        creator: String,
        watch_id: String,
        cancelled_by: String,
        at: SystemTime,
    },
    WatchEvaluationThrottled {
        creator: String,
        watch_id: String,
        dropped: u64,
        at: SystemTime,
    },
    SubjectGrammarOrphan {
        subject_type: String,
        count: u64,
        first_observed_at_ms: u64,
        at: SystemTime,
    },
    SubjectMigrated {
        old_id: String,
        new_id: String,
        from_type: String,
        to_type: String,
        migration_id: String,
        at: SystemTime,
    },
    GrammarMigrationProgress {
        migration_id: String,
        from_type: String,
        completed: u64,
        remaining: u64,
        batch_index: u32,
        at: SystemTime,
    },
    GrammarOrphansAccepted {
        subject_type: String,
        reason: String,
        at: SystemTime,
    },
    FlightModeChanged {
        rack_class: String,
        on: bool,
        at: SystemTime,
    },
    PluginEvent {
        plugin: String,
        event_type: String,
        payload: Value,
        at: SystemTime,
    },
    PluginManifestDrift {
        plugin: String,
        missing_in_implementation: Vec<String>,
        missing_in_manifest: Vec<String>,
        admitted: bool,
        at: SystemTime,
    },
    PluginVersionSkewWarning {
        plugin: String,
        evo_min_version: String,
        skew_minor_versions: u32,
        at: SystemTime,
    },
    PluginLiveReloadStarted {
        plugin: String,
        from_version: String,
        to_version: String,
        at: SystemTime,
    },
    PluginLiveReloadCompleted {
        plugin: String,
        from_version: String,
        to_version: String,
        state_blob_bytes: u64,
        at: SystemTime,
    },
    ReconciliationApplied {
        pair: String,
        generation: u64,
        applied_state: Value,
        at: SystemTime,
    },
    ReconciliationFailed {
        pair: String,
        generation: u64,
        error_class: String,
        error_message: String,
        at: SystemTime,
    },
    PluginAdmissionSkipped {
        plugin: String,
        reason: String,
        at: SystemTime,
    },
    CatalogueReloaded {
        from_schema_version: u32,
        to_schema_version: u32,
        rack_count: u32,
        at: SystemTime,
    },
    CatalogueInvalid {
        stage: String,
        reason: String,
        at: SystemTime,
    },
    CardinalityViolation {
        shelf: String,
        reason: String,
        at: SystemTime,
    },
    PluginManifestReloaded {
        plugin: String,
        from_manifest_version: String,
        to_manifest_version: String,
        at: SystemTime,
    },
    PluginManifestInvalid {
        plugin: String,
        stage: String,
        reason: String,
        at: SystemTime,
    },
    PluginLiveReloadFailed {
        plugin: String,
        from_version: String,
        to_version: String,
        stage: String,
        reason: String,
        rolled_back: bool,
        at: SystemTime,
    },
}

/// A transition of the fabric as consumers see it: plugins appear by token,
/// times in milliseconds since the UNIX epoch.
#[derive(Debug)]
pub enum HappeningWire {
    CustodyTaken {
        claimant_token: ClaimantToken,
        handle_id: String,
        shelf: String,
        custody_type: String,
        at_ms: u64,
    },
    CustodyReleased {
        claimant_token: ClaimantToken,
        handle_id: String,
        at_ms: u64,
    },
    CustodyStateReported {
        claimant_token: ClaimantToken,
        handle_id: String,
        health: HealthStatus,
        at_ms: u64,
    },
    CustodyAborted {
        claimant_token: ClaimantToken,
        handle_id: String,
        shelf: String,
        reason: String,
        at_ms: u64,
    },
    CustodyDegraded {
        claimant_token: ClaimantToken,
        handle_id: String,
        shelf: String,
        reason: String,
        at_ms: u64,
    },
    RelationCardinalityViolation {
        claimant_token: ClaimantToken,
        predicate: String,
        source_id: String,
        target_id: String,
        side: CardinalityViolationSide,
        declared: Cardinality,
        observed_count: usize,
        at_ms: u64,
    },
    SubjectForgotten {
        claimant_token: ClaimantToken,
        canonical_id: String,
        subject_type: String,
        at_ms: u64,
    },
    SubjectStateChanged {
        claimant_token: ClaimantToken,
        canonical_id: String,
        subject_type: String,
        prev_state: Value,
        new_state: Value,
        at_ms: u64,
    },
    RelationForgotten {
        claimant_token: ClaimantToken,
        source_id: String,
        predicate: String,
        target_id: String,
        reason: RelationForgottenReasonWire,
        at_ms: u64,
    },
    SubjectAddressingForcedRetract {
        admin_token: ClaimantToken,
        target_token: ClaimantToken,
        canonical_id: String,
        scheme: String,
        value: String,
        reason: Option<String>,
        at_ms: u64,
    },
    RelationClaimForcedRetract {
        admin_token: ClaimantToken,
        target_token: ClaimantToken,
        source_id: String,
        predicate: String,
        target_id: String,
        reason: Option<String>,
        at_ms: u64,
    },
    SubjectMerged {
        admin_token: ClaimantToken,
        source_ids: Vec<String>,
        new_id: String,
        reason: Option<String>,
        at_ms: u64,
    },
    SubjectSplit {
        admin_token: ClaimantToken,
        source_id: String,
        new_ids: Vec<String>,
        strategy: SplitRelationStrategy,
        reason: Option<String>,
        at_ms: u64,
    },
    RelationSuppressed {
        admin_token: ClaimantToken,
        source_id: String,
        predicate: String,
        target_id: String,
        reason: Option<String>,
        at_ms: u64,
    },
    RelationSuppressionReasonUpdated {
        admin_token: ClaimantToken,
        source_id: String,
        predicate: String,
        target_id: String,
        old_reason: Option<String>,
        new_reason: Option<String>,
        at_ms: u64,
    },
    RelationUnsuppressed {
        admin_token: ClaimantToken,
        source_id: String,
        predicate: String,
        target_id: String,
        at_ms: u64,
    },
    RelationSplitAmbiguous {
        admin_token: ClaimantToken,
        source_subject: String,
        predicate: String,
        other_endpoint_id: String,
        candidate_new_ids: Vec<String>,
        at_ms: u64,
    },
    RelationRewritten {
        admin_token: ClaimantToken,
        predicate: String,
        old_subject_id: String,
        new_subject_id: String,
        target_id: String,
        at_ms: u64,
    },
    RelationCardinalityViolatedPostRewrite {
        admin_token: ClaimantToken,
        subject_id: String,
        predicate: String,
        side: CardinalityViolationSide,
        declared: Cardinality,
        observed_count: usize,
        at_ms: u64,
    },
    ClaimReassigned {
        admin_token: ClaimantToken,
        claimant_token: ClaimantToken,
        kind: ReassignedClaimKind,
        old_subject_id: String,
        new_subject_id: String,
        scheme: Option<String>,
        value: Option<String>,
        predicate: Option<String>,
        target_id: Option<String>,
        at_ms: u64,
    },
    RelationClaimSuppressionCollapsed {
        admin_token: ClaimantToken,
        subject_id: String,
        predicate: String,
        target_id: String,
        demoted_claimant_token: ClaimantToken,
        surviving_suppression_record: SuppressionRecordWire,
        at_ms: u64,
    },
    SubjectConflictDetected {
        claimant_token: ClaimantToken,
        addressings: Vec<ExternalAddressing>,
        canonical_ids: Vec<String>,
        at_ms: u64,
    },
    FactoryInstanceAnnounced {
        claimant_token: ClaimantToken,
        instance_id: String,
        canonical_id: String,
        shelf: String,
        payload_bytes: usize,
        at_ms: u64,
    },
    FactoryInstanceRetracted {
        claimant_token: ClaimantToken,
        instance_id: String,
        canonical_id: String,
        shelf: String,
        at_ms: u64,
    },
    CatalogueFallback {
        source: String,
        reason: String,
        at_ms: u64,
    },
    ClockTrustChanged {
        from: String,
        to: String,
        at_ms: u64,
    },
    ClockAdjusted {
        delta_seconds: i64,
        at_ms: u64,
    },
    AppointmentApproaching {
        creator: String,
        appointment_id: String,
        scheduled_for_ms: u64,
        fires_in_ms: u32,
        at_ms: u64,
    },
    AppointmentFired {
        creator: String,
        appointment_id: String,
        fired_at_ms: u64,
        dispatch_outcome: String,
        at_ms: u64,
    },
    AppointmentMissed {
        creator: String,
        appointment_id: String,
        scheduled_for_ms: u64,
        reason: String,
        at_ms: u64,
    },
    AppointmentCancelled {
        creator: String,
        appointment_id: String,
        cancelled_by: String,
        at_ms: u64,
    },
    WatchFired {
        creator: String,
        watch_id: String,
        fired_at_ms: u64,
        dispatch_outcome: String,
        at_ms: u64,
    },
    WatchMissed {
        creator: String,
        watch_id: String,
        suppressed_at_ms: u64,
        reason: String,
        at_ms: u64,
    },
    WatchCancelled {
        creator: String,
        watch_id: String,
        cancelled_by: String,
        at_ms: u64,
    },
    WatchEvaluationThrottled {
        creator: String,
        watch_id: String,
        dropped: u64,
        at_ms: u64,
    },
    SubjectGrammarOrphan {
        subject_type: String,
        count: u64,
        first_observed_at_ms: u64,
        at_ms: u64,
    },
    SubjectMigrated {
        old_id: String,
        new_id: String,
        from_type: String,
        to_type: String,
        migration_id: String,
        at_ms: u64,
    },
    GrammarMigrationProgress {
        migration_id: String,
        from_type: String,
        completed: u64,
        remaining: u64,
        batch_index: u32,
        at_ms: u64,
    },
    GrammarOrphansAccepted {
        subject_type: String,
        reason: String,
        at_ms: u64,
    },
    FlightModeChanged {
        rack_class: String,
        on: bool,
        at_ms: u64,
    },
    PluginEvent {
        claimant_token: ClaimantToken,
        event_type: String,
        payload: Value,
        at_ms: u64,
    },
    PluginManifestDrift {
        claimant_token: ClaimantToken,
        missing_in_implementation: Vec<String>,
        missing_in_manifest: Vec<String>,
        admitted: bool,
        at_ms: u64,
    },
    PluginVersionSkewWarning {
        claimant_token: ClaimantToken,
        evo_min_version: String,
        skew_minor_versions: u32,
        at_ms: u64,
    },
    PluginLiveReloadStarted {
        claimant_token: ClaimantToken,
        from_version: String,
        to_version: String,
        at_ms: u64,
    },
    PluginLiveReloadCompleted {
        claimant_token: ClaimantToken,
        from_version: String,
        to_version: String,
        state_blob_bytes: u64,
        at_ms: u64,
    },
    ReconciliationApplied {
        pair: String,
        generation: u64,
        applied_state: Value,
        at_ms: u64,
    },
    ReconciliationFailed {
        pair: String,
        generation: u64,
        error_class: String,
        error_message: String,
        at_ms: u64,
    },
    PluginAdmissionSkipped {
        claimant_token: ClaimantToken,
        reason: String,
        at_ms: u64,
    },
    CatalogueReloaded {
        from_schema_version: u32,
        to_schema_version: u32,
        rack_count: u32,
        at_ms: u64,
    },
    CatalogueInvalid {
        stage: String,
        reason: String,
        at_ms: u64,
    },
    CardinalityViolation {
        shelf: String,
        reason: String,
        at_ms: u64,
    },
    PluginManifestReloaded {
        claimant_token: ClaimantToken,
        from_manifest_version: String,
        to_manifest_version: String,
        at_ms: u64,
    },
    PluginManifestInvalid {
        claimant_token: ClaimantToken,
        stage: String,
        reason: String,
        at_ms: u64,
    },
    PluginLiveReloadFailed {
        claimant_token: ClaimantToken,
        from_version: String,
        to_version: String,
        stage: String,
        reason: String,
        rolled_back: bool,
        at_ms: u64,
    },
}

fn two_tokens(first: &str, second: &str, issuer: &mut ClaimantTokenIssuer) -> (r: (
    ClaimantToken,
    ClaimantToken,
))
    ensures
        r.0 == token_of(old(issuer).instance_id@, first@),
        r.1 == token_of(old(issuer).instance_id@, second@),
        final(issuer).instance_id == old(issuer).instance_id,
        learns(*old(issuer), *final(issuer), seq![first@, second@].to_set()),
{
    let ghost before = *issuer;
    let a = issuer.token_for(first);
    let ghost between = *issuer;
    let b = issuer.token_for(second);
    proof {
        lemma_learns_both(before, between, *issuer, seq![first@], seq![second@]);
        assert(seq![first@] + seq![second@] =~= seq![first@, second@]);
    }
    (a, b)
}

impl HappeningWire {
    /// The wire form of a happening: the same kind and fields, with every
    /// plugin name replaced by its token and the time in milliseconds.
    #[verifier::opaque]
    pub open spec fn of(h: Happening, steward: Seq<char>) -> HappeningWire {
        match h {
            Happening::CustodyTaken { plugin, handle_id, shelf, custody_type, at } => {
                HappeningWire::CustodyTaken {
                    claimant_token: token_of(steward, plugin@),
                    handle_id,
                    shelf,
                    custody_type,
                    at_ms: ms_of(at),
                }
            },
            Happening::CustodyReleased { plugin, handle_id, at } => HappeningWire::CustodyReleased {
                claimant_token: token_of(steward, plugin@),
                handle_id,
                at_ms: ms_of(at),
            },
            Happening::CustodyStateReported { plugin, handle_id, health, at } => {
                HappeningWire::CustodyStateReported {
                    claimant_token: token_of(steward, plugin@),
                    handle_id,
                    health,
                    at_ms: ms_of(at),
                }
            },
            Happening::CustodyAborted { plugin, handle_id, shelf, reason, at } => {
                HappeningWire::CustodyAborted {
                    claimant_token: token_of(steward, plugin@),
                    handle_id,
                    shelf,
                    reason,
                    at_ms: ms_of(at),
                }
            },
            Happening::CustodyDegraded { plugin, handle_id, shelf, reason, at } => {
                HappeningWire::CustodyDegraded {
                    claimant_token: token_of(steward, plugin@),
                    handle_id,
                    shelf,
                    reason,
                    at_ms: ms_of(at),
                }
            },
            Happening::RelationCardinalityViolation {
                plugin,
                predicate,
                source_id,
                target_id,
                side,
                declared,
                observed_count,
                at,
            } => {
                HappeningWire::RelationCardinalityViolation {
                    claimant_token: token_of(steward, plugin@),
                    predicate,
                    source_id,
                    target_id,
                    side,
                    declared,
                    observed_count,
                    at_ms: ms_of(at),
                }
            },
            Happening::SubjectForgotten { plugin, canonical_id, subject_type, at } => {
                HappeningWire::SubjectForgotten {
                    claimant_token: token_of(steward, plugin@),
                    canonical_id,
                    subject_type,
                    at_ms: ms_of(at),
                }
            },
            Happening::SubjectStateChanged {
                plugin,
                canonical_id,
                subject_type,
                prev_state,
                new_state,
                at,
            } => {
                HappeningWire::SubjectStateChanged {
                    claimant_token: token_of(steward, plugin@),
                    canonical_id,
                    subject_type,
                    prev_state,
                    new_state,
                    at_ms: ms_of(at),
                }
            },
            Happening::RelationForgotten {
                plugin,
                source_id,
                predicate,
                target_id,
                reason,
                at,
            } => {
                HappeningWire::RelationForgotten {
                    claimant_token: token_of(steward, plugin@),
                    source_id,
                    predicate,
                    target_id,
                    reason: RelationForgottenReasonWire::of(reason, steward),
                    at_ms: ms_of(at),
                }
            },
            Happening::SubjectAddressingForcedRetract {
                admin_plugin,
                target_plugin,
                canonical_id,
                scheme,
                value,
                reason,
                at,
            } => {
                HappeningWire::SubjectAddressingForcedRetract {
                    admin_token: token_of(steward, admin_plugin@),
                    target_token: token_of(steward, target_plugin@),
                    canonical_id,
                    scheme,
                    value,
                    reason,
                    at_ms: ms_of(at),
                }
            },
            Happening::RelationClaimForcedRetract {
                admin_plugin,
                target_plugin,
                source_id,
                predicate,
                target_id,
                reason,
                at,
            } => {
                HappeningWire::RelationClaimForcedRetract {
                    admin_token: token_of(steward, admin_plugin@),
                    target_token: token_of(steward, target_plugin@),
                    source_id,
                    predicate,
                    target_id,
                    reason,
                    at_ms: ms_of(at),
                }
            },
            Happening::SubjectMerged { admin_plugin, source_ids, new_id, reason, at } => {
                HappeningWire::SubjectMerged {
                    admin_token: token_of(steward, admin_plugin@),
                    source_ids,
                    new_id,
                    reason,
                    at_ms: ms_of(at),
                }
            },
            Happening::SubjectSplit { admin_plugin, source_id, new_ids, strategy, reason, at } => {
                HappeningWire::SubjectSplit {
                    admin_token: token_of(steward, admin_plugin@),
                    source_id,
                    new_ids,
                    strategy,
                    reason,
                    at_ms: ms_of(at),
                }
            },
            Happening::RelationSuppressed {
                admin_plugin,
                source_id,
                predicate,
                target_id,
                reason,
                at,
            } => {
                HappeningWire::RelationSuppressed {
                    admin_token: token_of(steward, admin_plugin@),
                    source_id,
                    predicate,
                    target_id,
                    reason,
                    at_ms: ms_of(at),
                }
            },
            Happening::RelationSuppressionReasonUpdated {
                admin_plugin,
                source_id,
                predicate,
                target_id,
                old_reason,
                new_reason,
                at,
            } => {
                HappeningWire::RelationSuppressionReasonUpdated {
                    admin_token: token_of(steward, admin_plugin@),
                    source_id,
                    predicate,
                    target_id,
                    old_reason,
                    new_reason,
                    at_ms: ms_of(at),
                }
            },
            Happening::RelationUnsuppressed {
                admin_plugin,
                source_id,
                predicate,
                target_id,
                at,
            } => {
                HappeningWire::RelationUnsuppressed {
                    admin_token: token_of(steward, admin_plugin@),
                    source_id,
                    predicate,
                    target_id,
                    at_ms: ms_of(at),
                }
            },
            Happening::RelationSplitAmbiguous {
                admin_plugin,
                source_subject,
                predicate,
                other_endpoint_id,
                candidate_new_ids,
                at,
            } => {
                HappeningWire::RelationSplitAmbiguous {
                    admin_token: token_of(steward, admin_plugin@),
                    source_subject,
                    predicate,
                    other_endpoint_id,
                    candidate_new_ids,
                    at_ms: ms_of(at),
                }
            },
            Happening::RelationRewritten {
                admin_plugin,
                predicate,
                old_subject_id,
                new_subject_id,
                target_id,
                at,
            } => {
                HappeningWire::RelationRewritten {
                    admin_token: token_of(steward, admin_plugin@),
                    predicate,
                    old_subject_id,
                    new_subject_id,
                    target_id,
                    at_ms: ms_of(at),
                }
            },
            Happening::RelationCardinalityViolatedPostRewrite {
                admin_plugin,
                subject_id,
                predicate,
                side,
                declared,
                observed_count,
                at,
            } => {
                HappeningWire::RelationCardinalityViolatedPostRewrite {
                    admin_token: token_of(steward, admin_plugin@),
                    subject_id,
                    predicate,
                    side,
                    declared,
                    observed_count,
                    at_ms: ms_of(at),
                }
            },
            Happening::ClaimReassigned {
                admin_plugin,
                plugin,
                kind,
                old_subject_id,
                new_subject_id,
                scheme,
                value,
                predicate,
                target_id,
                at,
            } => {
                HappeningWire::ClaimReassigned {
                    admin_token: token_of(steward, admin_plugin@),
                    claimant_token: token_of(steward, plugin@),
                    kind,
                    old_subject_id,
                    new_subject_id,
                    scheme,
                    value,
                    predicate,
                    target_id,
                    at_ms: ms_of(at),
                }
            },
            Happening::RelationClaimSuppressionCollapsed {
                admin_plugin,
                subject_id,
                predicate,
                target_id,
                demoted_claimant,
                surviving_suppression_record,
                at,
            } => {
                HappeningWire::RelationClaimSuppressionCollapsed {
                    admin_token: token_of(steward, admin_plugin@),
                    subject_id,
                    predicate,
                    target_id,
                    demoted_claimant_token: token_of(steward, demoted_claimant@),
                    surviving_suppression_record: SuppressionRecordWire::of(
                        surviving_suppression_record,
                        steward,
                    ),
                    at_ms: ms_of(at),
                }
            },
            Happening::SubjectConflictDetected { plugin, addressings, canonical_ids, at } => {
                HappeningWire::SubjectConflictDetected {
                    claimant_token: token_of(steward, plugin@),
                    addressings,
                    canonical_ids,
                    at_ms: ms_of(at),
                }
            },
            Happening::FactoryInstanceAnnounced {
                plugin,
                instance_id,
                canonical_id,
                shelf,
                payload_bytes,
                at,
            } => {
                HappeningWire::FactoryInstanceAnnounced {
                    claimant_token: token_of(steward, plugin@),
                    instance_id,
                    canonical_id,
                    shelf,
                    payload_bytes,
                    at_ms: ms_of(at),
                }
            },
            Happening::FactoryInstanceRetracted {
                plugin,
                instance_id,
                canonical_id,
                shelf,
                at,
            } => {
                HappeningWire::FactoryInstanceRetracted {
                    claimant_token: token_of(steward, plugin@),
                    instance_id,
                    canonical_id,
                    shelf,
                    at_ms: ms_of(at),
                }
            },
            Happening::CatalogueFallback { source, reason, at } => {
                HappeningWire::CatalogueFallback {
                    source,
                    reason,
                    at_ms: ms_of(at),
                }
            },
            Happening::ClockTrustChanged { from, to, at } => HappeningWire::ClockTrustChanged {
                from,
                to,
                at_ms: ms_of(at),
            },
            Happening::ClockAdjusted { delta_seconds, at } => HappeningWire::ClockAdjusted {
                delta_seconds,
                at_ms: ms_of(at),
            },
            Happening::AppointmentApproaching {
                creator,
                appointment_id,
                scheduled_for_ms,
                fires_in_ms,
                at,
            } => {
                HappeningWire::AppointmentApproaching {
                    creator,
                    appointment_id,
                    scheduled_for_ms,
                    fires_in_ms,
                    at_ms: ms_of(at),
                }
            },
            Happening::AppointmentFired {
                creator,
                appointment_id,
                fired_at_ms,
                dispatch_outcome,
                at,
            } => {
                HappeningWire::AppointmentFired {
                    creator,
                    appointment_id,
                    fired_at_ms,
                    dispatch_outcome,
                    at_ms: ms_of(at),
                }
            },
            Happening::AppointmentMissed {
                creator,
                appointment_id,
                scheduled_for_ms,
                reason,
                at,
            } => {
                HappeningWire::AppointmentMissed {
                    creator,
                    appointment_id,
                    scheduled_for_ms,
                    reason,
                    at_ms: ms_of(at),
                }
            },
            Happening::AppointmentCancelled { creator, appointment_id, cancelled_by, at } => {
                HappeningWire::AppointmentCancelled {
                    creator,
                    appointment_id,
                    cancelled_by,
                    at_ms: ms_of(at),
                }
            },
            Happening::WatchFired { creator, watch_id, fired_at_ms, dispatch_outcome, at } => {
                HappeningWire::WatchFired {
                    creator,
                    watch_id,
                    fired_at_ms,
                    dispatch_outcome,
                    at_ms: ms_of(at),
                }
            },
            Happening::WatchMissed { creator, watch_id, suppressed_at_ms, reason, at } => {
                HappeningWire::WatchMissed {
                    creator,
                    watch_id,
                    suppressed_at_ms,
                    reason,
                    at_ms: ms_of(at),
                }
            },
            Happening::WatchCancelled { creator, watch_id, cancelled_by, at } => {
                HappeningWire::WatchCancelled {
                    creator,
                    watch_id,
                    cancelled_by,
                    at_ms: ms_of(at),
                }
            },
            Happening::WatchEvaluationThrottled { creator, watch_id, dropped, at } => {
                HappeningWire::WatchEvaluationThrottled {
                    creator,
                    watch_id,
                    dropped,
                    at_ms: ms_of(at),
                }
            },
            Happening::SubjectGrammarOrphan { subject_type, count, first_observed_at_ms, at } => {
                HappeningWire::SubjectGrammarOrphan {
                    subject_type,
                    count,
                    first_observed_at_ms,
                    at_ms: ms_of(at),
                }
            },
            Happening::SubjectMigrated { old_id, new_id, from_type, to_type, migration_id, at } => {
                HappeningWire::SubjectMigrated {
                    old_id,
                    new_id,
                    from_type,
                    to_type,
                    migration_id,
                    at_ms: ms_of(at),
                }
            },
            Happening::GrammarMigrationProgress {
                migration_id,
                from_type,
                completed,
                remaining,
                batch_index,
                at,
            } => {
                HappeningWire::GrammarMigrationProgress {
                    migration_id,
                    from_type,
                    completed,
                    remaining,
                    batch_index,
                    at_ms: ms_of(at),
                }
            },
            Happening::GrammarOrphansAccepted { subject_type, reason, at } => {
                HappeningWire::GrammarOrphansAccepted {
                    subject_type,
                    reason,
                    at_ms: ms_of(at),
                }
            },
            Happening::FlightModeChanged { rack_class, on, at } => {
                HappeningWire::FlightModeChanged {
                    rack_class,
                    on,
                    at_ms: ms_of(at),
                }
            },
            Happening::PluginEvent { plugin, event_type, payload, at } => {
                HappeningWire::PluginEvent {
                    claimant_token: token_of(steward, plugin@),
                    event_type,
                    payload,
                    at_ms: ms_of(at),
                }
            },
            Happening::PluginManifestDrift {
                plugin,
                missing_in_implementation,
                missing_in_manifest,
                admitted,
                at,
            } => {
                HappeningWire::PluginManifestDrift {
                    claimant_token: token_of(steward, plugin@),
                    missing_in_implementation,
                    missing_in_manifest,
                    admitted,
                    at_ms: ms_of(at),
                }
            },
            Happening::PluginVersionSkewWarning {
                plugin,
                evo_min_version,
                skew_minor_versions,
                at,
            } => {
                HappeningWire::PluginVersionSkewWarning {
                    claimant_token: token_of(steward, plugin@),
                    evo_min_version,
                    skew_minor_versions,
                    at_ms: ms_of(at),
                }
            },
            Happening::PluginLiveReloadStarted { plugin, from_version, to_version, at } => {
                HappeningWire::PluginLiveReloadStarted {
                    claimant_token: token_of(steward, plugin@),
                    from_version,
                    to_version,
                    at_ms: ms_of(at),
                }
            },
            Happening::PluginLiveReloadCompleted {
                plugin,
                from_version,
                to_version,
                state_blob_bytes,
                at,
            } => {
                HappeningWire::PluginLiveReloadCompleted {
                    claimant_token: token_of(steward, plugin@),
                    from_version,
                    to_version,
                    state_blob_bytes,
                    at_ms: ms_of(at),
                }
            },
            Happening::ReconciliationApplied { pair, generation, applied_state, at } => {
                HappeningWire::ReconciliationApplied {
                    pair,
                    generation,
                    applied_state,
                    at_ms: ms_of(at),
                }
            },
            Happening::ReconciliationFailed {
                pair,
                generation,
                error_class,
                error_message,
                at,
            } => {
                HappeningWire::ReconciliationFailed {
                    pair,
                    generation,
                    error_class,
                    error_message,
                    at_ms: ms_of(at),
                }
            },
            Happening::PluginAdmissionSkipped { plugin, reason, at } => {
                HappeningWire::PluginAdmissionSkipped {
                    claimant_token: token_of(steward, plugin@),
                    reason,
                    at_ms: ms_of(at),
                }
            },
            Happening::CatalogueReloaded {
                from_schema_version,
                to_schema_version,
                rack_count,
                at,
            } => {
                HappeningWire::CatalogueReloaded {
                    from_schema_version,
                    to_schema_version,
                    rack_count,
                    at_ms: ms_of(at),
                }
            },
            Happening::CatalogueInvalid { stage, reason, at } => HappeningWire::CatalogueInvalid {
                stage,
                reason,
                at_ms: ms_of(at),
            },
            Happening::CardinalityViolation { shelf, reason, at } => {
                HappeningWire::CardinalityViolation {
                    shelf,
                    reason,
                    at_ms: ms_of(at),
                }
            },
            Happening::PluginManifestReloaded {
                plugin,
                from_manifest_version,
                to_manifest_version,
                at,
            } => {
                HappeningWire::PluginManifestReloaded {
                    claimant_token: token_of(steward, plugin@),
                    from_manifest_version,
                    to_manifest_version,
                    at_ms: ms_of(at),
                }
            },
            Happening::PluginManifestInvalid { plugin, stage, reason, at } => {
                HappeningWire::PluginManifestInvalid {
                    claimant_token: token_of(steward, plugin@),
                    stage,
                    reason,
                    at_ms: ms_of(at),
                }
            },
            Happening::PluginLiveReloadFailed {
                plugin,
                from_version,
                to_version,
                stage,
                reason,
                rolled_back,
                at,
            } => {
                HappeningWire::PluginLiveReloadFailed {
                    claimant_token: token_of(steward, plugin@),
                    from_version,
                    to_version,
                    stage,
                    reason,
                    rolled_back,
                    at_ms: ms_of(at),
                }
            },
        }
    }

    /// The wire form of a happening.
    pub fn from_happening(h: Happening, issuer: &mut ClaimantTokenIssuer) -> (r: HappeningWire)
        ensures
            r == HappeningWire::of(h, old(issuer).instance_id@),
            final(issuer).instance_id == old(issuer).instance_id,
            learns(*old(issuer), *final(issuer), h.plugins().to_set()),
    {
        let ghost before = *issuer;
        proof {
            reveal(HappeningWire::of);
            reveal(Happening::plugins);
            lemma_learns_nothing(before);
        }
        match h {
            Happening::CustodyTaken { plugin, handle_id, shelf, custody_type, at } => {
                HappeningWire::CustodyTaken {
                    claimant_token: issuer.token_for(plugin.as_str()),
                    handle_id,
                    shelf,
                    custody_type,
                    at_ms: system_time_to_ms(at),
                }
            },
            Happening::CustodyReleased { plugin, handle_id, at } => HappeningWire::CustodyReleased {
                claimant_token: issuer.token_for(plugin.as_str()),
                handle_id,
                at_ms: system_time_to_ms(at),
            },
            Happening::CustodyStateReported { plugin, handle_id, health, at } => {
                HappeningWire::CustodyStateReported {
                    claimant_token: issuer.token_for(plugin.as_str()),
                    handle_id,
                    health,
                    at_ms: system_time_to_ms(at),
                }
            },
            Happening::CustodyAborted { plugin, handle_id, shelf, reason, at } => {
                HappeningWire::CustodyAborted {
                    claimant_token: issuer.token_for(plugin.as_str()),
                    handle_id,
                    shelf,
                    reason,
                    at_ms: system_time_to_ms(at),
                }
            },
            Happening::CustodyDegraded { plugin, handle_id, shelf, reason, at } => {
                HappeningWire::CustodyDegraded {
                    claimant_token: issuer.token_for(plugin.as_str()),
                    handle_id,
                    shelf,
                    reason,
                    at_ms: system_time_to_ms(at),
                }
            },
            Happening::RelationCardinalityViolation {
                plugin,
                predicate,
                source_id,
                target_id,
                side,
                declared,
                observed_count,
                at,
            } => {
                HappeningWire::RelationCardinalityViolation {
                    claimant_token: issuer.token_for(plugin.as_str()),
                    predicate,
                    source_id,
                    target_id,
                    side,
                    declared,
                    observed_count,
                    at_ms: system_time_to_ms(at),
                }
            },
            Happening::SubjectForgotten { plugin, canonical_id, subject_type, at } => {
                HappeningWire::SubjectForgotten {
                    claimant_token: issuer.token_for(plugin.as_str()),
                    canonical_id,
                    subject_type,
                    at_ms: system_time_to_ms(at),
                }
            },
            Happening::SubjectStateChanged {
                plugin,
                canonical_id,
                subject_type,
                prev_state,
                new_state,
                at,
            } => {
                HappeningWire::SubjectStateChanged {
                    claimant_token: issuer.token_for(plugin.as_str()),
                    canonical_id,
                    subject_type,
                    prev_state,
                    new_state,
                    at_ms: system_time_to_ms(at),
                }
            },
            Happening::RelationForgotten {
                plugin,
                source_id,
                predicate,
                target_id,
                reason,
                at,
            } => {
                let claimant_token = issuer.token_for(plugin.as_str());
                let ghost between = *issuer;
                let ghost named = reason.plugins();
                let shown = RelationForgottenReasonWire::from_reason(reason, issuer);
                proof {
                    lemma_learns_both(before, between, *issuer, seq![plugin@], named);
                }
                HappeningWire::RelationForgotten {
                    claimant_token,
                    source_id,
                    predicate,
                    target_id,
                    reason: shown,
                    at_ms: system_time_to_ms(at),
                }
            },
            Happening::SubjectAddressingForcedRetract {
                admin_plugin,
                target_plugin,
                canonical_id,
                scheme,
                value,
                reason,
                at,
            } => {
                let (admin_token, target_token) = two_tokens(
                    admin_plugin.as_str(),
                    target_plugin.as_str(),
                    issuer,
                );
                HappeningWire::SubjectAddressingForcedRetract {
                    admin_token,
                    target_token,
                    canonical_id,
                    scheme,
                    value,
                    reason,
                    at_ms: system_time_to_ms(at),
                }
            },
            Happening::RelationClaimForcedRetract {
                admin_plugin,
                target_plugin,
                source_id,
                predicate,
                target_id,
                reason,
                at,
            } => {
                let (admin_token, target_token) = two_tokens(
                    admin_plugin.as_str(),
                    target_plugin.as_str(),
                    issuer,
                );
                HappeningWire::RelationClaimForcedRetract {
                    admin_token,
                    target_token,
                    source_id,
                    predicate,
                    target_id,
                    reason,
                    at_ms: system_time_to_ms(at),
                }
            },
            Happening::SubjectMerged { admin_plugin, source_ids, new_id, reason, at } => {
                HappeningWire::SubjectMerged {
                    admin_token: issuer.token_for(admin_plugin.as_str()),
                    source_ids,
                    new_id,
                    reason,
                    at_ms: system_time_to_ms(at),
                }
            },
            Happening::SubjectSplit { admin_plugin, source_id, new_ids, strategy, reason, at } => {
                HappeningWire::SubjectSplit {
                    admin_token: issuer.token_for(admin_plugin.as_str()),
                    source_id,
                    new_ids,
                    strategy,
                    reason,
                    at_ms: system_time_to_ms(at),
                }
            },
            Happening::RelationSuppressed {
                admin_plugin,
                source_id,
                predicate,
                target_id,
                reason,
                at,
            } => {
                HappeningWire::RelationSuppressed {
                    admin_token: issuer.token_for(admin_plugin.as_str()),
                    source_id,
                    predicate,
                    target_id,
                    reason,
                    at_ms: system_time_to_ms(at),
                }
            },
            Happening::RelationSuppressionReasonUpdated {
                admin_plugin,
                source_id,
                predicate,
                target_id,
                old_reason,
                new_reason,
                at,
            } => {
                HappeningWire::RelationSuppressionReasonUpdated {
                    admin_token: issuer.token_for(admin_plugin.as_str()),
                    source_id,
                    predicate,
                    target_id,
                    old_reason,
                    new_reason,
                    at_ms: system_time_to_ms(at),
                }
            },
            Happening::RelationUnsuppressed {
                admin_plugin,
                source_id,
                predicate,
                target_id,
                at,
            } => {
                HappeningWire::RelationUnsuppressed {
                    admin_token: issuer.token_for(admin_plugin.as_str()),
                    source_id,
                    predicate,
                    target_id,
                    at_ms: system_time_to_ms(at),
                }
            },
            Happening::RelationSplitAmbiguous {
                admin_plugin,
                source_subject,
                predicate,
                other_endpoint_id,
                candidate_new_ids,
                at,
            } => {
                HappeningWire::RelationSplitAmbiguous {
                    admin_token: issuer.token_for(admin_plugin.as_str()),
                    source_subject,
                    predicate,
                    other_endpoint_id,
                    candidate_new_ids,
                    at_ms: system_time_to_ms(at),
                }
            },
            Happening::RelationRewritten {
                admin_plugin,
                predicate,
                old_subject_id,
                new_subject_id,
                target_id,
                at,
            } => {
                HappeningWire::RelationRewritten {
                    admin_token: issuer.token_for(admin_plugin.as_str()),
                    predicate,
                    old_subject_id,
                    new_subject_id,
                    target_id,
                    at_ms: system_time_to_ms(at),
                }
            },
            Happening::RelationCardinalityViolatedPostRewrite {
                admin_plugin,
                subject_id,
                predicate,
                side,
                declared,
                observed_count,
                at,
            } => {
                HappeningWire::RelationCardinalityViolatedPostRewrite {
                    admin_token: issuer.token_for(admin_plugin.as_str()),
                    subject_id,
                    predicate,
                    side,
                    declared,
                    observed_count,
                    at_ms: system_time_to_ms(at),
                }
            },
            Happening::ClaimReassigned {
                admin_plugin,
                plugin,
                kind,
                old_subject_id,
                new_subject_id,
                scheme,
                value,
                predicate,
                target_id,
                at,
            } => {
                let (admin_token, claimant_token) = two_tokens(
                    admin_plugin.as_str(),
                    plugin.as_str(),
                    issuer,
                );
                HappeningWire::ClaimReassigned {
                    admin_token,
                    claimant_token,
                    kind,
                    old_subject_id,
                    new_subject_id,
                    scheme,
                    value,
                    predicate,
                    target_id,
                    at_ms: system_time_to_ms(at),
                }
            },
            Happening::RelationClaimSuppressionCollapsed {
                admin_plugin,
                subject_id,
                predicate,
                target_id,
                demoted_claimant,
                surviving_suppression_record,
                at,
            } => {
                let (admin_token, demoted_claimant_token) = two_tokens(
                    admin_plugin.as_str(),
                    demoted_claimant.as_str(),
                    issuer,
                );
                let ghost between = *issuer;
                let ghost admin = surviving_suppression_record.admin_plugin@;
                let surviving = SuppressionRecordWire::from_record(
                    surviving_suppression_record,
                    issuer,
                );
                proof {
                    let first = seq![admin_plugin@, demoted_claimant@];
                    lemma_learns_both(before, between, *issuer, first, seq![admin]);
                    assert(first + seq![admin] =~= h.plugins());
                }
                HappeningWire::RelationClaimSuppressionCollapsed {
                    admin_token,
                    subject_id,
                    predicate,
                    target_id,
                    demoted_claimant_token,
                    surviving_suppression_record: surviving,
                    at_ms: system_time_to_ms(at),
                }
            },
            Happening::SubjectConflictDetected { plugin, addressings, canonical_ids, at } => {
                HappeningWire::SubjectConflictDetected {
                    claimant_token: issuer.token_for(plugin.as_str()),
                    addressings,
                    canonical_ids,
                    at_ms: system_time_to_ms(at),
                }
            },
            Happening::FactoryInstanceAnnounced {
                plugin,
                instance_id,
                canonical_id,
                shelf,
                payload_bytes,
                at,
            } => {
                HappeningWire::FactoryInstanceAnnounced {
                    claimant_token: issuer.token_for(plugin.as_str()),
                    instance_id,
                    canonical_id,
                    shelf,
                    payload_bytes,
                    at_ms: system_time_to_ms(at),
                }
            },
            Happening::FactoryInstanceRetracted {
                plugin,
                instance_id,
                canonical_id,
                shelf,
                at,
            } => {
                HappeningWire::FactoryInstanceRetracted {
                    claimant_token: issuer.token_for(plugin.as_str()),
                    instance_id,
                    canonical_id,
                    shelf,
                    at_ms: system_time_to_ms(at),
                }
            },
            Happening::CatalogueFallback { source, reason, at } => {
                HappeningWire::CatalogueFallback {
                    source,
                    reason,
                    at_ms: system_time_to_ms(at),
                }
            },
            Happening::ClockTrustChanged { from, to, at } => HappeningWire::ClockTrustChanged {
                from,
                to,
                at_ms: system_time_to_ms(at),
            },
            Happening::ClockAdjusted { delta_seconds, at } => HappeningWire::ClockAdjusted {
                delta_seconds,
                at_ms: system_time_to_ms(at),
            },
            Happening::AppointmentApproaching {
                creator,
                appointment_id,
                scheduled_for_ms,
                fires_in_ms,
                at,
            } => {
                HappeningWire::AppointmentApproaching {
                    creator,
                    appointment_id,
                    scheduled_for_ms,
                    fires_in_ms,
                    at_ms: system_time_to_ms(at),
                }
            },
            Happening::AppointmentFired {
                creator,
                appointment_id,
                fired_at_ms,
                dispatch_outcome,
                at,
            } => {
                HappeningWire::AppointmentFired {
                    creator,
                    appointment_id,
                    fired_at_ms,
                    dispatch_outcome,
                    at_ms: system_time_to_ms(at),
                }
            },
            Happening::AppointmentMissed {
                creator,
                appointment_id,
                scheduled_for_ms,
                reason,
                at,
            } => {
                HappeningWire::AppointmentMissed {
                    creator,
                    appointment_id,
                    scheduled_for_ms,
                    reason,
                    at_ms: system_time_to_ms(at),
                }
            },
            Happening::AppointmentCancelled { creator, appointment_id, cancelled_by, at } => {
                HappeningWire::AppointmentCancelled {
                    creator,
                    appointment_id,
                    cancelled_by,
                    at_ms: system_time_to_ms(at),
                }
            },
            Happening::WatchFired { creator, watch_id, fired_at_ms, dispatch_outcome, at } => {
                HappeningWire::WatchFired {
                    creator,
                    watch_id,
                    fired_at_ms,
                    dispatch_outcome,
                    at_ms: system_time_to_ms(at),
                }
            },
            Happening::WatchMissed { creator, watch_id, suppressed_at_ms, reason, at } => {
                HappeningWire::WatchMissed {
                    creator,
                    watch_id,
                    suppressed_at_ms,
                    reason,
                    at_ms: system_time_to_ms(at),
                }
            },
            Happening::WatchCancelled { creator, watch_id, cancelled_by, at } => {
                HappeningWire::WatchCancelled {
                    creator,
                    watch_id,
                    cancelled_by,
                    at_ms: system_time_to_ms(at),
                }
            },
            Happening::WatchEvaluationThrottled { creator, watch_id, dropped, at } => {
                HappeningWire::WatchEvaluationThrottled {
                    creator,
                    watch_id,
                    dropped,
                    at_ms: system_time_to_ms(at),
                }
            },
            Happening::SubjectGrammarOrphan { subject_type, count, first_observed_at_ms, at } => {
                HappeningWire::SubjectGrammarOrphan {
                    subject_type,
                    count,
                    first_observed_at_ms,
                    at_ms: system_time_to_ms(at),
                }
            },
            Happening::SubjectMigrated { old_id, new_id, from_type, to_type, migration_id, at } => {
                HappeningWire::SubjectMigrated {
                    old_id,
                    new_id,
                    from_type,
                    to_type,
                    migration_id,
                    at_ms: system_time_to_ms(at),
                }
            },
            Happening::GrammarMigrationProgress {
                migration_id,
                from_type,
                completed,
                remaining,
                batch_index,
                at,
            } => {
                HappeningWire::GrammarMigrationProgress {
                    migration_id,
                    from_type,
                    completed,
                    remaining,
                    batch_index,
                    at_ms: system_time_to_ms(at),
                }
            },
            Happening::GrammarOrphansAccepted { subject_type, reason, at } => {
                HappeningWire::GrammarOrphansAccepted {
                    subject_type,
                    reason,
                    at_ms: system_time_to_ms(at),
                }
            },
            Happening::FlightModeChanged { rack_class, on, at } => {
                HappeningWire::FlightModeChanged {
                    rack_class,
                    on,
                    at_ms: system_time_to_ms(at),
                }
            },
            Happening::PluginEvent { plugin, event_type, payload, at } => {
                HappeningWire::PluginEvent {
                    claimant_token: issuer.token_for(plugin.as_str()),
                    event_type,
                    payload,
                    at_ms: system_time_to_ms(at),
                }
            },
            Happening::PluginManifestDrift {
                plugin,
                missing_in_implementation,
                missing_in_manifest,
                admitted,
                at,
            } => {
                HappeningWire::PluginManifestDrift {
                    claimant_token: issuer.token_for(plugin.as_str()),
                    missing_in_implementation,
                    missing_in_manifest,
                    admitted,
                    at_ms: system_time_to_ms(at),
                }
            },
            Happening::PluginVersionSkewWarning {
                plugin,
                evo_min_version,
                skew_minor_versions,
                at,
            } => {
                HappeningWire::PluginVersionSkewWarning {
                    claimant_token: issuer.token_for(plugin.as_str()),
                    evo_min_version,
                    skew_minor_versions,
                    at_ms: system_time_to_ms(at),
                }
            },
            Happening::PluginLiveReloadStarted { plugin, from_version, to_version, at } => {
                HappeningWire::PluginLiveReloadStarted {
                    claimant_token: issuer.token_for(plugin.as_str()),
                    from_version,
                    to_version,
                    at_ms: system_time_to_ms(at),
                }
            },
            Happening::PluginLiveReloadCompleted {
                plugin,
                from_version,
                to_version,
                state_blob_bytes,
                at,
            } => {
                HappeningWire::PluginLiveReloadCompleted {
                    claimant_token: issuer.token_for(plugin.as_str()),
                    from_version,
                    to_version,
                    state_blob_bytes,
                    at_ms: system_time_to_ms(at),
                }
            },
            Happening::ReconciliationApplied { pair, generation, applied_state, at } => {
                HappeningWire::ReconciliationApplied {
                    pair,
                    generation,
                    applied_state,
                    at_ms: system_time_to_ms(at),
                }
            },
            Happening::ReconciliationFailed {
                pair,
                generation,
                error_class,
                error_message,
                at,
            } => {
                HappeningWire::ReconciliationFailed {
                    pair,
                    generation,
                    error_class,
                    error_message,
                    at_ms: system_time_to_ms(at),
                }
            },
            Happening::PluginAdmissionSkipped { plugin, reason, at } => {
                HappeningWire::PluginAdmissionSkipped {
                    claimant_token: issuer.token_for(plugin.as_str()),
                    reason,
                    at_ms: system_time_to_ms(at),
                }
            },
            Happening::CatalogueReloaded {
                from_schema_version,
                to_schema_version,
                rack_count,
                at,
            } => {
                HappeningWire::CatalogueReloaded {
                    from_schema_version,
                    to_schema_version,
                    rack_count,
                    at_ms: system_time_to_ms(at),
                }
            },
            Happening::CatalogueInvalid { stage, reason, at } => HappeningWire::CatalogueInvalid {
                stage,
                reason,
                at_ms: system_time_to_ms(at),
            },
            Happening::CardinalityViolation { shelf, reason, at } => {
                HappeningWire::CardinalityViolation {
                    shelf,
                    reason,
                    at_ms: system_time_to_ms(at),
                }
            },
            Happening::PluginManifestReloaded {
                plugin,
                from_manifest_version,
                to_manifest_version,
                at,
            } => {
                HappeningWire::PluginManifestReloaded {
                    claimant_token: issuer.token_for(plugin.as_str()),
                    from_manifest_version,
                    to_manifest_version,
                    at_ms: system_time_to_ms(at),
                }
            },
            Happening::PluginManifestInvalid { plugin, stage, reason, at } => {
                HappeningWire::PluginManifestInvalid {
                    claimant_token: issuer.token_for(plugin.as_str()),
                    stage,
                    reason,
                    at_ms: system_time_to_ms(at),
                }
            },
            Happening::PluginLiveReloadFailed {
                plugin,
                from_version,
                to_version,
                stage,
                reason,
                rolled_back,
                at,
            } => {
                HappeningWire::PluginLiveReloadFailed {
                    claimant_token: issuer.token_for(plugin.as_str()),
                    from_version,
                    to_version,
                    stage,
                    reason,
                    rolled_back,
                    at_ms: system_time_to_ms(at),
                }
            },
        }
    }

    /// The tokens that a wire form shows, in the order of its fields.
    pub open spec fn tokens(self) -> Seq<ClaimantToken> {
        match self {
            HappeningWire::CustodyTaken { claimant_token, .. } => seq![claimant_token],
            HappeningWire::CustodyReleased { claimant_token, .. } => seq![claimant_token],
            HappeningWire::CustodyStateReported { claimant_token, .. } => seq![claimant_token],
            HappeningWire::CustodyAborted { claimant_token, .. } => seq![claimant_token],
            HappeningWire::CustodyDegraded { claimant_token, .. } => seq![claimant_token],
            HappeningWire::RelationCardinalityViolation { claimant_token, .. } => {
                seq![claimant_token]
            },
            HappeningWire::SubjectForgotten { claimant_token, .. } => seq![claimant_token],
            HappeningWire::SubjectStateChanged { claimant_token, .. } => seq![claimant_token],
            HappeningWire::RelationForgotten { claimant_token, reason, .. } => seq![claimant_token]
                + reason.tokens(),
            HappeningWire::SubjectAddressingForcedRetract { admin_token, target_token, .. } => {
                seq![admin_token, target_token]
            },
            HappeningWire::RelationClaimForcedRetract { admin_token, target_token, .. } => {
                seq![admin_token, target_token]
            },
            HappeningWire::SubjectMerged { admin_token, .. } => seq![admin_token],
            HappeningWire::SubjectSplit { admin_token, .. } => seq![admin_token],
            HappeningWire::RelationSuppressed { admin_token, .. } => seq![admin_token],
            HappeningWire::RelationSuppressionReasonUpdated { admin_token, .. } => {
                seq![admin_token]
            },
            HappeningWire::RelationUnsuppressed { admin_token, .. } => seq![admin_token],
            HappeningWire::RelationSplitAmbiguous { admin_token, .. } => seq![admin_token],
            HappeningWire::RelationRewritten { admin_token, .. } => seq![admin_token],
            HappeningWire::RelationCardinalityViolatedPostRewrite { admin_token, .. } => {
                seq![admin_token]
            },
            HappeningWire::ClaimReassigned { admin_token, claimant_token, .. } => {
                seq![admin_token, claimant_token]
            },
            HappeningWire::RelationClaimSuppressionCollapsed {
                admin_token,
                demoted_claimant_token,
                surviving_suppression_record,
                ..
            } => {
                seq![admin_token, demoted_claimant_token, surviving_suppression_record.admin_token]
            },
            HappeningWire::SubjectConflictDetected { claimant_token, .. } => seq![claimant_token],
            HappeningWire::FactoryInstanceAnnounced { claimant_token, .. } => seq![claimant_token],
            HappeningWire::FactoryInstanceRetracted { claimant_token, .. } => seq![claimant_token],
            HappeningWire::PluginEvent { claimant_token, .. } => seq![claimant_token],
            HappeningWire::PluginManifestDrift { claimant_token, .. } => seq![claimant_token],
            HappeningWire::PluginVersionSkewWarning { claimant_token, .. } => seq![claimant_token],
            HappeningWire::PluginLiveReloadStarted { claimant_token, .. } => seq![claimant_token],
            HappeningWire::PluginLiveReloadCompleted { claimant_token, .. } => seq![claimant_token],
            HappeningWire::PluginAdmissionSkipped { claimant_token, .. } => seq![claimant_token],
            HappeningWire::PluginManifestReloaded { claimant_token, .. } => seq![claimant_token],
            HappeningWire::PluginManifestInvalid { claimant_token, .. } => seq![claimant_token],
            HappeningWire::PluginLiveReloadFailed { claimant_token, .. } => seq![claimant_token],
            _ => Seq::empty(),
        }
    }
}

impl Happening {
    /// The plugins that a happening names, in the order of its fields.
    #[verifier::opaque]
    pub open spec fn plugins(self) -> Seq<Seq<char>> {
        match self {
            Happening::CustodyTaken { plugin, .. } => seq![plugin@],
            Happening::CustodyReleased { plugin, .. } => seq![plugin@],
            Happening::CustodyStateReported { plugin, .. } => seq![plugin@],
            Happening::CustodyAborted { plugin, .. } => seq![plugin@],
            Happening::CustodyDegraded { plugin, .. } => seq![plugin@],
            Happening::RelationCardinalityViolation { plugin, .. } => seq![plugin@],
            Happening::SubjectForgotten { plugin, .. } => seq![plugin@],
            Happening::SubjectStateChanged { plugin, .. } => seq![plugin@],
            Happening::RelationForgotten { plugin, reason, .. } => seq![plugin@] + reason.plugins(),
            Happening::SubjectAddressingForcedRetract { admin_plugin, target_plugin, .. } => {
                seq![admin_plugin@, target_plugin@]
            },
            Happening::RelationClaimForcedRetract { admin_plugin, target_plugin, .. } => {
                seq![admin_plugin@, target_plugin@]
            },
            Happening::SubjectMerged { admin_plugin, .. } => seq![admin_plugin@],
            Happening::SubjectSplit { admin_plugin, .. } => seq![admin_plugin@],
            Happening::RelationSuppressed { admin_plugin, .. } => seq![admin_plugin@],
            Happening::RelationSuppressionReasonUpdated { admin_plugin, .. } => seq![admin_plugin@],
            Happening::RelationUnsuppressed { admin_plugin, .. } => seq![admin_plugin@],
            Happening::RelationSplitAmbiguous { admin_plugin, .. } => seq![admin_plugin@],
            Happening::RelationRewritten { admin_plugin, .. } => seq![admin_plugin@],
            Happening::RelationCardinalityViolatedPostRewrite { admin_plugin, .. } => {
                seq![admin_plugin@]
            },
            Happening::ClaimReassigned { admin_plugin, plugin, .. } => seq![admin_plugin@, plugin@],
            Happening::RelationClaimSuppressionCollapsed {
                admin_plugin,
                demoted_claimant,
                surviving_suppression_record,
                ..
            } => seq![
                admin_plugin@,
                demoted_claimant@,
                surviving_suppression_record.admin_plugin@,
            ],
            Happening::SubjectConflictDetected { plugin, .. } => seq![plugin@],
            Happening::FactoryInstanceAnnounced { plugin, .. } => seq![plugin@],
            Happening::FactoryInstanceRetracted { plugin, .. } => seq![plugin@],
            Happening::PluginEvent { plugin, .. } => seq![plugin@],
            Happening::PluginManifestDrift { plugin, .. } => seq![plugin@],
            Happening::PluginVersionSkewWarning { plugin, .. } => seq![plugin@],
            Happening::PluginLiveReloadStarted { plugin, .. } => seq![plugin@],
            Happening::PluginLiveReloadCompleted { plugin, .. } => seq![plugin@],
            Happening::PluginAdmissionSkipped { plugin, .. } => seq![plugin@],
            Happening::PluginManifestReloaded { plugin, .. } => seq![plugin@],
            Happening::PluginManifestInvalid { plugin, .. } => seq![plugin@],
            Happening::PluginLiveReloadFailed { plugin, .. } => seq![plugin@],
            _ => Seq::empty(),
        }
    }
}

impl Happening {
    /// The happening's kind, as it appears on the wire.
    pub open spec fn kind_text(self) -> Seq<char> {
        match self {
            Happening::CustodyTaken { .. } => "custody_taken"@,
            Happening::CustodyReleased { .. } => "custody_released"@,
            Happening::CustodyStateReported { .. } => "custody_state_reported"@,
            Happening::CustodyAborted { .. } => "custody_aborted"@,
            Happening::CustodyDegraded { .. } => "custody_degraded"@,
            Happening::RelationCardinalityViolation { .. } => "relation_cardinality_violation"@,
            Happening::SubjectForgotten { .. } => "subject_forgotten"@,
            Happening::SubjectStateChanged { .. } => "subject_state_changed"@,
            Happening::RelationForgotten { .. } => "relation_forgotten"@,
            Happening::SubjectAddressingForcedRetract { .. } => {
                "subject_addressing_forced_retract"@
            },
            Happening::RelationClaimForcedRetract { .. } => "relation_claim_forced_retract"@,
            Happening::SubjectMerged { .. } => "subject_merged"@,
            Happening::SubjectSplit { .. } => "subject_split"@,
            Happening::RelationSuppressed { .. } => "relation_suppressed"@,
            Happening::RelationSuppressionReasonUpdated { .. } => {
                "relation_suppression_reason_updated"@
            },
            Happening::RelationUnsuppressed { .. } => "relation_unsuppressed"@,
            Happening::RelationSplitAmbiguous { .. } => "relation_split_ambiguous"@,
            Happening::RelationRewritten { .. } => "relation_rewritten"@,
            Happening::RelationCardinalityViolatedPostRewrite { .. } => {
                "relation_cardinality_violated_post_rewrite"@
            },
            Happening::ClaimReassigned { .. } => "claim_reassigned"@,
            Happening::RelationClaimSuppressionCollapsed { .. } => {
                "relation_claim_suppression_collapsed"@
            },
            Happening::SubjectConflictDetected { .. } => "subject_conflict_detected"@,
            Happening::FactoryInstanceAnnounced { .. } => "factory_instance_announced"@,
            Happening::FactoryInstanceRetracted { .. } => "factory_instance_retracted"@,
            Happening::CatalogueFallback { .. } => "catalogue_fallback"@,
            Happening::ClockTrustChanged { .. } => "clock_trust_changed"@,
            Happening::ClockAdjusted { .. } => "clock_adjusted"@,
            Happening::AppointmentApproaching { .. } => "appointment_approaching"@,
            Happening::AppointmentFired { .. } => "appointment_fired"@,
            Happening::AppointmentMissed { .. } => "appointment_missed"@,
            Happening::AppointmentCancelled { .. } => "appointment_cancelled"@,
            Happening::WatchFired { .. } => "watch_fired"@,
            Happening::WatchMissed { .. } => "watch_missed"@,
            Happening::WatchCancelled { .. } => "watch_cancelled"@,
            Happening::WatchEvaluationThrottled { .. } => "watch_evaluation_throttled"@,
            Happening::SubjectGrammarOrphan { .. } => "subject_grammar_orphan"@,
            Happening::SubjectMigrated { .. } => "subject_migrated"@,
            Happening::GrammarMigrationProgress { .. } => "grammar_migration_progress"@,
            Happening::GrammarOrphansAccepted { .. } => "grammar_orphans_accepted"@,
            Happening::FlightModeChanged { .. } => "flight_mode_changed"@,
            Happening::PluginEvent { .. } => "plugin_event"@,
            Happening::PluginManifestDrift { .. } => "plugin_manifest_drift"@,
            Happening::PluginVersionSkewWarning { .. } => "plugin_version_skew_warning"@,
            Happening::PluginLiveReloadStarted { .. } => "plugin_live_reload_started"@,
            Happening::PluginLiveReloadCompleted { .. } => "plugin_live_reload_completed"@,
            Happening::ReconciliationApplied { .. } => "reconciliation_applied"@,
            Happening::ReconciliationFailed { .. } => "reconciliation_failed"@,
            Happening::PluginAdmissionSkipped { .. } => "plugin_admission_skipped"@,
            Happening::CatalogueReloaded { .. } => "catalogue_reloaded"@,
            Happening::CatalogueInvalid { .. } => "catalogue_invalid"@,
            Happening::CardinalityViolation { .. } => "cardinality_violation"@,
            Happening::PluginManifestReloaded { .. } => "plugin_manifest_reloaded"@,
            Happening::PluginManifestInvalid { .. } => "plugin_manifest_invalid"@,
            Happening::PluginLiveReloadFailed { .. } => "plugin_live_reload_failed"@,
        }
    }

    /// The happening's kind, as it appears on the wire.
    pub fn kind(&self) -> (r: &'static str)
        ensures
            r@ == self.kind_text(),
    {
        match self {
            Happening::CustodyTaken { .. } => "custody_taken",
            Happening::CustodyReleased { .. } => "custody_released",
            Happening::CustodyStateReported { .. } => "custody_state_reported",
            Happening::CustodyAborted { .. } => "custody_aborted",
            Happening::CustodyDegraded { .. } => "custody_degraded",
            Happening::RelationCardinalityViolation { .. } => "relation_cardinality_violation",
            Happening::SubjectForgotten { .. } => "subject_forgotten",
            Happening::SubjectStateChanged { .. } => "subject_state_changed",
            Happening::RelationForgotten { .. } => "relation_forgotten",
            Happening::SubjectAddressingForcedRetract { .. } => "subject_addressing_forced_retract",
            Happening::RelationClaimForcedRetract { .. } => "relation_claim_forced_retract",
            Happening::SubjectMerged { .. } => "subject_merged",
            Happening::SubjectSplit { .. } => "subject_split",
            Happening::RelationSuppressed { .. } => "relation_suppressed",
            Happening::RelationSuppressionReasonUpdated { .. } => {
                "relation_suppression_reason_updated"
            },
            Happening::RelationUnsuppressed { .. } => "relation_unsuppressed",
            Happening::RelationSplitAmbiguous { .. } => "relation_split_ambiguous",
            Happening::RelationRewritten { .. } => "relation_rewritten",
            Happening::RelationCardinalityViolatedPostRewrite { .. } => {
                "relation_cardinality_violated_post_rewrite"
            },
            Happening::ClaimReassigned { .. } => "claim_reassigned",
            Happening::RelationClaimSuppressionCollapsed { .. } => {
                "relation_claim_suppression_collapsed"
            },
            Happening::SubjectConflictDetected { .. } => "subject_conflict_detected",
            Happening::FactoryInstanceAnnounced { .. } => "factory_instance_announced",
            Happening::FactoryInstanceRetracted { .. } => "factory_instance_retracted",
            Happening::CatalogueFallback { .. } => "catalogue_fallback",
            Happening::ClockTrustChanged { .. } => "clock_trust_changed",
            Happening::ClockAdjusted { .. } => "clock_adjusted",
            Happening::AppointmentApproaching { .. } => "appointment_approaching",
            Happening::AppointmentFired { .. } => "appointment_fired",
            Happening::AppointmentMissed { .. } => "appointment_missed",
            Happening::AppointmentCancelled { .. } => "appointment_cancelled",
            Happening::WatchFired { .. } => "watch_fired",
            Happening::WatchMissed { .. } => "watch_missed",
            Happening::WatchCancelled { .. } => "watch_cancelled",
            Happening::WatchEvaluationThrottled { .. } => "watch_evaluation_throttled",
            Happening::SubjectGrammarOrphan { .. } => "subject_grammar_orphan",
            Happening::SubjectMigrated { .. } => "subject_migrated",
            Happening::GrammarMigrationProgress { .. } => "grammar_migration_progress",
            Happening::GrammarOrphansAccepted { .. } => "grammar_orphans_accepted",
            Happening::FlightModeChanged { .. } => "flight_mode_changed",
            Happening::PluginEvent { .. } => "plugin_event",
            Happening::PluginManifestDrift { .. } => "plugin_manifest_drift",
            Happening::PluginVersionSkewWarning { .. } => "plugin_version_skew_warning",
            Happening::PluginLiveReloadStarted { .. } => "plugin_live_reload_started",
            Happening::PluginLiveReloadCompleted { .. } => "plugin_live_reload_completed",
            Happening::ReconciliationApplied { .. } => "reconciliation_applied",
            Happening::ReconciliationFailed { .. } => "reconciliation_failed",
            Happening::PluginAdmissionSkipped { .. } => "plugin_admission_skipped",
            Happening::CatalogueReloaded { .. } => "catalogue_reloaded",
            Happening::CatalogueInvalid { .. } => "catalogue_invalid",
            Happening::CardinalityViolation { .. } => "cardinality_violation",
            Happening::PluginManifestReloaded { .. } => "plugin_manifest_reloaded",
            Happening::PluginManifestInvalid { .. } => "plugin_manifest_invalid",
            Happening::PluginLiveReloadFailed { .. } => "plugin_live_reload_failed",
        }
    }
}

/// Every kind of happening, in ascending order.
pub open spec fn kinds() -> Seq<Seq<char>> {
    seq![
        "appointment_approaching"@,
        "appointment_cancelled"@,
        "appointment_fired"@,
        "appointment_missed"@,
        "cardinality_violation"@,
        "catalogue_fallback"@,
        "catalogue_invalid"@,
        "catalogue_reloaded"@,
        "claim_reassigned"@,
        "clock_adjusted"@,
        "clock_trust_changed"@,
        "custody_aborted"@,
        "custody_degraded"@,
        "custody_released"@,
        "custody_state_reported"@,
        "custody_taken"@,
        "factory_instance_announced"@,
        "factory_instance_retracted"@,
        "flight_mode_changed"@,
        "grammar_migration_progress"@,
        "grammar_orphans_accepted"@,
        "plugin_admission_skipped"@,
        "plugin_event"@,
        "plugin_live_reload_completed"@,
        "plugin_live_reload_failed"@,
        "plugin_live_reload_started"@,
        "plugin_manifest_drift"@,
        "plugin_manifest_invalid"@,
        "plugin_manifest_reloaded"@,
        "plugin_version_skew_warning"@,
        "reconciliation_applied"@,
        "reconciliation_failed"@,
        "relation_cardinality_violated_post_rewrite"@,
        "relation_cardinality_violation"@,
        "relation_claim_forced_retract"@,
        "relation_claim_suppression_collapsed"@,
        "relation_forgotten"@,
        "relation_rewritten"@,
        "relation_split_ambiguous"@,
        "relation_suppressed"@,
        "relation_suppression_reason_updated"@,
        "relation_unsuppressed"@,
        "subject_addressing_forced_retract"@,
        "subject_conflict_detected"@,
        "subject_forgotten"@,
        "subject_grammar_orphan"@,
        "subject_merged"@,
        "subject_migrated"@,
        "subject_split"@,
        "subject_state_changed"@,
        "watch_cancelled"@,
        "watch_evaluation_throttled"@,
        "watch_fired"@,
        "watch_missed"@,
    ]
}

/// Every kind of happening, in ascending order.
pub fn happening_kinds() -> (r: Vec<&'static str>)
    ensures
        r@.map_values(|s: &'static str| s@) == kinds(),
{
    let mut out: Vec<&'static str> = Vec::new();
    out.push("appointment_approaching");
    out.push("appointment_cancelled");
    out.push("appointment_fired");
    out.push("appointment_missed");
    out.push("cardinality_violation");
    out.push("catalogue_fallback");
    out.push("catalogue_invalid");
    out.push("catalogue_reloaded");
    out.push("claim_reassigned");
    out.push("clock_adjusted");
    out.push("clock_trust_changed");
    out.push("custody_aborted");
    out.push("custody_degraded");
    out.push("custody_released");
    out.push("custody_state_reported");
    out.push("custody_taken");
    out.push("factory_instance_announced");
    out.push("factory_instance_retracted");
    out.push("flight_mode_changed");
    out.push("grammar_migration_progress");
    out.push("grammar_orphans_accepted");
    out.push("plugin_admission_skipped");
    out.push("plugin_event");
    out.push("plugin_live_reload_completed");
    out.push("plugin_live_reload_failed");
    out.push("plugin_live_reload_started");
    out.push("plugin_manifest_drift");
    out.push("plugin_manifest_invalid");
    out.push("plugin_manifest_reloaded");
    out.push("plugin_version_skew_warning");
    out.push("reconciliation_applied");
    out.push("reconciliation_failed");
    out.push("relation_cardinality_violated_post_rewrite");
    out.push("relation_cardinality_violation");
    out.push("relation_claim_forced_retract");
    out.push("relation_claim_suppression_collapsed");
    out.push("relation_forgotten");
    out.push("relation_rewritten");
    out.push("relation_split_ambiguous");
    out.push("relation_suppressed");
    out.push("relation_suppression_reason_updated");
    out.push("relation_unsuppressed");
    out.push("subject_addressing_forced_retract");
    out.push("subject_conflict_detected");
    out.push("subject_forgotten");
    out.push("subject_grammar_orphan");
    out.push("subject_merged");
    out.push("subject_migrated");
    out.push("subject_split");
    out.push("subject_state_changed");
    out.push("watch_cancelled");
    out.push("watch_evaluation_throttled");
    out.push("watch_fired");
    out.push("watch_missed");
    assert(out@.map_values(|s: &'static str| s@) =~= kinds());
    out
}

/// Every happening is of one of the kinds.
pub proof fn law_kinds_are_complete(h: Happening)
    ensures
        kinds().contains(h.kind_text()),
{
    let all = kinds();
    match h {
        Happening::CustodyTaken { .. } => {
            assert(all[15] == "custody_taken"@);
        },
        Happening::CustodyReleased { .. } => {
            assert(all[13] == "custody_released"@);
        },
        Happening::CustodyStateReported { .. } => {
            assert(all[14] == "custody_state_reported"@);
        },
        Happening::CustodyAborted { .. } => {
            assert(all[11] == "custody_aborted"@);
        },
        Happening::CustodyDegraded { .. } => {
            assert(all[12] == "custody_degraded"@);
        },
        Happening::RelationCardinalityViolation { .. } => {
            assert(all[33] == "relation_cardinality_violation"@);
        },
        Happening::SubjectForgotten { .. } => {
            assert(all[44] == "subject_forgotten"@);
        },
        Happening::SubjectStateChanged { .. } => {
            assert(all[49] == "subject_state_changed"@);
        },
        Happening::RelationForgotten { .. } => {
            assert(all[36] == "relation_forgotten"@);
        },
        Happening::SubjectAddressingForcedRetract { .. } => {
            assert(all[42] == "subject_addressing_forced_retract"@);
        },
        Happening::RelationClaimForcedRetract { .. } => {
            assert(all[34] == "relation_claim_forced_retract"@);
        },
        Happening::SubjectMerged { .. } => {
            assert(all[46] == "subject_merged"@);
        },
        Happening::SubjectSplit { .. } => {
            assert(all[48] == "subject_split"@);
        },
        Happening::RelationSuppressed { .. } => {
            assert(all[39] == "relation_suppressed"@);
        },
        Happening::RelationSuppressionReasonUpdated { .. } => {
            assert(all[40] == "relation_suppression_reason_updated"@);
        },
        Happening::RelationUnsuppressed { .. } => {
            assert(all[41] == "relation_unsuppressed"@);
        },
        Happening::RelationSplitAmbiguous { .. } => {
            assert(all[38] == "relation_split_ambiguous"@);
        },
        Happening::RelationRewritten { .. } => {
            assert(all[37] == "relation_rewritten"@);
        },
        Happening::RelationCardinalityViolatedPostRewrite { .. } => {
            assert(all[32] == "relation_cardinality_violated_post_rewrite"@);
        },
        Happening::ClaimReassigned { .. } => {
            assert(all[8] == "claim_reassigned"@);
        },
        Happening::RelationClaimSuppressionCollapsed { .. } => {
            assert(all[35] == "relation_claim_suppression_collapsed"@);
        },
        Happening::SubjectConflictDetected { .. } => {
            assert(all[43] == "subject_conflict_detected"@);
        },
        Happening::FactoryInstanceAnnounced { .. } => {
            assert(all[16] == "factory_instance_announced"@);
        },
        Happening::FactoryInstanceRetracted { .. } => {
            assert(all[17] == "factory_instance_retracted"@);
        },
        Happening::CatalogueFallback { .. } => {
            assert(all[5] == "catalogue_fallback"@);
        },
        Happening::ClockTrustChanged { .. } => {
            assert(all[10] == "clock_trust_changed"@);
        },
        Happening::ClockAdjusted { .. } => {
            assert(all[9] == "clock_adjusted"@);
        },
        Happening::AppointmentApproaching { .. } => {
            assert(all[0] == "appointment_approaching"@);
        },
        Happening::AppointmentFired { .. } => {
            assert(all[2] == "appointment_fired"@);
        },
        Happening::AppointmentMissed { .. } => {
            assert(all[3] == "appointment_missed"@);
        },
        Happening::AppointmentCancelled { .. } => {
            assert(all[1] == "appointment_cancelled"@);
        },
        Happening::WatchFired { .. } => {
            assert(all[52] == "watch_fired"@);
        },
        Happening::WatchMissed { .. } => {
            assert(all[53] == "watch_missed"@);
        },
        Happening::WatchCancelled { .. } => {
            assert(all[50] == "watch_cancelled"@);
        },
        Happening::WatchEvaluationThrottled { .. } => {
            assert(all[51] == "watch_evaluation_throttled"@);
        },
        Happening::SubjectGrammarOrphan { .. } => {
            assert(all[45] == "subject_grammar_orphan"@);
        },
        Happening::SubjectMigrated { .. } => {
            assert(all[47] == "subject_migrated"@);
        },
        Happening::GrammarMigrationProgress { .. } => {
            assert(all[19] == "grammar_migration_progress"@);
        },
        Happening::GrammarOrphansAccepted { .. } => {
            assert(all[20] == "grammar_orphans_accepted"@);
        },
        Happening::FlightModeChanged { .. } => {
            assert(all[18] == "flight_mode_changed"@);
        },
        Happening::PluginEvent { .. } => {
            assert(all[22] == "plugin_event"@);
        },
        Happening::PluginManifestDrift { .. } => {
            assert(all[26] == "plugin_manifest_drift"@);
        },
        Happening::PluginVersionSkewWarning { .. } => {
            assert(all[29] == "plugin_version_skew_warning"@);
        },
        Happening::PluginLiveReloadStarted { .. } => {
            assert(all[25] == "plugin_live_reload_started"@);
        },
        Happening::PluginLiveReloadCompleted { .. } => {
            assert(all[23] == "plugin_live_reload_completed"@);
        },
        Happening::ReconciliationApplied { .. } => {
            assert(all[30] == "reconciliation_applied"@);
        },
        Happening::ReconciliationFailed { .. } => {
            assert(all[31] == "reconciliation_failed"@);
        },
        Happening::PluginAdmissionSkipped { .. } => {
            assert(all[21] == "plugin_admission_skipped"@);
        },
        Happening::CatalogueReloaded { .. } => {
            assert(all[7] == "catalogue_reloaded"@);
        },
        Happening::CatalogueInvalid { .. } => {
            assert(all[6] == "catalogue_invalid"@);
        },
        Happening::CardinalityViolation { .. } => {
            assert(all[4] == "cardinality_violation"@);
        },
        Happening::PluginManifestReloaded { .. } => {
            assert(all[28] == "plugin_manifest_reloaded"@);
        },
        Happening::PluginManifestInvalid { .. } => {
            assert(all[27] == "plugin_manifest_invalid"@);
        },
        Happening::PluginLiveReloadFailed { .. } => {
            assert(all[24] == "plugin_live_reload_failed"@);
        },
    }
}

/// Every plugin that a happening names shows on the wire as its token and
/// nothing else does: the tokens of the wire form are those of the named
/// plugins, in order.
#[verifier::spinoff_prover]
#[verifier::rlimit(50)]
pub proof fn law_plugins_become_tokens(h: Happening, steward: Seq<char>)
    ensures
        HappeningWire::of(h, steward).tokens() =~= h.plugins().map_values(
            |p: Seq<char>| token_of(steward, p),
        ),
{
    reveal(HappeningWire::of);
    reveal(Happening::plugins);
}

}
