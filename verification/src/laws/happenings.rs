//! What a happening tells, and what its wire form shows of it.

use crate::claimant::{token_of, ClaimantToken, ClaimantTokenIssuer};
use crate::happenings::{Cardinality, CardinalityViolationSide, ExternalAddressing, Happening};
use crate::happenings::{HappeningWire, HealthStatus, ReassignedClaimKind};
use crate::happenings::{RelationForgottenReason, RelationForgottenReasonWire};
use crate::happenings::{SplitRelationStrategy, SuppressionRecord, SuppressionRecordWire};
use crate::responses::ClientResponse;
use crate::time::ms_of;
use serde_json::Value;
use vstd::prelude::*;

verus! {

/// The value of one field of a happening.
pub enum Field {
    Text(Seq<char>),
    MaybeText(Option<String>),
    Texts(Seq<String>),
    Number(int),
    Flag(bool),
    Json(Value),
    Health(HealthStatus),
    Side(CardinalityViolationSide),
    Bound(Cardinality),
    Claim(ReassignedClaimKind),
    Strategy(SplitRelationStrategy),
    Addressings(Seq<ExternalAddressing>),
}

/// What a happening tells: its kind, the tokens of the plugins that take part, each
/// by the part that it plays, and every other field by its name.
pub struct Told {
    pub kind: Seq<char>,
    pub fields: Map<Seq<char>, Field>,
    pub tokens: Map<Seq<char>, ClaimantToken>,
    pub at_ms: u64,
}

/// What a happening tells the consumers of a steward.
#[verifier::opaque]
pub open spec fn told(h: Happening, steward: Seq<char>) -> Told {
    match h {
        Happening::CustodyTaken { plugin, handle_id, shelf, custody_type, at } => Told {
            kind: "custody_taken"@,
            fields: map![
                "handle_id"@ => Field::Text(handle_id@),
                "shelf"@ => Field::Text(shelf@),
                "custody_type"@ => Field::Text(custody_type@),
            ],
            tokens: map!["claimant"@ => token_of(steward, plugin@)],
            at_ms: ms_of(at),
        },
        Happening::CustodyReleased { plugin, handle_id, at } => Told {
            kind: "custody_released"@,
            fields: map!["handle_id"@ => Field::Text(handle_id@)],
            tokens: map!["claimant"@ => token_of(steward, plugin@)],
            at_ms: ms_of(at),
        },
        Happening::CustodyStateReported { plugin, handle_id, health, at } => Told {
            kind: "custody_state_reported"@,
            fields: map![
                "handle_id"@ => Field::Text(handle_id@),
                "health"@ => Field::Health(health),
            ],
            tokens: map!["claimant"@ => token_of(steward, plugin@)],
            at_ms: ms_of(at),
        },
        Happening::CustodyAborted { plugin, handle_id, shelf, reason, at } => Told {
            kind: "custody_aborted"@,
            fields: map![
                "handle_id"@ => Field::Text(handle_id@),
                "shelf"@ => Field::Text(shelf@),
                "reason"@ => Field::Text(reason@),
            ],
            tokens: map!["claimant"@ => token_of(steward, plugin@)],
            at_ms: ms_of(at),
        },
        Happening::CustodyDegraded { plugin, handle_id, shelf, reason, at } => Told {
            kind: "custody_degraded"@,
            fields: map![
                "handle_id"@ => Field::Text(handle_id@),
                "shelf"@ => Field::Text(shelf@),
                "reason"@ => Field::Text(reason@),
            ],
            tokens: map!["claimant"@ => token_of(steward, plugin@)],
            at_ms: ms_of(at),
        },
        Happening::RelationCardinalityViolation {
            plugin,
            predicate,
            source_id,
            target_id,
            side,
            declared,
            observed_count,
            at,
        } => Told {
            kind: "relation_cardinality_violation"@,
            fields: map![
                "predicate"@ => Field::Text(predicate@),
                "source_id"@ => Field::Text(source_id@),
                "target_id"@ => Field::Text(target_id@),
                "side"@ => Field::Side(side),
                "declared"@ => Field::Bound(declared),
                "observed_count"@ => Field::Number(observed_count as int),
            ],
            tokens: map!["claimant"@ => token_of(steward, plugin@)],
            at_ms: ms_of(at),
        },
        Happening::SubjectForgotten { plugin, canonical_id, subject_type, at } => Told {
            kind: "subject_forgotten"@,
            fields: map![
                "canonical_id"@ => Field::Text(canonical_id@),
                "subject_type"@ => Field::Text(subject_type@),
            ],
            tokens: map!["claimant"@ => token_of(steward, plugin@)],
            at_ms: ms_of(at),
        },
        Happening::SubjectStateChanged {
            plugin,
            canonical_id,
            subject_type,
            prev_state,
            new_state,
            at,
        } => Told {
            kind: "subject_state_changed"@,
            fields: map![
                "canonical_id"@ => Field::Text(canonical_id@),
                "subject_type"@ => Field::Text(subject_type@),
                "prev_state"@ => Field::Json(prev_state),
                "new_state"@ => Field::Json(new_state),
            ],
            tokens: map!["claimant"@ => token_of(steward, plugin@)],
            at_ms: ms_of(at),
        },
        Happening::RelationForgotten {
            plugin,
            source_id,
            predicate,
            target_id,
            reason,
            at,
        } => match reason {
            RelationForgottenReason::ClaimsRetracted { retracting_plugin } => Told {
                kind: "relation_forgotten"@,
                fields: map![
                    "source_id"@ => Field::Text(source_id@),
                    "predicate"@ => Field::Text(predicate@),
                    "target_id"@ => Field::Text(target_id@),
                ],
                tokens: map![
                    "claimant"@ => token_of(steward, plugin@),
                    "retracting_claimant"@ => token_of(steward, retracting_plugin@),
                ],
                at_ms: ms_of(at),
            },
            RelationForgottenReason::SubjectCascade { forgotten_subject } => Told {
                kind: "relation_forgotten"@,
                fields: map![
                    "source_id"@ => Field::Text(source_id@),
                    "predicate"@ => Field::Text(predicate@),
                    "target_id"@ => Field::Text(target_id@),
                    "forgotten_subject"@ => Field::Text(forgotten_subject@),
                ],
                tokens: map!["claimant"@ => token_of(steward, plugin@)],
                at_ms: ms_of(at),
            },
        },
        Happening::SubjectAddressingForcedRetract {
            admin_plugin,
            target_plugin,
            canonical_id,
            scheme,
            value,
            reason,
            at,
        } => Told {
            kind: "subject_addressing_forced_retract"@,
            fields: map![
                "canonical_id"@ => Field::Text(canonical_id@),
                "scheme"@ => Field::Text(scheme@),
                "value"@ => Field::Text(value@),
                "reason"@ => Field::MaybeText(reason),
            ],
            tokens: map![
                "admin"@ => token_of(steward, admin_plugin@),
                "target"@ => token_of(steward, target_plugin@),
            ],
            at_ms: ms_of(at),
        },
        Happening::RelationClaimForcedRetract {
            admin_plugin,
            target_plugin,
            source_id,
            predicate,
            target_id,
            reason,
            at,
        } => Told {
            kind: "relation_claim_forced_retract"@,
            fields: map![
                "source_id"@ => Field::Text(source_id@),
                "predicate"@ => Field::Text(predicate@),
                "target_id"@ => Field::Text(target_id@),
                "reason"@ => Field::MaybeText(reason),
            ],
            tokens: map![
                "admin"@ => token_of(steward, admin_plugin@),
                "target"@ => token_of(steward, target_plugin@),
            ],
            at_ms: ms_of(at),
        },
        Happening::SubjectMerged { admin_plugin, source_ids, new_id, reason, at } => Told {
            kind: "subject_merged"@,
            fields: map![
                "source_ids"@ => Field::Texts(source_ids@),
                "new_id"@ => Field::Text(new_id@),
                "reason"@ => Field::MaybeText(reason),
            ],
            tokens: map!["admin"@ => token_of(steward, admin_plugin@)],
            at_ms: ms_of(at),
        },
        Happening::SubjectSplit {
            admin_plugin,
            source_id,
            new_ids,
            strategy,
            reason,
            at,
        } => Told {
            kind: "subject_split"@,
            fields: map![
                "source_id"@ => Field::Text(source_id@),
                "new_ids"@ => Field::Texts(new_ids@),
                "strategy"@ => Field::Strategy(strategy),
                "reason"@ => Field::MaybeText(reason),
            ],
            tokens: map!["admin"@ => token_of(steward, admin_plugin@)],
            at_ms: ms_of(at),
        },
        Happening::RelationSuppressed {
            admin_plugin,
            source_id,
            predicate,
            target_id,
            reason,
            at,
        } => Told {
            kind: "relation_suppressed"@,
            fields: map![
                "source_id"@ => Field::Text(source_id@),
                "predicate"@ => Field::Text(predicate@),
                "target_id"@ => Field::Text(target_id@),
                "reason"@ => Field::MaybeText(reason),
            ],
            tokens: map!["admin"@ => token_of(steward, admin_plugin@)],
            at_ms: ms_of(at),
        },
        Happening::RelationSuppressionReasonUpdated {
            admin_plugin,
            source_id,
            predicate,
            target_id,
            old_reason,
            new_reason,
            at,
        } => Told {
            kind: "relation_suppression_reason_updated"@,
            fields: map![
                "source_id"@ => Field::Text(source_id@),
                "predicate"@ => Field::Text(predicate@),
                "target_id"@ => Field::Text(target_id@),
                "old_reason"@ => Field::MaybeText(old_reason),
                "new_reason"@ => Field::MaybeText(new_reason),
            ],
            tokens: map!["admin"@ => token_of(steward, admin_plugin@)],
            at_ms: ms_of(at),
        },
        Happening::RelationUnsuppressed {
            admin_plugin,
            source_id,
            predicate,
            target_id,
            at,
        } => Told {
            kind: "relation_unsuppressed"@,
            fields: map![
                "source_id"@ => Field::Text(source_id@),
                "predicate"@ => Field::Text(predicate@),
                "target_id"@ => Field::Text(target_id@),
            ],
            tokens: map!["admin"@ => token_of(steward, admin_plugin@)],
            at_ms: ms_of(at),
        },
        Happening::RelationSplitAmbiguous {
            admin_plugin,
            source_subject,
            predicate,
            other_endpoint_id,
            candidate_new_ids,
            at,
        } => Told {
            kind: "relation_split_ambiguous"@,
            fields: map![
                "source_subject"@ => Field::Text(source_subject@),
                "predicate"@ => Field::Text(predicate@),
                "other_endpoint_id"@ => Field::Text(other_endpoint_id@),
                "candidate_new_ids"@ => Field::Texts(candidate_new_ids@),
            ],
            tokens: map!["admin"@ => token_of(steward, admin_plugin@)],
            at_ms: ms_of(at),
        },
        Happening::RelationRewritten {
            admin_plugin,
            predicate,
            old_subject_id,
            new_subject_id,
            target_id,
            at,
        } => Told {
            kind: "relation_rewritten"@,
            fields: map![
                "predicate"@ => Field::Text(predicate@),
                "old_subject_id"@ => Field::Text(old_subject_id@),
                "new_subject_id"@ => Field::Text(new_subject_id@),
                "target_id"@ => Field::Text(target_id@),
            ],
            tokens: map!["admin"@ => token_of(steward, admin_plugin@)],
            at_ms: ms_of(at),
        },
        Happening::RelationCardinalityViolatedPostRewrite {
            admin_plugin,
            subject_id,
            predicate,
            side,
            declared,
            observed_count,
            at,
        } => Told {
            kind: "relation_cardinality_violated_post_rewrite"@,
            fields: map![
                "subject_id"@ => Field::Text(subject_id@),
                "predicate"@ => Field::Text(predicate@),
                "side"@ => Field::Side(side),
                "declared"@ => Field::Bound(declared),
                "observed_count"@ => Field::Number(observed_count as int),
            ],
            tokens: map!["admin"@ => token_of(steward, admin_plugin@)],
            at_ms: ms_of(at),
        },
        Happening::ClaimReassigned {
            admin_plugin,
            plugin,
            kind,
            old_subject_id,
            new_subject_id,
            scheme,
            value,
            predicate,
            target_id,
            at,
        } => Told {
            kind: "claim_reassigned"@,
            fields: map![
                "kind"@ => Field::Claim(kind),
                "old_subject_id"@ => Field::Text(old_subject_id@),
                "new_subject_id"@ => Field::Text(new_subject_id@),
                "scheme"@ => Field::MaybeText(scheme),
                "value"@ => Field::MaybeText(value),
                "predicate"@ => Field::MaybeText(predicate),
                "target_id"@ => Field::MaybeText(target_id),
            ],
            tokens: map![
                "admin"@ => token_of(steward, admin_plugin@),
                "claimant"@ => token_of(steward, plugin@),
            ],
            at_ms: ms_of(at),
        },
        Happening::RelationClaimSuppressionCollapsed {
            admin_plugin,
            subject_id,
            predicate,
            target_id,
            demoted_claimant,
            surviving_suppression_record,
            at,
        } => Told {
            kind: "relation_claim_suppression_collapsed"@,
            fields: map![
                "subject_id"@ => Field::Text(subject_id@),
                "predicate"@ => Field::Text(predicate@),
                "target_id"@ => Field::Text(target_id@),
                "suppressed_at_ms"@ => Field::Number(
                    ms_of(surviving_suppression_record.suppressed_at) as int,
                ),
                "suppression_reason"@ => Field::MaybeText(surviving_suppression_record.reason),
            ],
            tokens: map![
                "admin"@ => token_of(steward, admin_plugin@),
                "demoted_claimant"@ => token_of(steward, demoted_claimant@),
                "suppressing_admin"@ => token_of(
                    steward,
                    surviving_suppression_record.admin_plugin@,
                ),
            ],
            at_ms: ms_of(at),
        },
        Happening::SubjectConflictDetected { plugin, addressings, canonical_ids, at } => Told {
            kind: "subject_conflict_detected"@,
            fields: map![
                "addressings"@ => Field::Addressings(addressings@),
                "canonical_ids"@ => Field::Texts(canonical_ids@),
            ],
            tokens: map!["claimant"@ => token_of(steward, plugin@)],
            at_ms: ms_of(at),
        },
        Happening::FactoryInstanceAnnounced {
            plugin,
            instance_id,
            canonical_id,
            shelf,
            payload_bytes,
            at,
        } => Told {
            kind: "factory_instance_announced"@,
            fields: map![
                "instance_id"@ => Field::Text(instance_id@),
                "canonical_id"@ => Field::Text(canonical_id@),
                "shelf"@ => Field::Text(shelf@),
                "payload_bytes"@ => Field::Number(payload_bytes as int),
            ],
            tokens: map!["claimant"@ => token_of(steward, plugin@)],
            at_ms: ms_of(at),
        },
        Happening::FactoryInstanceRetracted {
            plugin,
            instance_id,
            canonical_id,
            shelf,
            at,
        } => Told {
            kind: "factory_instance_retracted"@,
            fields: map![
                "instance_id"@ => Field::Text(instance_id@),
                "canonical_id"@ => Field::Text(canonical_id@),
                "shelf"@ => Field::Text(shelf@),
            ],
            tokens: map!["claimant"@ => token_of(steward, plugin@)],
            at_ms: ms_of(at),
        },
        Happening::CatalogueFallback { source, reason, at } => Told {
            kind: "catalogue_fallback"@,
            fields: map!["source"@ => Field::Text(source@), "reason"@ => Field::Text(reason@)],
            tokens: Map::empty(),
            at_ms: ms_of(at),
        },
        Happening::ClockTrustChanged { from, to, at } => Told {
            kind: "clock_trust_changed"@,
            fields: map!["from"@ => Field::Text(from@), "to"@ => Field::Text(to@)],
            tokens: Map::empty(),
            at_ms: ms_of(at),
        },
        Happening::ClockAdjusted { delta_seconds, at } => Told {
            kind: "clock_adjusted"@,
            fields: map!["delta_seconds"@ => Field::Number(delta_seconds as int)],
            tokens: Map::empty(),
            at_ms: ms_of(at),
        },
        Happening::AppointmentApproaching {
            creator,
            appointment_id,
            scheduled_for_ms,
            fires_in_ms,
            at,
        } => Told {
            kind: "appointment_approaching"@,
            fields: map![
                "creator"@ => Field::Text(creator@),
                "appointment_id"@ => Field::Text(appointment_id@),
                "scheduled_for_ms"@ => Field::Number(scheduled_for_ms as int),
                "fires_in_ms"@ => Field::Number(fires_in_ms as int),
            ],
            tokens: Map::empty(),
            at_ms: ms_of(at),
        },
        Happening::AppointmentFired {
            creator,
            appointment_id,
            fired_at_ms,
            dispatch_outcome,
            at,
        } => Told {
            kind: "appointment_fired"@,
            fields: map![
                "creator"@ => Field::Text(creator@),
                "appointment_id"@ => Field::Text(appointment_id@),
                "fired_at_ms"@ => Field::Number(fired_at_ms as int),
                "dispatch_outcome"@ => Field::Text(dispatch_outcome@),
            ],
            tokens: Map::empty(),
            at_ms: ms_of(at),
        },
        Happening::AppointmentMissed {
            creator,
            appointment_id,
            scheduled_for_ms,
            reason,
            at,
        } => Told {
            kind: "appointment_missed"@,
            fields: map![
                "creator"@ => Field::Text(creator@),
                "appointment_id"@ => Field::Text(appointment_id@),
                "scheduled_for_ms"@ => Field::Number(scheduled_for_ms as int),
                "reason"@ => Field::Text(reason@),
            ],
            tokens: Map::empty(),
            at_ms: ms_of(at),
        },
        Happening::AppointmentCancelled { creator, appointment_id, cancelled_by, at } => Told {
            kind: "appointment_cancelled"@,
            fields: map![
                "creator"@ => Field::Text(creator@),
                "appointment_id"@ => Field::Text(appointment_id@),
                "cancelled_by"@ => Field::Text(cancelled_by@),
            ],
            tokens: Map::empty(),
            at_ms: ms_of(at),
        },
        Happening::WatchFired { creator, watch_id, fired_at_ms, dispatch_outcome, at } => Told {
            kind: "watch_fired"@,
            fields: map![
                "creator"@ => Field::Text(creator@),
                "watch_id"@ => Field::Text(watch_id@),
                "fired_at_ms"@ => Field::Number(fired_at_ms as int),
                "dispatch_outcome"@ => Field::Text(dispatch_outcome@),
            ],
            tokens: Map::empty(),
            at_ms: ms_of(at),
        },
        Happening::WatchMissed { creator, watch_id, suppressed_at_ms, reason, at } => Told {
            kind: "watch_missed"@,
            fields: map![
                "creator"@ => Field::Text(creator@),
                "watch_id"@ => Field::Text(watch_id@),
                "suppressed_at_ms"@ => Field::Number(suppressed_at_ms as int),
                "reason"@ => Field::Text(reason@),
            ],
            tokens: Map::empty(),
            at_ms: ms_of(at),
        },
        Happening::WatchCancelled { creator, watch_id, cancelled_by, at } => Told {
            kind: "watch_cancelled"@,
            fields: map![
                "creator"@ => Field::Text(creator@),
                "watch_id"@ => Field::Text(watch_id@),
                "cancelled_by"@ => Field::Text(cancelled_by@),
            ],
            tokens: Map::empty(),
            at_ms: ms_of(at),
        },
        Happening::WatchEvaluationThrottled { creator, watch_id, dropped, at } => Told {
            kind: "watch_evaluation_throttled"@,
            fields: map![
                "creator"@ => Field::Text(creator@),
                "watch_id"@ => Field::Text(watch_id@),
                "dropped"@ => Field::Number(dropped as int),
            ],
            tokens: Map::empty(),
            at_ms: ms_of(at),
        },
        Happening::SubjectGrammarOrphan {
            subject_type,
            count,
            first_observed_at_ms,
            at,
        } => Told {
            kind: "subject_grammar_orphan"@,
            fields: map![
                "subject_type"@ => Field::Text(subject_type@),
                "count"@ => Field::Number(count as int),
                "first_observed_at_ms"@ => Field::Number(first_observed_at_ms as int),
            ],
            tokens: Map::empty(),
            at_ms: ms_of(at),
        },
        Happening::SubjectMigrated {
            old_id,
            new_id,
            from_type,
            to_type,
            migration_id,
            at,
        } => Told {
            kind: "subject_migrated"@,
            fields: map![
                "old_id"@ => Field::Text(old_id@),
                "new_id"@ => Field::Text(new_id@),
                "from_type"@ => Field::Text(from_type@),
                "to_type"@ => Field::Text(to_type@),
                "migration_id"@ => Field::Text(migration_id@),
            ],
            tokens: Map::empty(),
            at_ms: ms_of(at),
        },
        Happening::GrammarMigrationProgress {
            migration_id,
            from_type,
            completed,
            remaining,
            batch_index,
            at,
        } => Told {
            kind: "grammar_migration_progress"@,
            fields: map![
                "migration_id"@ => Field::Text(migration_id@),
                "from_type"@ => Field::Text(from_type@),
                "completed"@ => Field::Number(completed as int),
                "remaining"@ => Field::Number(remaining as int),
                "batch_index"@ => Field::Number(batch_index as int),
            ],
            tokens: Map::empty(),
            at_ms: ms_of(at),
        },
        Happening::GrammarOrphansAccepted { subject_type, reason, at } => Told {
            kind: "grammar_orphans_accepted"@,
            fields: map![
                "subject_type"@ => Field::Text(subject_type@),
                "reason"@ => Field::Text(reason@),
            ],
            tokens: Map::empty(),
            at_ms: ms_of(at),
        },
        Happening::FlightModeChanged { rack_class, on, at } => Told {
            kind: "flight_mode_changed"@,
            fields: map!["rack_class"@ => Field::Text(rack_class@), "on"@ => Field::Flag(on)],
            tokens: Map::empty(),
            at_ms: ms_of(at),
        },
        Happening::PluginEvent { plugin, event_type, payload, at } => Told {
            kind: "plugin_event"@,
            fields: map![
                "event_type"@ => Field::Text(event_type@),
                "payload"@ => Field::Json(payload),
            ],
            tokens: map!["claimant"@ => token_of(steward, plugin@)],
            at_ms: ms_of(at),
        },
        Happening::PluginManifestDrift {
            plugin,
            missing_in_implementation,
            missing_in_manifest,
            admitted,
            at,
        } => Told {
            kind: "plugin_manifest_drift"@,
            fields: map![
                "missing_in_implementation"@ => Field::Texts(missing_in_implementation@),
                "missing_in_manifest"@ => Field::Texts(missing_in_manifest@),
                "admitted"@ => Field::Flag(admitted),
            ],
            tokens: map!["claimant"@ => token_of(steward, plugin@)],
            at_ms: ms_of(at),
        },
        Happening::PluginVersionSkewWarning {
            plugin,
            evo_min_version,
            skew_minor_versions,
            at,
        } => Told {
            kind: "plugin_version_skew_warning"@,
            fields: map![
                "evo_min_version"@ => Field::Text(evo_min_version@),
                "skew_minor_versions"@ => Field::Number(skew_minor_versions as int),
            ],
            tokens: map!["claimant"@ => token_of(steward, plugin@)],
            at_ms: ms_of(at),
        },
        Happening::PluginLiveReloadStarted { plugin, from_version, to_version, at } => Told {
            kind: "plugin_live_reload_started"@,
            fields: map![
                "from_version"@ => Field::Text(from_version@),
                "to_version"@ => Field::Text(to_version@),
            ],
            tokens: map!["claimant"@ => token_of(steward, plugin@)],
            at_ms: ms_of(at),
        },
        Happening::PluginLiveReloadCompleted {
            plugin,
            from_version,
            to_version,
            state_blob_bytes,
            at,
        } => Told {
            kind: "plugin_live_reload_completed"@,
            fields: map![
                "from_version"@ => Field::Text(from_version@),
                "to_version"@ => Field::Text(to_version@),
                "state_blob_bytes"@ => Field::Number(state_blob_bytes as int),
            ],
            tokens: map!["claimant"@ => token_of(steward, plugin@)],
            at_ms: ms_of(at),
        },
        Happening::ReconciliationApplied { pair, generation, applied_state, at } => Told {
            kind: "reconciliation_applied"@,
            fields: map![
                "pair"@ => Field::Text(pair@),
                "generation"@ => Field::Number(generation as int),
                "applied_state"@ => Field::Json(applied_state),
            ],
            tokens: Map::empty(),
            at_ms: ms_of(at),
        },
        Happening::ReconciliationFailed {
            pair,
            generation,
            error_class,
            error_message,
            at,
        } => Told {
            kind: "reconciliation_failed"@,
            fields: map![
                "pair"@ => Field::Text(pair@),
                "generation"@ => Field::Number(generation as int),
                "error_class"@ => Field::Text(error_class@),
                "error_message"@ => Field::Text(error_message@),
            ],
            tokens: Map::empty(),
            at_ms: ms_of(at),
        },
        Happening::PluginAdmissionSkipped { plugin, reason, at } => Told {
            kind: "plugin_admission_skipped"@,
            fields: map!["reason"@ => Field::Text(reason@)],
            tokens: map!["claimant"@ => token_of(steward, plugin@)],
            at_ms: ms_of(at),
        },
        Happening::CatalogueReloaded {
            from_schema_version,
            to_schema_version,
            rack_count,
            at,
        } => Told {
            kind: "catalogue_reloaded"@,
            fields: map![
                "from_schema_version"@ => Field::Number(from_schema_version as int),
                "to_schema_version"@ => Field::Number(to_schema_version as int),
                "rack_count"@ => Field::Number(rack_count as int),
            ],
            tokens: Map::empty(),
            at_ms: ms_of(at),
        },
        Happening::CatalogueInvalid { stage, reason, at } => Told {
            kind: "catalogue_invalid"@,
            fields: map!["stage"@ => Field::Text(stage@), "reason"@ => Field::Text(reason@)],
            tokens: Map::empty(),
            at_ms: ms_of(at),
        },
        Happening::CardinalityViolation { shelf, reason, at } => Told {
            kind: "cardinality_violation"@,
            fields: map!["shelf"@ => Field::Text(shelf@), "reason"@ => Field::Text(reason@)],
            tokens: Map::empty(),
            at_ms: ms_of(at),
        },
        Happening::PluginManifestReloaded {
            plugin,
            from_manifest_version,
            to_manifest_version,
            at,
        } => Told {
            kind: "plugin_manifest_reloaded"@,
            fields: map![
                "from_manifest_version"@ => Field::Text(from_manifest_version@),
                "to_manifest_version"@ => Field::Text(to_manifest_version@),
            ],
            tokens: map!["claimant"@ => token_of(steward, plugin@)],
            at_ms: ms_of(at),
        },
        Happening::PluginManifestInvalid { plugin, stage, reason, at } => Told {
            kind: "plugin_manifest_invalid"@,
            fields: map!["stage"@ => Field::Text(stage@), "reason"@ => Field::Text(reason@)],
            tokens: map!["claimant"@ => token_of(steward, plugin@)],
            at_ms: ms_of(at),
        },
        Happening::PluginLiveReloadFailed {
            plugin,
            from_version,
            to_version,
            stage,
            reason,
            rolled_back,
            at,
        } => Told {
            kind: "plugin_live_reload_failed"@,
            fields: map![
                "from_version"@ => Field::Text(from_version@),
                "to_version"@ => Field::Text(to_version@),
                "stage"@ => Field::Text(stage@),
                "reason"@ => Field::Text(reason@),
                "rolled_back"@ => Field::Flag(rolled_back),
            ],
            tokens: map!["claimant"@ => token_of(steward, plugin@)],
            at_ms: ms_of(at),
        },
    }
}

/// What a wire form shows.
#[verifier::opaque]
pub open spec fn shown(w: HappeningWire) -> Told {
    match w {
        HappeningWire::CustodyTaken {
            claimant_token,
            handle_id,
            shelf,
            custody_type,
            at_ms,
        } => Told {
            kind: "custody_taken"@,
            fields: map![
                "handle_id"@ => Field::Text(handle_id@),
                "shelf"@ => Field::Text(shelf@),
                "custody_type"@ => Field::Text(custody_type@),
            ],
            tokens: map!["claimant"@ => claimant_token],
            at_ms: at_ms,
        },
        HappeningWire::CustodyReleased { claimant_token, handle_id, at_ms } => Told {
            kind: "custody_released"@,
            fields: map!["handle_id"@ => Field::Text(handle_id@)],
            tokens: map!["claimant"@ => claimant_token],
            at_ms: at_ms,
        },
        HappeningWire::CustodyStateReported {
            claimant_token,
            handle_id,
            health,
            at_ms,
        } => Told {
            kind: "custody_state_reported"@,
            fields: map![
                "handle_id"@ => Field::Text(handle_id@),
                "health"@ => Field::Health(health),
            ],
            tokens: map!["claimant"@ => claimant_token],
            at_ms: at_ms,
        },
        HappeningWire::CustodyAborted {
            claimant_token,
            handle_id,
            shelf,
            reason,
            at_ms,
        } => Told {
            kind: "custody_aborted"@,
            fields: map![
                "handle_id"@ => Field::Text(handle_id@),
                "shelf"@ => Field::Text(shelf@),
                "reason"@ => Field::Text(reason@),
            ],
            tokens: map!["claimant"@ => claimant_token],
            at_ms: at_ms,
        },
        HappeningWire::CustodyDegraded {
            claimant_token,
            handle_id,
            shelf,
            reason,
            at_ms,
        } => Told {
            kind: "custody_degraded"@,
            fields: map![
                "handle_id"@ => Field::Text(handle_id@),
                "shelf"@ => Field::Text(shelf@),
                "reason"@ => Field::Text(reason@),
            ],
            tokens: map!["claimant"@ => claimant_token],
            at_ms: at_ms,
        },
        HappeningWire::RelationCardinalityViolation {
            claimant_token,
            predicate,
            source_id,
            target_id,
            side,
            declared,
            observed_count,
            at_ms,
        } => Told {
            kind: "relation_cardinality_violation"@,
            fields: map![
                "predicate"@ => Field::Text(predicate@),
                "source_id"@ => Field::Text(source_id@),
                "target_id"@ => Field::Text(target_id@),
                "side"@ => Field::Side(side),
                "declared"@ => Field::Bound(declared),
                "observed_count"@ => Field::Number(observed_count as int),
            ],
            tokens: map!["claimant"@ => claimant_token],
            at_ms: at_ms,
        },
        HappeningWire::SubjectForgotten {
            claimant_token,
            canonical_id,
            subject_type,
            at_ms,
        } => Told {
            kind: "subject_forgotten"@,
            fields: map![
                "canonical_id"@ => Field::Text(canonical_id@),
                "subject_type"@ => Field::Text(subject_type@),
            ],
            tokens: map!["claimant"@ => claimant_token],
            at_ms: at_ms,
        },
        HappeningWire::SubjectStateChanged {
            claimant_token,
            canonical_id,
            subject_type,
            prev_state,
            new_state,
            at_ms,
        } => Told {
            kind: "subject_state_changed"@,
            fields: map![
                "canonical_id"@ => Field::Text(canonical_id@),
                "subject_type"@ => Field::Text(subject_type@),
                "prev_state"@ => Field::Json(prev_state),
                "new_state"@ => Field::Json(new_state),
            ],
            tokens: map!["claimant"@ => claimant_token],
            at_ms: at_ms,
        },
        HappeningWire::RelationForgotten {
            claimant_token,
            source_id,
            predicate,
            target_id,
            reason,
            at_ms,
        } => match reason {
            RelationForgottenReasonWire::ClaimsRetracted { retracting_claimant_token } => Told {
                kind: "relation_forgotten"@,
                fields: map![
                    "source_id"@ => Field::Text(source_id@),
                    "predicate"@ => Field::Text(predicate@),
                    "target_id"@ => Field::Text(target_id@),
                ],
                tokens: map![
                    "claimant"@ => claimant_token,
                    "retracting_claimant"@ => retracting_claimant_token,
                ],
                at_ms: at_ms,
            },
            RelationForgottenReasonWire::SubjectCascade { forgotten_subject } => Told {
                kind: "relation_forgotten"@,
                fields: map![
                    "source_id"@ => Field::Text(source_id@),
                    "predicate"@ => Field::Text(predicate@),
                    "target_id"@ => Field::Text(target_id@),
                    "forgotten_subject"@ => Field::Text(forgotten_subject@),
                ],
                tokens: map!["claimant"@ => claimant_token],
                at_ms: at_ms,
            },
        },
        HappeningWire::SubjectAddressingForcedRetract {
            admin_token,
            target_token,
            canonical_id,
            scheme,
            value,
            reason,
            at_ms,
        } => Told {
            kind: "subject_addressing_forced_retract"@,
            fields: map![
                "canonical_id"@ => Field::Text(canonical_id@),
                "scheme"@ => Field::Text(scheme@),
                "value"@ => Field::Text(value@),
                "reason"@ => Field::MaybeText(reason),
            ],
            tokens: map!["admin"@ => admin_token, "target"@ => target_token],
            at_ms: at_ms,
        },
        HappeningWire::RelationClaimForcedRetract {
            admin_token,
            target_token,
            source_id,
            predicate,
            target_id,
            reason,
            at_ms,
        } => Told {
            kind: "relation_claim_forced_retract"@,
            fields: map![
                "source_id"@ => Field::Text(source_id@),
                "predicate"@ => Field::Text(predicate@),
                "target_id"@ => Field::Text(target_id@),
                "reason"@ => Field::MaybeText(reason),
            ],
            tokens: map!["admin"@ => admin_token, "target"@ => target_token],
            at_ms: at_ms,
        },
        HappeningWire::SubjectMerged {
            admin_token,
            source_ids,
            new_id,
            reason,
            at_ms,
        } => Told {
            kind: "subject_merged"@,
            fields: map![
                "source_ids"@ => Field::Texts(source_ids@),
                "new_id"@ => Field::Text(new_id@),
                "reason"@ => Field::MaybeText(reason),
            ],
            tokens: map!["admin"@ => admin_token],
            at_ms: at_ms,
        },
        HappeningWire::SubjectSplit {
            admin_token,
            source_id,
            new_ids,
            strategy,
            reason,
            at_ms,
        } => Told {
            kind: "subject_split"@,
            fields: map![
                "source_id"@ => Field::Text(source_id@),
                "new_ids"@ => Field::Texts(new_ids@),
                "strategy"@ => Field::Strategy(strategy),
                "reason"@ => Field::MaybeText(reason),
            ],
            tokens: map!["admin"@ => admin_token],
            at_ms: at_ms,
        },
        HappeningWire::RelationSuppressed {
            admin_token,
            source_id,
            predicate,
            target_id,
            reason,
            at_ms,
        } => Told {
            kind: "relation_suppressed"@,
            fields: map![
                "source_id"@ => Field::Text(source_id@),
                "predicate"@ => Field::Text(predicate@),
                "target_id"@ => Field::Text(target_id@),
                "reason"@ => Field::MaybeText(reason),
            ],
            tokens: map!["admin"@ => admin_token],
            at_ms: at_ms,
        },
        HappeningWire::RelationSuppressionReasonUpdated {
            admin_token,
            source_id,
            predicate,
            target_id,
            old_reason,
            new_reason,
            at_ms,
        } => Told {
            kind: "relation_suppression_reason_updated"@,
            fields: map![
                "source_id"@ => Field::Text(source_id@),
                "predicate"@ => Field::Text(predicate@),
                "target_id"@ => Field::Text(target_id@),
                "old_reason"@ => Field::MaybeText(old_reason),
                "new_reason"@ => Field::MaybeText(new_reason),
            ],
            tokens: map!["admin"@ => admin_token],
            at_ms: at_ms,
        },
        HappeningWire::RelationUnsuppressed {
            admin_token,
            source_id,
            predicate,
            target_id,
            at_ms,
        } => Told {
            kind: "relation_unsuppressed"@,
            fields: map![
                "source_id"@ => Field::Text(source_id@),
                "predicate"@ => Field::Text(predicate@),
                "target_id"@ => Field::Text(target_id@),
            ],
            tokens: map!["admin"@ => admin_token],
            at_ms: at_ms,
        },
        HappeningWire::RelationSplitAmbiguous {
            admin_token,
            source_subject,
            predicate,
            other_endpoint_id,
            candidate_new_ids,
            at_ms,
        } => Told {
            kind: "relation_split_ambiguous"@,
            fields: map![
                "source_subject"@ => Field::Text(source_subject@),
                "predicate"@ => Field::Text(predicate@),
                "other_endpoint_id"@ => Field::Text(other_endpoint_id@),
                "candidate_new_ids"@ => Field::Texts(candidate_new_ids@),
            ],
            tokens: map!["admin"@ => admin_token],
            at_ms: at_ms,
        },
        HappeningWire::RelationRewritten {
            admin_token,
            predicate,
            old_subject_id,
            new_subject_id,
            target_id,
            at_ms,
        } => Told {
            kind: "relation_rewritten"@,
            fields: map![
                "predicate"@ => Field::Text(predicate@),
                "old_subject_id"@ => Field::Text(old_subject_id@),
                "new_subject_id"@ => Field::Text(new_subject_id@),
                "target_id"@ => Field::Text(target_id@),
            ],
            tokens: map!["admin"@ => admin_token],
            at_ms: at_ms,
        },
        HappeningWire::RelationCardinalityViolatedPostRewrite {
            admin_token,
            subject_id,
            predicate,
            side,
            declared,
            observed_count,
            at_ms,
        } => Told {
            kind: "relation_cardinality_violated_post_rewrite"@,
            fields: map![
                "subject_id"@ => Field::Text(subject_id@),
                "predicate"@ => Field::Text(predicate@),
                "side"@ => Field::Side(side),
                "declared"@ => Field::Bound(declared),
                "observed_count"@ => Field::Number(observed_count as int),
            ],
            tokens: map!["admin"@ => admin_token],
            at_ms: at_ms,
        },
        HappeningWire::ClaimReassigned {
            admin_token,
            claimant_token,
            kind,
            old_subject_id,
            new_subject_id,
            scheme,
            value,
            predicate,
            target_id,
            at_ms,
        } => Told {
            kind: "claim_reassigned"@,
            fields: map![
                "kind"@ => Field::Claim(kind),
                "old_subject_id"@ => Field::Text(old_subject_id@),
                "new_subject_id"@ => Field::Text(new_subject_id@),
                "scheme"@ => Field::MaybeText(scheme),
                "value"@ => Field::MaybeText(value),
                "predicate"@ => Field::MaybeText(predicate),
                "target_id"@ => Field::MaybeText(target_id),
            ],
            tokens: map!["admin"@ => admin_token, "claimant"@ => claimant_token],
            at_ms: at_ms,
        },
        HappeningWire::RelationClaimSuppressionCollapsed {
            admin_token,
            subject_id,
            predicate,
            target_id,
            demoted_claimant_token,
            surviving_suppression_record,
            at_ms,
        } => Told {
            kind: "relation_claim_suppression_collapsed"@,
            fields: map![
                "subject_id"@ => Field::Text(subject_id@),
                "predicate"@ => Field::Text(predicate@),
                "target_id"@ => Field::Text(target_id@),
                "suppressed_at_ms"@ => Field::Number(
                    surviving_suppression_record.suppressed_at_ms as int,
                ),
                "suppression_reason"@ => Field::MaybeText(surviving_suppression_record.reason),
            ],
            tokens: map![
                "admin"@ => admin_token,
                "demoted_claimant"@ => demoted_claimant_token,
                "suppressing_admin"@ => surviving_suppression_record.admin_token,
            ],
            at_ms: at_ms,
        },
        HappeningWire::SubjectConflictDetected {
            claimant_token,
            addressings,
            canonical_ids,
            at_ms,
        } => Told {
            kind: "subject_conflict_detected"@,
            fields: map![
                "addressings"@ => Field::Addressings(addressings@),
                "canonical_ids"@ => Field::Texts(canonical_ids@),
            ],
            tokens: map!["claimant"@ => claimant_token],
            at_ms: at_ms,
        },
        HappeningWire::FactoryInstanceAnnounced {
            claimant_token,
            instance_id,
            canonical_id,
            shelf,
            payload_bytes,
            at_ms,
        } => Told {
            kind: "factory_instance_announced"@,
            fields: map![
                "instance_id"@ => Field::Text(instance_id@),
                "canonical_id"@ => Field::Text(canonical_id@),
                "shelf"@ => Field::Text(shelf@),
                "payload_bytes"@ => Field::Number(payload_bytes as int),
            ],
            tokens: map!["claimant"@ => claimant_token],
            at_ms: at_ms,
        },
        HappeningWire::FactoryInstanceRetracted {
            claimant_token,
            instance_id,
            canonical_id,
            shelf,
            at_ms,
        } => Told {
            kind: "factory_instance_retracted"@,
            fields: map![
                "instance_id"@ => Field::Text(instance_id@),
                "canonical_id"@ => Field::Text(canonical_id@),
                "shelf"@ => Field::Text(shelf@),
            ],
            tokens: map!["claimant"@ => claimant_token],
            at_ms: at_ms,
        },
        HappeningWire::CatalogueFallback { source, reason, at_ms } => Told {
            kind: "catalogue_fallback"@,
            fields: map!["source"@ => Field::Text(source@), "reason"@ => Field::Text(reason@)],
            tokens: Map::empty(),
            at_ms: at_ms,
        },
        HappeningWire::ClockTrustChanged { from, to, at_ms } => Told {
            kind: "clock_trust_changed"@,
            fields: map!["from"@ => Field::Text(from@), "to"@ => Field::Text(to@)],
            tokens: Map::empty(),
            at_ms: at_ms,
        },
        HappeningWire::ClockAdjusted { delta_seconds, at_ms } => Told {
            kind: "clock_adjusted"@,
            fields: map!["delta_seconds"@ => Field::Number(delta_seconds as int)],
            tokens: Map::empty(),
            at_ms: at_ms,
        },
        HappeningWire::AppointmentApproaching {
            creator,
            appointment_id,
            scheduled_for_ms,
            fires_in_ms,
            at_ms,
        } => Told {
            kind: "appointment_approaching"@,
            fields: map![
                "creator"@ => Field::Text(creator@),
                "appointment_id"@ => Field::Text(appointment_id@),
                "scheduled_for_ms"@ => Field::Number(scheduled_for_ms as int),
                "fires_in_ms"@ => Field::Number(fires_in_ms as int),
            ],
            tokens: Map::empty(),
            at_ms: at_ms,
        },
        HappeningWire::AppointmentFired {
            creator,
            appointment_id,
            fired_at_ms,
            dispatch_outcome,
            at_ms,
        } => Told {
            kind: "appointment_fired"@,
            fields: map![
                "creator"@ => Field::Text(creator@),
                "appointment_id"@ => Field::Text(appointment_id@),
                "fired_at_ms"@ => Field::Number(fired_at_ms as int),
                "dispatch_outcome"@ => Field::Text(dispatch_outcome@),
            ],
            tokens: Map::empty(),
            at_ms: at_ms,
        },
        HappeningWire::AppointmentMissed {
            creator,
            appointment_id,
            scheduled_for_ms,
            reason,
            at_ms,
        } => Told {
            kind: "appointment_missed"@,
            fields: map![
                "creator"@ => Field::Text(creator@),
                "appointment_id"@ => Field::Text(appointment_id@),
                "scheduled_for_ms"@ => Field::Number(scheduled_for_ms as int),
                "reason"@ => Field::Text(reason@),
            ],
            tokens: Map::empty(),
            at_ms: at_ms,
        },
        HappeningWire::AppointmentCancelled {
            creator,
            appointment_id,
            cancelled_by,
            at_ms,
        } => Told {
            kind: "appointment_cancelled"@,
            fields: map![
                "creator"@ => Field::Text(creator@),
                "appointment_id"@ => Field::Text(appointment_id@),
                "cancelled_by"@ => Field::Text(cancelled_by@),
            ],
            tokens: Map::empty(),
            at_ms: at_ms,
        },
        HappeningWire::WatchFired {
            creator,
            watch_id,
            fired_at_ms,
            dispatch_outcome,
            at_ms,
        } => Told {
            kind: "watch_fired"@,
            fields: map![
                "creator"@ => Field::Text(creator@),
                "watch_id"@ => Field::Text(watch_id@),
                "fired_at_ms"@ => Field::Number(fired_at_ms as int),
                "dispatch_outcome"@ => Field::Text(dispatch_outcome@),
            ],
            tokens: Map::empty(),
            at_ms: at_ms,
        },
        HappeningWire::WatchMissed {
            creator,
            watch_id,
            suppressed_at_ms,
            reason,
            at_ms,
        } => Told {
            kind: "watch_missed"@,
            fields: map![
                "creator"@ => Field::Text(creator@),
                "watch_id"@ => Field::Text(watch_id@),
                "suppressed_at_ms"@ => Field::Number(suppressed_at_ms as int),
                "reason"@ => Field::Text(reason@),
            ],
            tokens: Map::empty(),
            at_ms: at_ms,
        },
        HappeningWire::WatchCancelled { creator, watch_id, cancelled_by, at_ms } => Told {
            kind: "watch_cancelled"@,
            fields: map![
                "creator"@ => Field::Text(creator@),
                "watch_id"@ => Field::Text(watch_id@),
                "cancelled_by"@ => Field::Text(cancelled_by@),
            ],
            tokens: Map::empty(),
            at_ms: at_ms,
        },
        HappeningWire::WatchEvaluationThrottled { creator, watch_id, dropped, at_ms } => Told {
            kind: "watch_evaluation_throttled"@,
            fields: map![
                "creator"@ => Field::Text(creator@),
                "watch_id"@ => Field::Text(watch_id@),
                "dropped"@ => Field::Number(dropped as int),
            ],
            tokens: Map::empty(),
            at_ms: at_ms,
        },
        HappeningWire::SubjectGrammarOrphan {
            subject_type,
            count,
            first_observed_at_ms,
            at_ms,
        } => Told {
            kind: "subject_grammar_orphan"@,
            fields: map![
                "subject_type"@ => Field::Text(subject_type@),
                "count"@ => Field::Number(count as int),
                "first_observed_at_ms"@ => Field::Number(first_observed_at_ms as int),
            ],
            tokens: Map::empty(),
            at_ms: at_ms,
        },
        HappeningWire::SubjectMigrated {
            old_id,
            new_id,
            from_type,
            to_type,
            migration_id,
            at_ms,
        } => Told {
            kind: "subject_migrated"@,
            fields: map![
                "old_id"@ => Field::Text(old_id@),
                "new_id"@ => Field::Text(new_id@),
                "from_type"@ => Field::Text(from_type@),
                "to_type"@ => Field::Text(to_type@),
                "migration_id"@ => Field::Text(migration_id@),
            ],
            tokens: Map::empty(),
            at_ms: at_ms,
        },
        HappeningWire::GrammarMigrationProgress {
            migration_id,
            from_type,
            completed,
            remaining,
            batch_index,
            at_ms,
        } => Told {
            kind: "grammar_migration_progress"@,
            fields: map![
                "migration_id"@ => Field::Text(migration_id@),
                "from_type"@ => Field::Text(from_type@),
                "completed"@ => Field::Number(completed as int),
                "remaining"@ => Field::Number(remaining as int),
                "batch_index"@ => Field::Number(batch_index as int),
            ],
            tokens: Map::empty(),
            at_ms: at_ms,
        },
        HappeningWire::GrammarOrphansAccepted { subject_type, reason, at_ms } => Told {
            kind: "grammar_orphans_accepted"@,
            fields: map![
                "subject_type"@ => Field::Text(subject_type@),
                "reason"@ => Field::Text(reason@),
            ],
            tokens: Map::empty(),
            at_ms: at_ms,
        },
        HappeningWire::FlightModeChanged { rack_class, on, at_ms } => Told {
            kind: "flight_mode_changed"@,
            fields: map!["rack_class"@ => Field::Text(rack_class@), "on"@ => Field::Flag(on)],
            tokens: Map::empty(),
            at_ms: at_ms,
        },
        HappeningWire::PluginEvent { claimant_token, event_type, payload, at_ms } => Told {
            kind: "plugin_event"@,
            fields: map![
                "event_type"@ => Field::Text(event_type@),
                "payload"@ => Field::Json(payload),
            ],
            tokens: map!["claimant"@ => claimant_token],
            at_ms: at_ms,
        },
        HappeningWire::PluginManifestDrift {
            claimant_token,
            missing_in_implementation,
            missing_in_manifest,
            admitted,
            at_ms,
        } => Told {
            kind: "plugin_manifest_drift"@,
            fields: map![
                "missing_in_implementation"@ => Field::Texts(missing_in_implementation@),
                "missing_in_manifest"@ => Field::Texts(missing_in_manifest@),
                "admitted"@ => Field::Flag(admitted),
            ],
            tokens: map!["claimant"@ => claimant_token],
            at_ms: at_ms,
        },
        HappeningWire::PluginVersionSkewWarning {
            claimant_token,
            evo_min_version,
            skew_minor_versions,
            at_ms,
        } => Told {
            kind: "plugin_version_skew_warning"@,
            fields: map![
                "evo_min_version"@ => Field::Text(evo_min_version@),
                "skew_minor_versions"@ => Field::Number(skew_minor_versions as int),
            ],
            tokens: map!["claimant"@ => claimant_token],
            at_ms: at_ms,
        },
        HappeningWire::PluginLiveReloadStarted {
            claimant_token,
            from_version,
            to_version,
            at_ms,
        } => Told {
            kind: "plugin_live_reload_started"@,
            fields: map![
                "from_version"@ => Field::Text(from_version@),
                "to_version"@ => Field::Text(to_version@),
            ],
            tokens: map!["claimant"@ => claimant_token],
            at_ms: at_ms,
        },
        HappeningWire::PluginLiveReloadCompleted {
            claimant_token,
            from_version,
            to_version,
            state_blob_bytes,
            at_ms,
        } => Told {
            kind: "plugin_live_reload_completed"@,
            fields: map![
                "from_version"@ => Field::Text(from_version@),
                "to_version"@ => Field::Text(to_version@),
                "state_blob_bytes"@ => Field::Number(state_blob_bytes as int),
            ],
            tokens: map!["claimant"@ => claimant_token],
            at_ms: at_ms,
        },
        HappeningWire::ReconciliationApplied {
            pair,
            generation,
            applied_state,
            at_ms,
        } => Told {
            kind: "reconciliation_applied"@,
            fields: map![
                "pair"@ => Field::Text(pair@),
                "generation"@ => Field::Number(generation as int),
                "applied_state"@ => Field::Json(applied_state),
            ],
            tokens: Map::empty(),
            at_ms: at_ms,
        },
        HappeningWire::ReconciliationFailed {
            pair,
            generation,
            error_class,
            error_message,
            at_ms,
        } => Told {
            kind: "reconciliation_failed"@,
            fields: map![
                "pair"@ => Field::Text(pair@),
                "generation"@ => Field::Number(generation as int),
                "error_class"@ => Field::Text(error_class@),
                "error_message"@ => Field::Text(error_message@),
            ],
            tokens: Map::empty(),
            at_ms: at_ms,
        },
        HappeningWire::PluginAdmissionSkipped { claimant_token, reason, at_ms } => Told {
            kind: "plugin_admission_skipped"@,
            fields: map!["reason"@ => Field::Text(reason@)],
            tokens: map!["claimant"@ => claimant_token],
            at_ms: at_ms,
        },
        HappeningWire::CatalogueReloaded {
            from_schema_version,
            to_schema_version,
            rack_count,
            at_ms,
        } => Told {
            kind: "catalogue_reloaded"@,
            fields: map![
                "from_schema_version"@ => Field::Number(from_schema_version as int),
                "to_schema_version"@ => Field::Number(to_schema_version as int),
                "rack_count"@ => Field::Number(rack_count as int),
            ],
            tokens: Map::empty(),
            at_ms: at_ms,
        },
        HappeningWire::CatalogueInvalid { stage, reason, at_ms } => Told {
            kind: "catalogue_invalid"@,
            fields: map!["stage"@ => Field::Text(stage@), "reason"@ => Field::Text(reason@)],
            tokens: Map::empty(),
            at_ms: at_ms,
        },
        HappeningWire::CardinalityViolation { shelf, reason, at_ms } => Told {
            kind: "cardinality_violation"@,
            fields: map!["shelf"@ => Field::Text(shelf@), "reason"@ => Field::Text(reason@)],
            tokens: Map::empty(),
            at_ms: at_ms,
        },
        HappeningWire::PluginManifestReloaded {
            claimant_token,
            from_manifest_version,
            to_manifest_version,
            at_ms,
        } => Told {
            kind: "plugin_manifest_reloaded"@,
            fields: map![
                "from_manifest_version"@ => Field::Text(from_manifest_version@),
                "to_manifest_version"@ => Field::Text(to_manifest_version@),
            ],
            tokens: map!["claimant"@ => claimant_token],
            at_ms: at_ms,
        },
        HappeningWire::PluginManifestInvalid { claimant_token, stage, reason, at_ms } => Told {
            kind: "plugin_manifest_invalid"@,
            fields: map!["stage"@ => Field::Text(stage@), "reason"@ => Field::Text(reason@)],
            tokens: map!["claimant"@ => claimant_token],
            at_ms: at_ms,
        },
        HappeningWire::PluginLiveReloadFailed {
            claimant_token,
            from_version,
            to_version,
            stage,
            reason,
            rolled_back,
            at_ms,
        } => Told {
            kind: "plugin_live_reload_failed"@,
            fields: map![
                "from_version"@ => Field::Text(from_version@),
                "to_version"@ => Field::Text(to_version@),
                "stage"@ => Field::Text(stage@),
                "reason"@ => Field::Text(reason@),
                "rolled_back"@ => Field::Flag(rolled_back),
            ],
            tokens: map!["claimant"@ => claimant_token],
            at_ms: at_ms,
        },
    }
}

/// The frame shows the happening at this place on the bus.
pub open spec fn frame_tells(
    r: ClientResponse,
    seq: u64,
    h: Happening,
    steward: Seq<char>,
) -> bool {
    r matches ClientResponse::Happening { seq: at, happening } && at == seq && shown(happening)
        == told(h, steward)
}

#[verifier::rlimit(100)]
pub(crate) proof fn lemma_wire_form(h: Happening, steward: Seq<char>)
    ensures
        shown(HappeningWire::of(h, steward)) == told(h, steward),
{
    reveal(HappeningWire::of);
    reveal(told);
    reveal(shown);
}

pub(crate) proof fn lemma_kind_name(h: Happening, steward: Seq<char>)
    ensures
        h.kind_text() == told(h, steward).kind,
{
    reveal(told);
}

/// On the wire a happening keeps its kind and its time. Every field stands there
/// under its own name with its own value, and every plugin, in the part that it
/// plays, as its own token.
pub proof fn law_wire_forms_tell_the_same(
    h: Happening,
    issuer: &mut ClaimantTokenIssuer,
    w: HappeningWire,
)
    requires
        call_ensures(HappeningWire::from_happening, (h, issuer), w),
    ensures
        shown(w) == told(h, old(issuer).instance_id@),
{
    lemma_wire_form(h, old(issuer).instance_id@);
}

/// The name of a happening's kind is that of its variant.
pub proof fn law_kinds_are_named_after_their_variants(
    h: Happening,
    steward: Seq<char>,
    r: &'static str,
)
    requires
        call_ensures(Happening::kind, (&h,), r),
    ensures
        r@ == told(h, steward).kind,
{
    lemma_kind_name(h, steward);
}

/// A reason and a suppression record show the plugin behind them by its token only, and
/// the rest as it is.
pub proof fn law_reasons_and_records_hide_the_plugin(
    reason: RelationForgottenReason,
    issuer: &mut ClaimantTokenIssuer,
    shown: RelationForgottenReasonWire,
    record: SuppressionRecord,
    other: &mut ClaimantTokenIssuer,
    wire: SuppressionRecordWire,
)
    requires
        call_ensures(RelationForgottenReasonWire::from_reason, (reason, issuer), shown),
        call_ensures(SuppressionRecordWire::from_record, (record, other), wire),
    ensures
        reason is ClaimsRetracted <==> shown is ClaimsRetracted,
        reason is ClaimsRetracted ==> shown->retracting_claimant_token == token_of(
            old(issuer).instance_id@,
            reason->retracting_plugin@,
        ),
        reason is SubjectCascade ==> shown->forgotten_subject == reason->forgotten_subject,
        wire.admin_token == token_of(old(other).instance_id@, record.admin_plugin@),
        wire.suppressed_at_ms == ms_of(record.suppressed_at),
        wire.reason == record.reason,
{
}

}
