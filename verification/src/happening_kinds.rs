//! The kinds of happenings: their names mirror the happenings one for one.

use crate::happenings::{kinds, law_kinds_are_complete, Happening};
use vstd::prelude::*;

verus! {

/// Two happenings are of the same kind, whatever they tell.
pub open spec fn same_kind(a: Happening, b: Happening) -> bool {
    match (a, b) {
        (
            Happening::AppointmentApproaching { .. },
            Happening::AppointmentApproaching { .. },
        ) => true,
        (Happening::AppointmentCancelled { .. }, Happening::AppointmentCancelled { .. }) => true,
        (Happening::AppointmentFired { .. }, Happening::AppointmentFired { .. }) => true,
        (Happening::AppointmentMissed { .. }, Happening::AppointmentMissed { .. }) => true,
        (Happening::CardinalityViolation { .. }, Happening::CardinalityViolation { .. }) => true,
        (Happening::CatalogueFallback { .. }, Happening::CatalogueFallback { .. }) => true,
        (Happening::CatalogueInvalid { .. }, Happening::CatalogueInvalid { .. }) => true,
        (Happening::CatalogueReloaded { .. }, Happening::CatalogueReloaded { .. }) => true,
        (Happening::ClaimReassigned { .. }, Happening::ClaimReassigned { .. }) => true,
        (Happening::ClockAdjusted { .. }, Happening::ClockAdjusted { .. }) => true,
        (Happening::ClockTrustChanged { .. }, Happening::ClockTrustChanged { .. }) => true,
        (Happening::CustodyAborted { .. }, Happening::CustodyAborted { .. }) => true,
        (Happening::CustodyDegraded { .. }, Happening::CustodyDegraded { .. }) => true,
        (Happening::CustodyReleased { .. }, Happening::CustodyReleased { .. }) => true,
        (Happening::CustodyStateReported { .. }, Happening::CustodyStateReported { .. }) => true,
        (Happening::CustodyTaken { .. }, Happening::CustodyTaken { .. }) => true,
        (
            Happening::FactoryInstanceAnnounced { .. },
            Happening::FactoryInstanceAnnounced { .. },
        ) => true,
        (
            Happening::FactoryInstanceRetracted { .. },
            Happening::FactoryInstanceRetracted { .. },
        ) => true,
        (Happening::FlightModeChanged { .. }, Happening::FlightModeChanged { .. }) => true,
        (
            Happening::GrammarMigrationProgress { .. },
            Happening::GrammarMigrationProgress { .. },
        ) => true,
        (
            Happening::GrammarOrphansAccepted { .. },
            Happening::GrammarOrphansAccepted { .. },
        ) => true,
        (
            Happening::PluginAdmissionSkipped { .. },
            Happening::PluginAdmissionSkipped { .. },
        ) => true,
        (Happening::PluginEvent { .. }, Happening::PluginEvent { .. }) => true,
        (
            Happening::PluginLiveReloadCompleted { .. },
            Happening::PluginLiveReloadCompleted { .. },
        ) => true,
        (
            Happening::PluginLiveReloadFailed { .. },
            Happening::PluginLiveReloadFailed { .. },
        ) => true,
        (
            Happening::PluginLiveReloadStarted { .. },
            Happening::PluginLiveReloadStarted { .. },
        ) => true,
        (Happening::PluginManifestDrift { .. }, Happening::PluginManifestDrift { .. }) => true,
        (Happening::PluginManifestInvalid { .. }, Happening::PluginManifestInvalid { .. }) => true,
        (
            Happening::PluginManifestReloaded { .. },
            Happening::PluginManifestReloaded { .. },
        ) => true,
        (
            Happening::PluginVersionSkewWarning { .. },
            Happening::PluginVersionSkewWarning { .. },
        ) => true,
        (Happening::ReconciliationApplied { .. }, Happening::ReconciliationApplied { .. }) => true,
        (Happening::ReconciliationFailed { .. }, Happening::ReconciliationFailed { .. }) => true,
        (
            Happening::RelationCardinalityViolatedPostRewrite { .. },
            Happening::RelationCardinalityViolatedPostRewrite { .. },
        ) => true,
        (
            Happening::RelationCardinalityViolation { .. },
            Happening::RelationCardinalityViolation { .. },
        ) => true,
        (
            Happening::RelationClaimForcedRetract { .. },
            Happening::RelationClaimForcedRetract { .. },
        ) => true,
        (
            Happening::RelationClaimSuppressionCollapsed { .. },
            Happening::RelationClaimSuppressionCollapsed { .. },
        ) => true,
        (Happening::RelationForgotten { .. }, Happening::RelationForgotten { .. }) => true,
        (Happening::RelationRewritten { .. }, Happening::RelationRewritten { .. }) => true,
        (
            Happening::RelationSplitAmbiguous { .. },
            Happening::RelationSplitAmbiguous { .. },
        ) => true,
        (Happening::RelationSuppressed { .. }, Happening::RelationSuppressed { .. }) => true,
        (
            Happening::RelationSuppressionReasonUpdated { .. },
            Happening::RelationSuppressionReasonUpdated { .. },
        ) => true,
        (Happening::RelationUnsuppressed { .. }, Happening::RelationUnsuppressed { .. }) => true,
        (
            Happening::SubjectAddressingForcedRetract { .. },
            Happening::SubjectAddressingForcedRetract { .. },
        ) => true,
        (
            Happening::SubjectConflictDetected { .. },
            Happening::SubjectConflictDetected { .. },
        ) => true,
        (Happening::SubjectForgotten { .. }, Happening::SubjectForgotten { .. }) => true,
        (Happening::SubjectGrammarOrphan { .. }, Happening::SubjectGrammarOrphan { .. }) => true,
        (Happening::SubjectMerged { .. }, Happening::SubjectMerged { .. }) => true,
        (Happening::SubjectMigrated { .. }, Happening::SubjectMigrated { .. }) => true,
        (Happening::SubjectSplit { .. }, Happening::SubjectSplit { .. }) => true,
        (Happening::SubjectStateChanged { .. }, Happening::SubjectStateChanged { .. }) => true,
        (Happening::WatchCancelled { .. }, Happening::WatchCancelled { .. }) => true,
        (
            Happening::WatchEvaluationThrottled { .. },
            Happening::WatchEvaluationThrottled { .. },
        ) => true,
        (Happening::WatchFired { .. }, Happening::WatchFired { .. }) => true,
        (Happening::WatchMissed { .. }, Happening::WatchMissed { .. }) => true,
        _ => false,
    }
}

/// The place of a happening's kind among all kinds.
spec fn place(h: Happening) -> int {
    match h {
        Happening::AppointmentApproaching { .. } => 0,
        Happening::AppointmentCancelled { .. } => 1,
        Happening::AppointmentFired { .. } => 2,
        Happening::AppointmentMissed { .. } => 3,
        Happening::CardinalityViolation { .. } => 4,
        Happening::CatalogueFallback { .. } => 5,
        Happening::CatalogueInvalid { .. } => 6,
        Happening::CatalogueReloaded { .. } => 7,
        Happening::ClaimReassigned { .. } => 8,
        Happening::ClockAdjusted { .. } => 9,
        Happening::ClockTrustChanged { .. } => 10,
        Happening::CustodyAborted { .. } => 11,
        Happening::CustodyDegraded { .. } => 12,
        Happening::CustodyReleased { .. } => 13,
        Happening::CustodyStateReported { .. } => 14,
        Happening::CustodyTaken { .. } => 15,
        Happening::FactoryInstanceAnnounced { .. } => 16,
        Happening::FactoryInstanceRetracted { .. } => 17,
        Happening::FlightModeChanged { .. } => 18,
        Happening::GrammarMigrationProgress { .. } => 19,
        Happening::GrammarOrphansAccepted { .. } => 20,
        Happening::PluginAdmissionSkipped { .. } => 21,
        Happening::PluginEvent { .. } => 22,
        Happening::PluginLiveReloadCompleted { .. } => 23,
        Happening::PluginLiveReloadFailed { .. } => 24,
        Happening::PluginLiveReloadStarted { .. } => 25,
        Happening::PluginManifestDrift { .. } => 26,
        Happening::PluginManifestInvalid { .. } => 27,
        Happening::PluginManifestReloaded { .. } => 28,
        Happening::PluginVersionSkewWarning { .. } => 29,
        Happening::ReconciliationApplied { .. } => 30,
        Happening::ReconciliationFailed { .. } => 31,
        Happening::RelationCardinalityViolatedPostRewrite { .. } => 32,
        Happening::RelationCardinalityViolation { .. } => 33,
        Happening::RelationClaimForcedRetract { .. } => 34,
        Happening::RelationClaimSuppressionCollapsed { .. } => 35,
        Happening::RelationForgotten { .. } => 36,
        Happening::RelationRewritten { .. } => 37,
        Happening::RelationSplitAmbiguous { .. } => 38,
        Happening::RelationSuppressed { .. } => 39,
        Happening::RelationSuppressionReasonUpdated { .. } => 40,
        Happening::RelationUnsuppressed { .. } => 41,
        Happening::SubjectAddressingForcedRetract { .. } => 42,
        Happening::SubjectConflictDetected { .. } => 43,
        Happening::SubjectForgotten { .. } => 44,
        Happening::SubjectGrammarOrphan { .. } => 45,
        Happening::SubjectMerged { .. } => 46,
        Happening::SubjectMigrated { .. } => 47,
        Happening::SubjectSplit { .. } => 48,
        Happening::SubjectStateChanged { .. } => 49,
        Happening::WatchCancelled { .. } => 50,
        Happening::WatchEvaluationThrottled { .. } => 51,
        Happening::WatchFired { .. } => 52,
        Happening::WatchMissed { .. } => 53,
    }
}

/// Some happening of the kind that has this place.
spec fn happening_at(i: int) -> Happening {
    if i == 0 {
        Happening::AppointmentApproaching {
            creator: arbitrary(),
            appointment_id: arbitrary(),
            scheduled_for_ms: arbitrary(),
            fires_in_ms: arbitrary(),
            at: arbitrary(),
        }
    } else if i == 1 {
        Happening::AppointmentCancelled {
            creator: arbitrary(),
            appointment_id: arbitrary(),
            cancelled_by: arbitrary(),
            at: arbitrary(),
        }
    } else if i == 2 {
        Happening::AppointmentFired {
            creator: arbitrary(),
            appointment_id: arbitrary(),
            fired_at_ms: arbitrary(),
            dispatch_outcome: arbitrary(),
            at: arbitrary(),
        }
    } else if i == 3 {
        Happening::AppointmentMissed {
            creator: arbitrary(),
            appointment_id: arbitrary(),
            scheduled_for_ms: arbitrary(),
            reason: arbitrary(),
            at: arbitrary(),
        }
    } else if i == 4 {
        Happening::CardinalityViolation { shelf: arbitrary(), reason: arbitrary(), at: arbitrary() }
    } else if i == 5 {
        Happening::CatalogueFallback { source: arbitrary(), reason: arbitrary(), at: arbitrary() }
    } else if i == 6 {
        Happening::CatalogueInvalid { stage: arbitrary(), reason: arbitrary(), at: arbitrary() }
    } else if i == 7 {
        Happening::CatalogueReloaded {
            from_schema_version: arbitrary(),
            to_schema_version: arbitrary(),
            rack_count: arbitrary(),
            at: arbitrary(),
        }
    } else if i == 8 {
        Happening::ClaimReassigned {
            admin_plugin: arbitrary(),
            plugin: arbitrary(),
            kind: arbitrary(),
            old_subject_id: arbitrary(),
            new_subject_id: arbitrary(),
            scheme: arbitrary(),
            value: arbitrary(),
            predicate: arbitrary(),
            target_id: arbitrary(),
            at: arbitrary(),
        }
    } else if i == 9 {
        Happening::ClockAdjusted { delta_seconds: arbitrary(), at: arbitrary() }
    } else if i == 10 {
        Happening::ClockTrustChanged { from: arbitrary(), to: arbitrary(), at: arbitrary() }
    } else if i == 11 {
        Happening::CustodyAborted {
            plugin: arbitrary(),
            handle_id: arbitrary(),
            shelf: arbitrary(),
            reason: arbitrary(),
            at: arbitrary(),
        }
    } else if i == 12 {
        Happening::CustodyDegraded {
            plugin: arbitrary(),
            handle_id: arbitrary(),
            shelf: arbitrary(),
            reason: arbitrary(),
            at: arbitrary(),
        }
    } else if i == 13 {
        Happening::CustodyReleased { plugin: arbitrary(), handle_id: arbitrary(), at: arbitrary() }
    } else if i == 14 {
        Happening::CustodyStateReported {
            plugin: arbitrary(),
            handle_id: arbitrary(),
            health: arbitrary(),
            at: arbitrary(),
        }
    } else if i == 15 {
        Happening::CustodyTaken {
            plugin: arbitrary(),
            handle_id: arbitrary(),
            shelf: arbitrary(),
            custody_type: arbitrary(),
            at: arbitrary(),
        }
    } else if i == 16 {
        Happening::FactoryInstanceAnnounced {
            plugin: arbitrary(),
            instance_id: arbitrary(),
            canonical_id: arbitrary(),
            shelf: arbitrary(),
            payload_bytes: arbitrary(),
            at: arbitrary(),
        }
    } else if i == 17 {
        Happening::FactoryInstanceRetracted {
            plugin: arbitrary(),
            instance_id: arbitrary(),
            canonical_id: arbitrary(),
            shelf: arbitrary(),
            at: arbitrary(),
        }
    } else if i == 18 {
        Happening::FlightModeChanged { rack_class: arbitrary(), on: arbitrary(), at: arbitrary() }
    } else if i == 19 {
        Happening::GrammarMigrationProgress {
            migration_id: arbitrary(),
            from_type: arbitrary(),
            completed: arbitrary(),
            remaining: arbitrary(),
            batch_index: arbitrary(),
            at: arbitrary(),
        }
    } else if i == 20 {
        Happening::GrammarOrphansAccepted {
            subject_type: arbitrary(),
            reason: arbitrary(),
            at: arbitrary(),
        }
    } else if i == 21 {
        Happening::PluginAdmissionSkipped {
            plugin: arbitrary(),
            reason: arbitrary(),
            at: arbitrary(),
        }
    } else if i == 22 {
        Happening::PluginEvent {
            plugin: arbitrary(),
            event_type: arbitrary(),
            payload: arbitrary(),
            at: arbitrary(),
        }
    } else if i == 23 {
        Happening::PluginLiveReloadCompleted {
            plugin: arbitrary(),
            from_version: arbitrary(),
            to_version: arbitrary(),
            state_blob_bytes: arbitrary(),
            at: arbitrary(),
        }
    } else if i == 24 {
        Happening::PluginLiveReloadFailed {
            plugin: arbitrary(),
            from_version: arbitrary(),
            to_version: arbitrary(),
            stage: arbitrary(),
            reason: arbitrary(),
            rolled_back: arbitrary(),
            at: arbitrary(),
        }
    } else if i == 25 {
        Happening::PluginLiveReloadStarted {
            plugin: arbitrary(),
            from_version: arbitrary(),
            to_version: arbitrary(),
            at: arbitrary(),
        }
    } else if i == 26 {
        Happening::PluginManifestDrift {
            plugin: arbitrary(),
            missing_in_implementation: arbitrary(),
            missing_in_manifest: arbitrary(),
            admitted: arbitrary(),
            at: arbitrary(),
        }
    } else if i == 27 {
        Happening::PluginManifestInvalid {
            plugin: arbitrary(),
            stage: arbitrary(),
            reason: arbitrary(),
            at: arbitrary(),
        }
    } else if i == 28 {
        Happening::PluginManifestReloaded {
            plugin: arbitrary(),
            from_manifest_version: arbitrary(),
            to_manifest_version: arbitrary(),
            at: arbitrary(),
        }
    } else if i == 29 {
        Happening::PluginVersionSkewWarning {
            plugin: arbitrary(),
            evo_min_version: arbitrary(),
            skew_minor_versions: arbitrary(),
            at: arbitrary(),
        }
    } else if i == 30 {
        Happening::ReconciliationApplied {
            pair: arbitrary(),
            generation: arbitrary(),
            applied_state: arbitrary(),
            at: arbitrary(),
        }
    } else if i == 31 {
        Happening::ReconciliationFailed {
            pair: arbitrary(),
            generation: arbitrary(),
            error_class: arbitrary(),
            error_message: arbitrary(),
            at: arbitrary(),
        }
    } else if i == 32 {
        Happening::RelationCardinalityViolatedPostRewrite {
            admin_plugin: arbitrary(),
            subject_id: arbitrary(),
            predicate: arbitrary(),
            side: arbitrary(),
            declared: arbitrary(),
            observed_count: arbitrary(),
            at: arbitrary(),
        }
    } else if i == 33 {
        Happening::RelationCardinalityViolation {
            plugin: arbitrary(),
            predicate: arbitrary(),
            source_id: arbitrary(),
            target_id: arbitrary(),
            side: arbitrary(),
            declared: arbitrary(),
            observed_count: arbitrary(),
            at: arbitrary(),
        }
    } else if i == 34 {
        Happening::RelationClaimForcedRetract {
            admin_plugin: arbitrary(),
            target_plugin: arbitrary(),
            source_id: arbitrary(),
            predicate: arbitrary(),
            target_id: arbitrary(),
            reason: arbitrary(),
            at: arbitrary(),
        }
    } else if i == 35 {
        Happening::RelationClaimSuppressionCollapsed {
            admin_plugin: arbitrary(),
            subject_id: arbitrary(),
            predicate: arbitrary(),
            target_id: arbitrary(),
            demoted_claimant: arbitrary(),
            surviving_suppression_record: arbitrary(),
            at: arbitrary(),
        }
    } else if i == 36 {
        Happening::RelationForgotten {
            plugin: arbitrary(),
            source_id: arbitrary(),
            predicate: arbitrary(),
            target_id: arbitrary(),
            reason: arbitrary(),
            at: arbitrary(),
        }
    } else if i == 37 {
        Happening::RelationRewritten {
            admin_plugin: arbitrary(),
            predicate: arbitrary(),
            old_subject_id: arbitrary(),
            new_subject_id: arbitrary(),
            target_id: arbitrary(),
            at: arbitrary(),
        }
    } else if i == 38 {
        Happening::RelationSplitAmbiguous {
            admin_plugin: arbitrary(),
            source_subject: arbitrary(),
            predicate: arbitrary(),
            other_endpoint_id: arbitrary(),
            candidate_new_ids: arbitrary(),
            at: arbitrary(),
        }
    } else if i == 39 {
        Happening::RelationSuppressed {
            admin_plugin: arbitrary(),
            source_id: arbitrary(),
            predicate: arbitrary(),
            target_id: arbitrary(),
            reason: arbitrary(),
            at: arbitrary(),
        }
    } else if i == 40 {
        Happening::RelationSuppressionReasonUpdated {
            admin_plugin: arbitrary(),
            source_id: arbitrary(),
            predicate: arbitrary(),
            target_id: arbitrary(),
            old_reason: arbitrary(),
            new_reason: arbitrary(),
            at: arbitrary(),
        }
    } else if i == 41 {
        Happening::RelationUnsuppressed {
            admin_plugin: arbitrary(),
            source_id: arbitrary(),
            predicate: arbitrary(),
            target_id: arbitrary(),
            at: arbitrary(),
        }
    } else if i == 42 {
        Happening::SubjectAddressingForcedRetract {
            admin_plugin: arbitrary(),
            target_plugin: arbitrary(),
            canonical_id: arbitrary(),
            scheme: arbitrary(),
            value: arbitrary(),
            reason: arbitrary(),
            at: arbitrary(),
        }
    } else if i == 43 {
        Happening::SubjectConflictDetected {
            plugin: arbitrary(),
            addressings: arbitrary(),
            canonical_ids: arbitrary(),
            at: arbitrary(),
        }
    } else if i == 44 {
        Happening::SubjectForgotten {
            plugin: arbitrary(),
            canonical_id: arbitrary(),
            subject_type: arbitrary(),
            at: arbitrary(),
        }
    } else if i == 45 {
        Happening::SubjectGrammarOrphan {
            subject_type: arbitrary(),
            count: arbitrary(),
            first_observed_at_ms: arbitrary(),
            at: arbitrary(),
        }
    } else if i == 46 {
        Happening::SubjectMerged {
            admin_plugin: arbitrary(),
            source_ids: arbitrary(),
            new_id: arbitrary(),
            reason: arbitrary(),
            at: arbitrary(),
        }
    } else if i == 47 {
        Happening::SubjectMigrated {
            old_id: arbitrary(),
            new_id: arbitrary(),
            from_type: arbitrary(),
            to_type: arbitrary(),
            migration_id: arbitrary(),
            at: arbitrary(),
        }
    } else if i == 48 {
        Happening::SubjectSplit {
            admin_plugin: arbitrary(),
            source_id: arbitrary(),
            new_ids: arbitrary(),
            strategy: arbitrary(),
            reason: arbitrary(),
            at: arbitrary(),
        }
    } else if i == 49 {
        Happening::SubjectStateChanged {
            plugin: arbitrary(),
            canonical_id: arbitrary(),
            subject_type: arbitrary(),
            prev_state: arbitrary(),
            new_state: arbitrary(),
            at: arbitrary(),
        }
    } else if i == 50 {
        Happening::WatchCancelled {
            creator: arbitrary(),
            watch_id: arbitrary(),
            cancelled_by: arbitrary(),
            at: arbitrary(),
        }
    } else if i == 51 {
        Happening::WatchEvaluationThrottled {
            creator: arbitrary(),
            watch_id: arbitrary(),
            dropped: arbitrary(),
            at: arbitrary(),
        }
    } else if i == 52 {
        Happening::WatchFired {
            creator: arbitrary(),
            watch_id: arbitrary(),
            fired_at_ms: arbitrary(),
            dispatch_outcome: arbitrary(),
            at: arbitrary(),
        }
    } else {
        Happening::WatchMissed {
            creator: arbitrary(),
            watch_id: arbitrary(),
            suppressed_at_ms: arbitrary(),
            reason: arbitrary(),
            at: arbitrary(),
        }
    }
}

/// The place of a name, told from its length and some of its letters.
spec fn place_by_letters(s: Seq<char>) -> int {
    if s.len() == 11 {
        52
    } else if s.len() == 12 {
        if s[0] == 'p' {
            22
        } else {
            53
        }
    } else if s.len() == 13 {
        if s[0] == 'c' {
            15
        } else {
            48
        }
    } else if s.len() == 14 {
        if s[0] == 'c' {
            9
        } else {
            46
        }
    } else if s.len() == 15 {
        if s[0] == 'c' {
            11
        } else {
            50
        }
    } else if s.len() == 16 {
        if s[8] == 'a' {
            8
        } else if s[8] == 'd' {
            12
        } else if s[8] == 'r' {
            13
        } else {
            47
        }
    } else if s.len() == 17 {
        if s[0] == 'a' {
            2
        } else if s[0] == 'c' {
            6
        } else {
            44
        }
    } else if s.len() == 18 {
        if s[10] == 't' {
            3
        } else if s[10] == 'f' {
            5
        } else if s[10] == 'r' {
            7
        } else if s[10] == 'o' {
            36
        } else {
            37
        }
    } else if s.len() == 19 {
        if s[0] == 'c' {
            10
        } else if s[0] == 'f' {
            18
        } else {
            39
        }
    } else if s.len() == 21 {
        if s[2] == 'p' {
            1
        } else if s[2] == 'r' {
            4
        } else if s[2] == 'u' {
            26
        } else if s[2] == 'c' {
            31
        } else if s[2] == 'l' {
            41
        } else {
            49
        }
    } else if s.len() == 22 {
        if s[0] == 'c' {
            14
        } else if s[0] == 'r' {
            30
        } else {
            45
        }
    } else if s.len() == 23 {
        if s[0] == 'a' {
            0
        } else {
            27
        }
    } else if s.len() == 24 {
        if s[7] == '_' {
            20
        } else if s[7] == 'a' {
            21
        } else if s[7] == 'm' {
            28
        } else {
            38
        }
    } else if s.len() == 25 {
        if s[0] == 'p' {
            24
        } else {
            43
        }
    } else if s.len() == 26 {
        if s[17] == 'a' {
            16
        } else if s[17] == 'r' {
            17
        } else if s[17] == '_' {
            19
        } else if s[17] == 'd' {
            25
        } else {
            51
        }
    } else if s.len() == 27 {
        29
    } else if s.len() == 28 {
        23
    } else if s.len() == 29 {
        34
    } else if s.len() == 30 {
        33
    } else if s.len() == 33 {
        42
    } else if s.len() == 35 {
        40
    } else if s.len() == 36 {
        35
    } else {
        32
    }
}

/// The letters of a kind's name tell its place.
proof fn lemma_letters(i: int)
    requires
        0 <= i < kinds().len(),
    ensures
        place_by_letters(kinds()[i]) == i,
{
    if i == 0 {
        reveal_strlit("appointment_approaching");
        assert("appointment_approaching"@.len() == 23);
        assert("appointment_approaching"@[0] == 'a');
    } else if i == 1 {
        reveal_strlit("appointment_cancelled");
        assert("appointment_cancelled"@.len() == 21);
        assert("appointment_cancelled"@[2] == 'p');
    } else if i == 2 {
        reveal_strlit("appointment_fired");
        assert("appointment_fired"@.len() == 17);
        assert("appointment_fired"@[0] == 'a');
    } else if i == 3 {
        reveal_strlit("appointment_missed");
        assert("appointment_missed"@.len() == 18);
        assert("appointment_missed"@[10] == 't');
    } else if i == 4 {
        reveal_strlit("cardinality_violation");
        assert("cardinality_violation"@.len() == 21);
        assert("cardinality_violation"@[2] == 'r');
    } else if i == 5 {
        reveal_strlit("catalogue_fallback");
        assert("catalogue_fallback"@.len() == 18);
        assert("catalogue_fallback"@[10] == 'f');
    } else if i == 6 {
        reveal_strlit("catalogue_invalid");
        assert("catalogue_invalid"@.len() == 17);
        assert("catalogue_invalid"@[0] == 'c');
    } else if i == 7 {
        reveal_strlit("catalogue_reloaded");
        assert("catalogue_reloaded"@.len() == 18);
        assert("catalogue_reloaded"@[10] == 'r');
    } else if i == 8 {
        reveal_strlit("claim_reassigned");
        assert("claim_reassigned"@.len() == 16);
        assert("claim_reassigned"@[8] == 'a');
    } else if i == 9 {
        reveal_strlit("clock_adjusted");
        assert("clock_adjusted"@.len() == 14);
        assert("clock_adjusted"@[0] == 'c');
    } else if i == 10 {
        reveal_strlit("clock_trust_changed");
        assert("clock_trust_changed"@.len() == 19);
        assert("clock_trust_changed"@[0] == 'c');
    } else if i == 11 {
        reveal_strlit("custody_aborted");
        assert("custody_aborted"@.len() == 15);
        assert("custody_aborted"@[0] == 'c');
    } else if i == 12 {
        reveal_strlit("custody_degraded");
        assert("custody_degraded"@.len() == 16);
        assert("custody_degraded"@[8] == 'd');
    } else if i == 13 {
        reveal_strlit("custody_released");
        assert("custody_released"@.len() == 16);
        assert("custody_released"@[8] == 'r');
    } else if i == 14 {
        reveal_strlit("custody_state_reported");
        assert("custody_state_reported"@.len() == 22);
        assert("custody_state_reported"@[0] == 'c');
    } else if i == 15 {
        reveal_strlit("custody_taken");
        assert("custody_taken"@.len() == 13);
        assert("custody_taken"@[0] == 'c');
    } else if i == 16 {
        reveal_strlit("factory_instance_announced");
        assert("factory_instance_announced"@.len() == 26);
        assert("factory_instance_announced"@[17] == 'a');
    } else if i == 17 {
        reveal_strlit("factory_instance_retracted");
        assert("factory_instance_retracted"@.len() == 26);
        assert("factory_instance_retracted"@[17] == 'r');
    } else if i == 18 {
        reveal_strlit("flight_mode_changed");
        assert("flight_mode_changed"@.len() == 19);
        assert("flight_mode_changed"@[0] == 'f');
    } else if i == 19 {
        reveal_strlit("grammar_migration_progress");
        assert("grammar_migration_progress"@.len() == 26);
        assert("grammar_migration_progress"@[17] == '_');
    } else if i == 20 {
        reveal_strlit("grammar_orphans_accepted");
        assert("grammar_orphans_accepted"@.len() == 24);
        assert("grammar_orphans_accepted"@[7] == '_');
    } else if i == 21 {
        reveal_strlit("plugin_admission_skipped");
        assert("plugin_admission_skipped"@.len() == 24);
        assert("plugin_admission_skipped"@[7] == 'a');
    } else if i == 22 {
        reveal_strlit("plugin_event");
        assert("plugin_event"@.len() == 12);
        assert("plugin_event"@[0] == 'p');
    } else if i == 23 {
        reveal_strlit("plugin_live_reload_completed");
        assert("plugin_live_reload_completed"@.len() == 28);
    } else if i == 24 {
        reveal_strlit("plugin_live_reload_failed");
        assert("plugin_live_reload_failed"@.len() == 25);
        assert("plugin_live_reload_failed"@[0] == 'p');
    } else if i == 25 {
        reveal_strlit("plugin_live_reload_started");
        assert("plugin_live_reload_started"@.len() == 26);
        assert("plugin_live_reload_started"@[17] == 'd');
    } else if i == 26 {
        reveal_strlit("plugin_manifest_drift");
        assert("plugin_manifest_drift"@.len() == 21);
        assert("plugin_manifest_drift"@[2] == 'u');
    } else if i == 27 {
        reveal_strlit("plugin_manifest_invalid");
        assert("plugin_manifest_invalid"@.len() == 23);
        assert("plugin_manifest_invalid"@[0] == 'p');
    } else if i == 28 {
        reveal_strlit("plugin_manifest_reloaded");
        assert("plugin_manifest_reloaded"@.len() == 24);
        assert("plugin_manifest_reloaded"@[7] == 'm');
    } else if i == 29 {
        reveal_strlit("plugin_version_skew_warning");
        assert("plugin_version_skew_warning"@.len() == 27);
    } else if i == 30 {
        reveal_strlit("reconciliation_applied");
        assert("reconciliation_applied"@.len() == 22);
        assert("reconciliation_applied"@[0] == 'r');
    } else if i == 31 {
        reveal_strlit("reconciliation_failed");
        assert("reconciliation_failed"@.len() == 21);
        assert("reconciliation_failed"@[2] == 'c');
    } else if i == 32 {
        reveal_strlit("relation_cardinality_violated_post_rewrite");
        assert("relation_cardinality_violated_post_rewrite"@.len() == 42);
    } else if i == 33 {
        reveal_strlit("relation_cardinality_violation");
        assert("relation_cardinality_violation"@.len() == 30);
    } else if i == 34 {
        reveal_strlit("relation_claim_forced_retract");
        assert("relation_claim_forced_retract"@.len() == 29);
    } else if i == 35 {
        reveal_strlit("relation_claim_suppression_collapsed");
        assert("relation_claim_suppression_collapsed"@.len() == 36);
    } else if i == 36 {
        reveal_strlit("relation_forgotten");
        assert("relation_forgotten"@.len() == 18);
        assert("relation_forgotten"@[10] == 'o');
    } else if i == 37 {
        reveal_strlit("relation_rewritten");
        assert("relation_rewritten"@.len() == 18);
        assert("relation_rewritten"@[10] == 'e');
    } else if i == 38 {
        reveal_strlit("relation_split_ambiguous");
        assert("relation_split_ambiguous"@.len() == 24);
        assert("relation_split_ambiguous"@[7] == 'n');
    } else if i == 39 {
        reveal_strlit("relation_suppressed");
        assert("relation_suppressed"@.len() == 19);
        assert("relation_suppressed"@[0] == 'r');
    } else if i == 40 {
        reveal_strlit("relation_suppression_reason_updated");
        assert("relation_suppression_reason_updated"@.len() == 35);
    } else if i == 41 {
        reveal_strlit("relation_unsuppressed");
        assert("relation_unsuppressed"@.len() == 21);
        assert("relation_unsuppressed"@[2] == 'l');
    } else if i == 42 {
        reveal_strlit("subject_addressing_forced_retract");
        assert("subject_addressing_forced_retract"@.len() == 33);
    } else if i == 43 {
        reveal_strlit("subject_conflict_detected");
        assert("subject_conflict_detected"@.len() == 25);
        assert("subject_conflict_detected"@[0] == 's');
    } else if i == 44 {
        reveal_strlit("subject_forgotten");
        assert("subject_forgotten"@.len() == 17);
        assert("subject_forgotten"@[0] == 's');
    } else if i == 45 {
        reveal_strlit("subject_grammar_orphan");
        assert("subject_grammar_orphan"@.len() == 22);
        assert("subject_grammar_orphan"@[0] == 's');
    } else if i == 46 {
        reveal_strlit("subject_merged");
        assert("subject_merged"@.len() == 14);
        assert("subject_merged"@[0] == 's');
    } else if i == 47 {
        reveal_strlit("subject_migrated");
        assert("subject_migrated"@.len() == 16);
        assert("subject_migrated"@[8] == 'm');
    } else if i == 48 {
        reveal_strlit("subject_split");
        assert("subject_split"@.len() == 13);
        assert("subject_split"@[0] == 's');
    } else if i == 49 {
        reveal_strlit("subject_state_changed");
        assert("subject_state_changed"@.len() == 21);
        assert("subject_state_changed"@[2] == 'b');
    } else if i == 50 {
        reveal_strlit("watch_cancelled");
        assert("watch_cancelled"@.len() == 15);
        assert("watch_cancelled"@[0] == 'w');
    } else if i == 51 {
        reveal_strlit("watch_evaluation_throttled");
        assert("watch_evaluation_throttled"@.len() == 26);
        assert("watch_evaluation_throttled"@[17] == 't');
    } else if i == 52 {
        reveal_strlit("watch_fired");
        assert("watch_fired"@.len() == 11);
    } else {
        reveal_strlit("watch_missed");
        assert("watch_missed"@.len() == 12);
        assert("watch_missed"@[0] == 'w');
    }
}

proof fn lemma_place(h: Happening)
    ensures
        0 <= place(h) < kinds().len(),
        kinds()[place(h)] == h.kind_text(),
{
}

proof fn lemma_same_place(a: Happening, b: Happening)
    requires
        place(a) == place(b),
    ensures
        same_kind(a, b),
{
}

proof fn lemma_happening_at(i: int)
    requires
        0 <= i < kinds().len(),
    ensures
        place(happening_at(i)) == i,
{
}

/// No kind is listed twice, and each is that of some happening.
pub proof fn law_kinds_mirror_the_happenings()
    ensures
        kinds().no_duplicates(),
        forall|i: int|
            0 <= i < kinds().len() ==> exists|h: Happening| #[trigger]
                h.kind_text() == #[trigger] kinds()[i],
        forall|h: Happening| kinds().contains(#[trigger] h.kind_text()),
{
    let all = kinds();
    assert forall|i: int, j: int| 0 <= i < all.len() && 0 <= j < all.len() && i != j implies all[i]
        != all[j] by {
        lemma_letters(i);
        lemma_letters(j);
    }
    assert forall|i: int| 0 <= i < all.len() implies exists|h: Happening| #[trigger]
        h.kind_text() == #[trigger] all[i] by {
        lemma_happening_at(i);
        lemma_place(happening_at(i));
        assert(happening_at(i).kind_text() == all[i]);
    }
    assert forall|h: Happening| all.contains(#[trigger] h.kind_text()) by {
        law_kinds_are_complete(h);
    }
}

/// Two happenings have the same name of kind if and only if they are of the same
/// kind.
pub proof fn law_kinds_tell_happenings_apart(a: Happening, b: Happening)
    ensures
        (a.kind_text() == b.kind_text()) == same_kind(a, b),
{
    lemma_place(a);
    lemma_place(b);
    if a.kind_text() == b.kind_text() {
        lemma_letters(place(a));
        lemma_letters(place(b));
        lemma_same_place(a, b);
    }
}

}
