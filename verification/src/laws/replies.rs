//! Laws of the replies: what the steward found out reaches the client.

use crate::claimant::{token_of, ClaimantTokenIssuer};
use crate::codec::{base64_decoded, base64_text};
use crate::custody::{
    course_correct_reply, decode_payload, handle_list_active_custodies, release_custody_reply,
    take_custody_reply, CustodyRecord, CustodyRecordWire, StateSnapshot, StateSnapshotWire,
};
use crate::errors::{failure_error, lifecycle_error, ApiError, ErrorClass, StewardFailure};
use crate::interactions::{
    answer_user_interaction_reply, cancel_user_interaction_reply, list_user_interactions_reply,
    OpenPrompt,
};
use crate::json::{object_value, text_value};
use crate::laws::refusals::{refuses, says};
use crate::lifecycle::{
    lifecycle_reply, reload_catalogue_reply, reload_manifest_reply, reload_plugin_reply,
    CatalogueReloadOutcome, ManifestReloadOutcome, PluginLifecycleOutcome,
};
use crate::reconciliation::{
    list_reconciliation_pairs_reply, project_reconciliation_pair_reply, reconcile_pair_now_reply,
    PairProjection, ReconciliationPairSnapshot,
};
use crate::requests::CustodyHandle;
use crate::responses::{AppointmentEntryWire, ClientResponse, WatchEntryWire};
use crate::schedules::{
    cancel_appointment_reply, cancel_watch_reply, create_appointment_reply, create_watch_reply,
    list_appointments_reply, list_watches_reply, project_appointment_entry,
    project_appointment_reply, project_watch_entry, project_watch_reply, AppointmentEntry,
    AppointmentRuntimeError, AppointmentState, WatchEntry, WatchScheduleError, WatchState,
};
use crate::text::contains_text;
use crate::time::ms_of;
use vstd::prelude::*;

verus! {

/// The classes of error go by these names.
pub open spec fn class_name(c: ErrorClass) -> Seq<char> {
    if c is Transient {
        "transient"@
    } else if c is Unavailable {
        "unavailable"@
    } else if c is ResourceExhausted {
        "resource_exhausted"@
    } else if c is ContractViolation {
        "contract_violation"@
    } else if c is NotFound {
        "not_found"@
    } else if c is PermissionDenied {
        "permission_denied"@
    } else if c is ProtocolViolation {
        "protocol_violation"@
    } else if c is DeadlineExceeded {
        "deadline_exceeded"@
    } else {
        "internal"@
    }
}

/// A class of error goes by its name on the wire.
pub proof fn law_classes_go_by_their_names(c: ErrorClass, name: &'static str)
    requires
        call_ensures(ErrorClass::as_str, (c,), name),
    ensures
        name@ == class_name(c),
{
}

/// The failure was of this class, and said and added this.
pub open spec fn tells(
    failure: StewardFailure,
    class: ErrorClass,
    text: Seq<char>,
    details: Option<serde_json::Value>,
) -> bool {
    match failure {
        StewardFailure::Admission { class: c, text: t, details: d, .. } => {
            c == class && t@ == text && d == details
        },
        StewardFailure::Dispatch { class: c, text: t, details: d } => {
            c == class && t@ == text && d == details
        },
        StewardFailure::Other { class: c, text: t, details: d } => {
            c == class && t@ == text && d == details
        },
    }
}

/// The error passes the failure on, with nothing changed.
pub open spec fn passes_on(e: ApiError, failure: StewardFailure) -> bool {
    tells(failure, e.class, e.message@, e.details)
}

/// A failure is passed on as it was.
pub proof fn law_failures_are_passed_on(
    failure: StewardFailure,
    error: ApiError,
    class: ErrorClass,
    text: &str,
)
    requires
        call_ensures(failure_error, (failure,), error),
        call_ensures(StewardFailure::classify, (&failure,), class),
        call_ensures(StewardFailure::as_str, (&failure,), text),
    ensures
        passes_on(error, failure),
        tells(failure, class, text@, error.details),
{
}

/// An error is made of the class, the message and the details that it is given.
pub proof fn law_errors_hold_what_they_are_given(
    class: ErrorClass,
    message: &str,
    subclass: &str,
    details: serde_json::Value,
    plain: ApiError,
    named: ApiError,
    detailed: ApiError,
)
    requires
        call_ensures(ApiError::new, (class, message), plain),
        call_ensures(ApiError::with_subclass, (plain, subclass), named),
        call_ensures(ApiError::with_details, (plain, details), detailed),
    ensures
        plain.class == class && plain.message@ == message@ && plain.details is None,
        says(named, class, message@, subclass@),
        detailed.class == class && detailed.message@ == message@,
        detailed.details == Some(details),
{
}

/// The admission engine refused because the distribution cannot do without the
/// plugin.
pub open spec fn essential(failure: StewardFailure) -> bool {
    failure is Admission && contains_text(failure->message@, "required = true"@)
}

/// The error reports the failure of an operation on plugins: under the operation's
/// name, marked where the plugin is essential, and as a denied permission where an
/// essential plugin was to be disabled.
pub open spec fn blames(e: ApiError, op: Seq<char>, failure: StewardFailure) -> bool {
    &&& exists|class: ErrorClass, text: Seq<char>, details: Option<serde_json::Value>| #[trigger]
        tells(failure, class, text, details) && e.message@ == op + ": "@ + text && e.class == (
        if essential(failure) && op == "disable_plugin"@ {
            ErrorClass::PermissionDenied
        } else {
            class
        })
    &&& essential(failure) ==> e.details == Some(
        object_value(map!["subclass"@ => text_value("essential_plugin"@)]),
    )
    &&& !essential(failure) ==> e.details is None
}

proof fn lemma_blames(e: ApiError, op: Seq<char>, failure: StewardFailure)
    requires
        crate::errors::reports_lifecycle(e, op, failure),
    ensures
        blames(e, op, failure),
{
    assert(tells(failure, failure.spec_class(), failure.spec_text(), failure.spec_details()));
}

/// The failure of an operation on plugins is reported under the operation's name.
/// An essential plugin is told apart, and cannot be disabled for want of permission.
pub proof fn law_essential_plugins_stay(op: &str, failure: StewardFailure, error: ApiError)
    requires
        call_ensures(lifecycle_error, (op, &failure), error),
    ensures
        blames(error, op@, failure),
        essential(failure) && op@ == "disable_plugin"@ ==> error.class
            == ErrorClass::PermissionDenied,
{
    lemma_blames(error, op@, failure);
}

/// An operation on plugins is answered with what it did.
pub proof fn law_lifecycle_outcomes_are_told(
    op: &str,
    outcome: Result<PluginLifecycleOutcome, StewardFailure>,
    r: ClientResponse,
)
    requires
        call_ensures(lifecycle_reply, (op, outcome), r),
    ensures
        outcome is Ok ==> ({
            &&& r is PluginLifecycle
            &&& r->plugin_lifecycle
            &&& r->PluginLifecycle_plugin == outcome->Ok_0.plugin
            &&& r->was_currently_admitted == outcome->Ok_0.was_currently_admitted
            &&& r->change_applied == outcome->Ok_0.change_applied
        }),
        outcome is Err ==> r is Error && blames(r->error, op@, outcome->Err_0),
{
    if outcome is Err {
        lemma_blames(r->error, op@, outcome->Err_0);
    }
}

/// A reload is answered with what it did; a failure is reported under its name.
pub proof fn law_reloads_are_told(
    catalogue: Result<CatalogueReloadOutcome, StewardFailure>,
    manifest: Result<ManifestReloadOutcome, StewardFailure>,
    plugin: String,
    reloaded: Result<(), StewardFailure>,
    rc: ClientResponse,
    rm: ClientResponse,
    rp: ClientResponse,
)
    requires
        call_ensures(reload_catalogue_reply, (catalogue,), rc),
        call_ensures(reload_manifest_reply, (manifest,), rm),
        call_ensures(reload_plugin_reply, (plugin, reloaded), rp),
    ensures
        catalogue is Ok ==> ({
            &&& rc is CatalogueReloaded
            &&& rc->catalogue_reload
            &&& rc->from_schema_version == catalogue->Ok_0.from_schema_version
            &&& rc->to_schema_version == catalogue->Ok_0.to_schema_version
            &&& rc->rack_count == catalogue->Ok_0.rack_count
            &&& rc->CatalogueReloaded_duration_ms == catalogue->Ok_0.duration_ms
            &&& rc->CatalogueReloaded_dry_run == catalogue->Ok_0.dry_run
        }),
        catalogue is Err ==> rc is Error && blames(
            rc->error,
            "reload_catalogue"@,
            catalogue->Err_0,
        ),
        manifest is Ok ==> ({
            &&& rm is ManifestReloaded
            &&& rm->manifest_reload
            &&& rm->ManifestReloaded_plugin == manifest->Ok_0.plugin
            &&& rm->from_manifest_version == manifest->Ok_0.from_manifest_version
            &&& rm->to_manifest_version == manifest->Ok_0.to_manifest_version
            &&& rm->ManifestReloaded_duration_ms == manifest->Ok_0.duration_ms
            &&& rm->ManifestReloaded_dry_run == manifest->Ok_0.dry_run
        }),
        manifest is Err ==> rm is Error && blames(rm->error, "reload_manifest"@, manifest->Err_0),
        reloaded is Ok ==> ({
            &&& rp is PluginReloaded
            &&& rp->plugin_reload
            &&& rp->PluginReloaded_plugin == plugin
        }),
        reloaded is Err ==> rp is Error && blames(rp->error, "reload_plugin"@, reloaded->Err_0),
{
    if catalogue is Err {
        lemma_blames(rc->error, "reload_catalogue"@, catalogue->Err_0);
    }
    if manifest is Err {
        lemma_blames(rm->error, "reload_manifest"@, manifest->Err_0);
    }
    if reloaded is Err {
        lemma_blames(rp->error, "reload_plugin"@, reloaded->Err_0);
    }
}

/// The wire form of a report gives the payload in base64, and the health and the
/// time of the report.
pub open spec fn snapshot_shown(w: StateSnapshotWire, s: StateSnapshot) -> bool {
    &&& w.payload_b64@ == base64_text(s.payload@)
    &&& w.health == s.health
    &&& w.reported_at_ms == ms_of(s.reported_at)
}

/// The wire form of a custody shows the warden by a token only, and the rest as it
/// is; a report is there if and only if the warden has made one.
pub open spec fn custody_shown(
    w: CustodyRecordWire,
    c: CustodyRecord,
    steward: Seq<char>,
) -> bool {
    &&& w.claimant_token == token_of(steward, c.plugin@)
    &&& w.handle_id == c.handle_id
    &&& w.shelf == c.shelf
    &&& w.custody_type == c.custody_type
    &&& w.last_state is Some <==> c.last_state is Some
    &&& c.last_state is Some ==> snapshot_shown(w.last_state->Some_0, c.last_state->Some_0)
    &&& w.state == c.state
    &&& w.started_at_ms == ms_of(c.started_at)
    &&& w.last_updated_ms == ms_of(c.last_updated)
}

/// A custody is shown as the ledger has it, its warden's report as it was made.
pub proof fn law_custodies_are_shown(
    report: StateSnapshot,
    shown: StateSnapshotWire,
    record: CustodyRecord,
    issuer: &mut ClaimantTokenIssuer,
    wire: CustodyRecordWire,
)
    requires
        call_ensures(StateSnapshotWire::from_snapshot, (report,), shown),
        call_ensures(CustodyRecordWire::from_record, (record, issuer), wire),
    ensures
        snapshot_shown(shown, report),
        custody_shown(wire, record, old(issuer).instance_id@),
{
}

/// The list of custodies is the ledger, record by record.
pub proof fn law_custody_lists_are_the_ledger(
    records: Vec<CustodyRecord>,
    issuer: &mut ClaimantTokenIssuer,
    r: ClientResponse,
)
    requires
        call_ensures(handle_list_active_custodies, (records, issuer), r),
    ensures
        r is ActiveCustodies,
        r->active_custodies@.len() == records@.len(),
        forall|i: int|
            0 <= i < records@.len() ==> custody_shown(
                #[trigger] r->active_custodies@[i],
                records@[i],
                old(issuer).instance_id@,
            ),
{
}

/// A payload is decoded where it is base64, and refused for what the decoder says
/// where it is not.
pub proof fn law_payloads_are_decoded(
    prefix: &str,
    payload_b64: &str,
    r: Result<Vec<u8>, ApiError>,
)
    requires
        call_ensures(decode_payload, (prefix, payload_b64), r),
    ensures
        r is Ok ==> base64_decoded(payload_b64@) == Ok::<Seq<u8>, Seq<char>>(r->Ok_0@),
        r is Err ==> base64_decoded(payload_b64@) is Err && says(
            r->Err_0,
            ErrorClass::ContractViolation,
            prefix@ + "invalid base64 payload: "@ + base64_decoded(payload_b64@)->Err_0,
            "invalid_base64"@,
        ),
{
}

/// A custody operation is answered with the custody it was about, and with the
/// failure as it was where it failed.
pub proof fn law_custody_operations_are_answered(
    shelf: String,
    handle_id: String,
    taken: Result<CustodyHandle, StewardFailure>,
    corrected: Result<(), StewardFailure>,
    released: Result<(), StewardFailure>,
    rt: ClientResponse,
    rc: ClientResponse,
    rr: ClientResponse,
)
    requires
        call_ensures(take_custody_reply, (shelf, taken), rt),
        call_ensures(course_correct_reply, (shelf, handle_id, corrected), rc),
        call_ensures(release_custody_reply, (shelf, handle_id, released), rr),
    ensures
        taken is Ok ==> ({
            &&& rt is CustodyTaken
            &&& rt->custody
            &&& rt->CustodyTaken_shelf == shelf
            &&& rt->handle == taken->Ok_0
        }),
        taken is Err ==> rt is Error && passes_on(rt->error, taken->Err_0),
        corrected is Ok ==> ({
            &&& rc is CustodyCourseCorrected
            &&& rc->course_corrected
            &&& rc->CustodyCourseCorrected_shelf == shelf
            &&& rc->CustodyCourseCorrected_handle_id == handle_id
        }),
        corrected is Err ==> rc is Error && passes_on(rc->error, corrected->Err_0),
        released is Ok ==> ({
            &&& rr is CustodyReleased
            &&& rr->released
            &&& rr->CustodyReleased_shelf == shelf
            &&& rr->CustodyReleased_handle_id == handle_id
        }),
        released is Err ==> rr is Error && passes_on(rr->error, released->Err_0),
{
}

/// The active pairs are listed as they are, in their order.
pub proof fn law_pairs_are_listed(
    snapshot: Vec<ReconciliationPairSnapshot>,
    r: ClientResponse,
)
    requires
        call_ensures(list_reconciliation_pairs_reply, (snapshot,), r),
    ensures
        r is ReconciliationPairs,
        r->reconciliation_pairs,
        r->pairs@.len() == snapshot@.len(),
        forall|i: int|
            #![trigger r->pairs@[i]]
            #![trigger snapshot@[i]]
            0 <= i < snapshot@.len() ==> ({
                &&& r->pairs@[i].pair_id == snapshot@[i].pair_id
                &&& r->pairs@[i].composer_shelf == snapshot@[i].composer_shelf
                &&& r->pairs@[i].warden_shelf == snapshot@[i].warden_shelf
                &&& r->pairs@[i].generation == snapshot@[i].generation
                &&& r->pairs@[i].last_applied_at_ms == snapshot@[i].last_applied_at_ms
            }),
{
    assert forall|i: int| 0 <= i < snapshot@.len() implies #[trigger] r->pairs@[i]
        == snapshot@[i].wire() by {}
}

/// A pair that is active is shown; one that is not is not found.
pub proof fn law_pairs_are_projected(
    pair: String,
    found: Option<PairProjection>,
    r: ClientResponse,
)
    requires
        call_ensures(project_reconciliation_pair_reply, (pair, found), r),
    ensures
        found is Some ==> ({
            &&& r is ReconciliationPairProjection
            &&& r->reconciliation_pair
            &&& r->ReconciliationPairProjection_pair == found->Some_0.pair_id
            &&& r->generation == found->Some_0.generation
            &&& r->applied_state == found->Some_0.applied_state
        }),
        found is None ==> refuses(
            r,
            ErrorClass::NotFound,
            "project_reconciliation_pair: no active pair with id "@ + pair@,
            "reconciliation_pair_not_found"@,
        ),
{
}

/// A pair is reconciled, or the failure is reported; nothing to dispatch to means
/// that the pair is not there.
pub proof fn law_reconciling_is_answered(
    pair: String,
    outcome: Result<(), StewardFailure>,
    r: ClientResponse,
    class: ErrorClass,
    text: Seq<char>,
    details: Option<serde_json::Value>,
)
    requires
        call_ensures(reconcile_pair_now_reply, (pair, outcome), r),
        outcome is Err ==> tells(outcome->Err_0, class, text, details),
    ensures
        outcome is Ok ==> r is ReconcileNow && r->reconcile_now && r->ReconcileNow_pair == pair,
        outcome is Err && outcome->Err_0 is Dispatch ==> refuses(
            r,
            class,
            "reconcile_pair_now: "@ + text,
            "reconciliation_pair_not_found"@,
        ),
        outcome is Err && !(outcome->Err_0 is Dispatch) ==> refuses(
            r,
            class,
            "reconcile_pair_now: "@ + text,
            "reconciliation_now_failed"@,
        ),
{
}

/// The open prompts are listed with their plugins, in their order.
pub proof fn law_prompts_are_listed(open: Vec<OpenPrompt>, r: ClientResponse)
    requires
        call_ensures(list_user_interactions_reply, (open,), r),
    ensures
        r is UserInteractions,
        r->user_interactions,
        r->prompts@.len() == open@.len(),
        forall|i: int|
            0 <= i < open@.len() ==> (#[trigger] r->prompts@[i]).plugin == open@[i].plugin
                && r->prompts@[i].prompt == open@[i].request,
{
}

/// An answer and a cancellation are confirmed where the prompt was open, and not
/// found where it was not.
pub proof fn law_only_open_prompts_end(
    plugin: String,
    prompt_id: String,
    was_open: bool,
    ra: ClientResponse,
    rc: ClientResponse,
)
    requires
        call_ensures(answer_user_interaction_reply, (plugin, prompt_id, was_open), ra),
        call_ensures(cancel_user_interaction_reply, (plugin, prompt_id, was_open), rc),
    ensures
        was_open ==> ({
            &&& ra is UserInteractionAnswered
            &&& ra->answered
            &&& ra->UserInteractionAnswered_plugin == plugin
            &&& ra->UserInteractionAnswered_prompt_id == prompt_id
            &&& rc is UserInteractionCancelled
            &&& rc->UserInteractionCancelled_cancelled
            &&& rc->UserInteractionCancelled_plugin == plugin
            &&& rc->UserInteractionCancelled_prompt_id == prompt_id
        }),
        !was_open ==> refuses(
            ra,
            ErrorClass::NotFound,
            "answer_user_interaction"@ + ": no open prompt with plugin="@ + plugin@
                + " prompt_id="@ + prompt_id@,
            "prompt_not_found"@,
        ) && refuses(
            rc,
            ErrorClass::NotFound,
            "cancel_user_interaction"@ + ": no open prompt with plugin="@ + plugin@
                + " prompt_id="@ + prompt_id@,
            "prompt_not_found"@,
        ),
{
}

/// The wire form of an appointment: one that has fired is terminal, one that was
/// cancelled says so, and neither has a next fire; any other is pending.
pub open spec fn appointment_shown(w: AppointmentEntryWire, e: AppointmentEntry) -> bool {
    &&& w.creator == e.creator
    &&& w.spec == e.spec
    &&& w.action == e.action
    &&& w.fires_completed as int == e.fires_completed as int
    &&& w.last_fired_ms == e.last_fired_at_ms
    &&& e.state == AppointmentState::Fired ==> w.state@ == "terminal"@ && w.next_fire_ms is None
    &&& e.state == AppointmentState::Cancelled ==> w.state@ == "cancelled"@
        && w.next_fire_ms is None
    &&& e.state != AppointmentState::Fired && e.state != AppointmentState::Cancelled
        ==> w.state@ == "pending"@ && w.next_fire_ms == e.next_fire_ms
}

/// The wire form of a watch names its state and leaves the rest as it is.
pub open spec fn watch_shown(w: WatchEntryWire, e: WatchEntry) -> bool {
    &&& w.creator == e.creator
    &&& w.spec == e.spec
    &&& w.action == e.action
    &&& w.fires_completed as int == e.fires_completed as int
    &&& w.last_fired_ms == e.last_fired_at_ms
    &&& e.state == WatchState::Pending ==> w.state@ == "pending"@
    &&& e.state == WatchState::Matched ==> w.state@ == "matched"@
    &&& e.state == WatchState::Fired ==> w.state@ == "fired"@
    &&& e.state == WatchState::Cancelled ==> w.state@ == "cancelled"@
}

/// Appointments are shown as the runtime holds them, alone and in a list; one that
/// is not there is shown as absent.
pub proof fn law_appointments_are_shown(
    entry: AppointmentEntry,
    shown: AppointmentEntryWire,
    entries: Vec<AppointmentEntry>,
    listed: ClientResponse,
    creator: String,
    appointment_id: String,
    found: Option<AppointmentEntry>,
    projected: ClientResponse,
)
    requires
        call_ensures(project_appointment_entry, (entry,), shown),
        call_ensures(list_appointments_reply, (entries,), listed),
        call_ensures(project_appointment_reply, (creator, appointment_id, found), projected),
    ensures
        appointment_shown(shown, entry),
        listed is Appointments,
        listed->appointments,
        listed->Appointments_entries@.len() == entries@.len(),
        forall|i: int|
            0 <= i < entries@.len() ==> appointment_shown(
                #[trigger] listed->Appointments_entries@[i],
                entries@[i],
            ),
        projected is AppointmentProjection,
        projected->appointment_projection,
        projected->AppointmentProjection_creator == creator,
        projected->AppointmentProjection_appointment_id == appointment_id,
        projected->AppointmentProjection_entry is Some <==> found is Some,
        found is Some ==> appointment_shown(
            projected->AppointmentProjection_entry->Some_0,
            found->Some_0,
        ),
{
}

/// Watches are shown as the runtime holds them, alone and in a list; one that is
/// not there is shown as absent.
pub proof fn law_watches_are_shown(
    entry: WatchEntry,
    shown: WatchEntryWire,
    entries: Vec<WatchEntry>,
    listed: ClientResponse,
    creator: String,
    watch_id: String,
    found: Option<WatchEntry>,
    projected: ClientResponse,
)
    requires
        call_ensures(project_watch_entry, (entry,), shown),
        call_ensures(list_watches_reply, (entries,), listed),
        call_ensures(project_watch_reply, (creator, watch_id, found), projected),
    ensures
        watch_shown(shown, entry),
        listed is Watches,
        listed->watches,
        listed->Watches_entries@.len() == entries@.len(),
        forall|i: int|
            0 <= i < entries@.len() ==> watch_shown(
                #[trigger] listed->Watches_entries@[i],
                entries@[i],
            ),
        projected is WatchProjection,
        projected->watch_projection,
        projected->WatchProjection_creator == creator,
        projected->WatchProjection_watch_id == watch_id,
        projected->WatchProjection_entry is Some <==> found is Some,
        found is Some ==> watch_shown(projected->WatchProjection_entry->Some_0, found->Some_0),
{
}

/// A new appointment is confirmed with its next fire; a recurrence that makes no
/// sense is the caller's fault, and want of room is not.
pub proof fn law_new_appointments_are_confirmed(
    creator: String,
    appointment_id: String,
    outcome: Result<Option<u64>, AppointmentRuntimeError>,
    r: ClientResponse,
)
    requires
        call_ensures(create_appointment_reply, (creator, appointment_id, outcome), r),
    ensures
        outcome is Ok ==> ({
            &&& r is AppointmentCreated
            &&& r->appointment_created
            &&& r->AppointmentCreated_creator == creator
            &&& r->AppointmentCreated_appointment_id == appointment_id
            &&& r->next_fire_ms == outcome->Ok_0
        }),
        outcome is Err && outcome->Err_0 is Recurrence ==> refuses(
            r,
            ErrorClass::ContractViolation,
            "create_appointment: "@ + outcome->Err_0->Recurrence_0@,
            "bad_recurrence"@,
        ),
        outcome is Err && outcome->Err_0 is Schedule ==> refuses(
            r,
            ErrorClass::ResourceExhausted,
            "create_appointment: "@ + outcome->Err_0->Schedule_0@,
            "quota_exceeded"@,
        ),
{
}

/// A new watch is confirmed; a specification that makes no sense is the caller's
/// fault, and want of room is not.
pub proof fn law_new_watches_are_confirmed(
    creator: String,
    watch_id: String,
    outcome: Result<(), WatchScheduleError>,
    r: ClientResponse,
)
    requires
        call_ensures(create_watch_reply, (creator, watch_id, outcome), r),
    ensures
        outcome is Ok ==> ({
            &&& r is WatchCreated
            &&& r->watch_created
            &&& r->WatchCreated_creator == creator
            &&& r->WatchCreated_watch_id == watch_id
        }),
        outcome is Err && outcome->Err_0 is QuotaExceeded ==> refuses(
            r,
            ErrorClass::ResourceExhausted,
            "create_watch: watch quota exceeded"@,
            "quota_exceeded"@,
        ),
        outcome is Err && outcome->Err_0 is Invalid ==> refuses(
            r,
            ErrorClass::ContractViolation,
            "create_watch: "@ + outcome->Err_0->Invalid_0@,
            "bad_spec"@,
        ),
{
}

/// A cancellation says what it was about and whether there was anything to cancel.
pub proof fn law_cancellations_are_answered(
    creator: String,
    id: String,
    cancelled: bool,
    ra: ClientResponse,
    rw: ClientResponse,
)
    requires
        call_ensures(cancel_appointment_reply, (creator, id, cancelled), ra),
        call_ensures(cancel_watch_reply, (creator, id, cancelled), rw),
    ensures
        ra is AppointmentCancelled,
        ra->appointment_cancelled,
        ra->AppointmentCancelled_creator == creator,
        ra->AppointmentCancelled_appointment_id == id,
        ra->AppointmentCancelled_cancelled == cancelled,
        rw is WatchCancelled,
        rw->watch_cancelled,
        rw->WatchCancelled_creator == creator,
        rw->WatchCancelled_watch_id == id,
        rw->WatchCancelled_cancelled == cancelled,
{
}

}
