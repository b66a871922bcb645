//! The names of the operations: they mirror the requests one for one.

use crate::requests::{law_every_op_is_supported, supported, ClientRequest};
use vstd::prelude::*;

verus! {

/// Two requests ask for the same operation, whatever its arguments.
pub open spec fn same_operation(a: ClientRequest, b: ClientRequest) -> bool {
    match (a, b) {
        (ClientRequest::Request { .. }, ClientRequest::Request { .. }) => true,
        (ClientRequest::ProjectSubject { .. }, ClientRequest::ProjectSubject { .. }) => true,
        (ClientRequest::ProjectRack { .. }, ClientRequest::ProjectRack { .. }) => true,
        (ClientRequest::ListPlugins, ClientRequest::ListPlugins) => true,
        (ClientRequest::DescribeAlias { .. }, ClientRequest::DescribeAlias { .. }) => true,
        (ClientRequest::ListActiveCustodies, ClientRequest::ListActiveCustodies) => true,
        (ClientRequest::ListSubjects { .. }, ClientRequest::ListSubjects { .. }) => true,
        (ClientRequest::ListRelations { .. }, ClientRequest::ListRelations { .. }) => true,
        (
            ClientRequest::EnumerateAddressings { .. },
            ClientRequest::EnumerateAddressings { .. },
        ) => true,
        (
            ClientRequest::SubscribeHappenings { .. },
            ClientRequest::SubscribeHappenings { .. },
        ) => true,
        (ClientRequest::SubscribeSubject { .. }, ClientRequest::SubscribeSubject { .. }) => true,
        (ClientRequest::DescribeCapabilities, ClientRequest::DescribeCapabilities) => true,
        (ClientRequest::Negotiate { .. }, ClientRequest::Negotiate { .. }) => true,
        (ClientRequest::ResolveClaimants { .. }, ClientRequest::ResolveClaimants { .. }) => true,
        (ClientRequest::EnablePlugin { .. }, ClientRequest::EnablePlugin { .. }) => true,
        (ClientRequest::DisablePlugin { .. }, ClientRequest::DisablePlugin { .. }) => true,
        (ClientRequest::UninstallPlugin { .. }, ClientRequest::UninstallPlugin { .. }) => true,
        (ClientRequest::PurgePluginState { .. }, ClientRequest::PurgePluginState { .. }) => true,
        (ClientRequest::ReloadCatalogue { .. }, ClientRequest::ReloadCatalogue { .. }) => true,
        (ClientRequest::ReloadManifest { .. }, ClientRequest::ReloadManifest { .. }) => true,
        (ClientRequest::ReloadPlugin { .. }, ClientRequest::ReloadPlugin { .. }) => true,
        (ClientRequest::TakeCustody { .. }, ClientRequest::TakeCustody { .. }) => true,
        (ClientRequest::CourseCorrect { .. }, ClientRequest::CourseCorrect { .. }) => true,
        (ClientRequest::ReleaseCustody { .. }, ClientRequest::ReleaseCustody { .. }) => true,
        (ClientRequest::ListReconciliationPairs, ClientRequest::ListReconciliationPairs) => true,
        (
            ClientRequest::ProjectReconciliationPair { .. },
            ClientRequest::ProjectReconciliationPair { .. },
        ) => true,
        (ClientRequest::ReconcilePairNow { .. }, ClientRequest::ReconcilePairNow { .. }) => true,
        (ClientRequest::ListUserInteractions, ClientRequest::ListUserInteractions) => true,
        (
            ClientRequest::AnswerUserInteraction { .. },
            ClientRequest::AnswerUserInteraction { .. },
        ) => true,
        (
            ClientRequest::CancelUserInteraction { .. },
            ClientRequest::CancelUserInteraction { .. },
        ) => true,
        (ClientRequest::CreateAppointment { .. }, ClientRequest::CreateAppointment { .. }) => true,
        (ClientRequest::CancelAppointment { .. }, ClientRequest::CancelAppointment { .. }) => true,
        (ClientRequest::ListAppointments, ClientRequest::ListAppointments) => true,
        (
            ClientRequest::ProjectAppointment { .. },
            ClientRequest::ProjectAppointment { .. },
        ) => true,
        (ClientRequest::CreateWatch { .. }, ClientRequest::CreateWatch { .. }) => true,
        (ClientRequest::CancelWatch { .. }, ClientRequest::CancelWatch { .. }) => true,
        (ClientRequest::ListWatches, ClientRequest::ListWatches) => true,
        (ClientRequest::ProjectWatch { .. }, ClientRequest::ProjectWatch { .. }) => true,
        (ClientRequest::ListGrammarOrphans, ClientRequest::ListGrammarOrphans) => true,
        (
            ClientRequest::AcceptGrammarOrphans { .. },
            ClientRequest::AcceptGrammarOrphans { .. },
        ) => true,
        (
            ClientRequest::MigrateGrammarOrphans { .. },
            ClientRequest::MigrateGrammarOrphans { .. },
        ) => true,
        _ => false,
    }
}

/// The place of an operation's name among those that are advertised.
spec fn place(req: ClientRequest) -> int {
    match req {
        ClientRequest::Request { .. } => 0,
        ClientRequest::ProjectSubject { .. } => 1,
        ClientRequest::ProjectRack { .. } => 2,
        ClientRequest::ListPlugins => 3,
        ClientRequest::DescribeAlias { .. } => 4,
        ClientRequest::ListActiveCustodies => 5,
        ClientRequest::ListSubjects { .. } => 6,
        ClientRequest::ListRelations { .. } => 7,
        ClientRequest::EnumerateAddressings { .. } => 8,
        ClientRequest::SubscribeHappenings { .. } => 9,
        ClientRequest::SubscribeSubject { .. } => 10,
        ClientRequest::DescribeCapabilities => 11,
        ClientRequest::Negotiate { .. } => 12,
        ClientRequest::ResolveClaimants { .. } => 13,
        ClientRequest::EnablePlugin { .. } => 14,
        ClientRequest::DisablePlugin { .. } => 15,
        ClientRequest::UninstallPlugin { .. } => 16,
        ClientRequest::PurgePluginState { .. } => 17,
        ClientRequest::ReloadCatalogue { .. } => 18,
        ClientRequest::ReloadManifest { .. } => 19,
        ClientRequest::ReloadPlugin { .. } => 20,
        ClientRequest::TakeCustody { .. } => 21,
        ClientRequest::CourseCorrect { .. } => 22,
        ClientRequest::ReleaseCustody { .. } => 23,
        ClientRequest::ListReconciliationPairs => 24,
        ClientRequest::ProjectReconciliationPair { .. } => 25,
        ClientRequest::ReconcilePairNow { .. } => 26,
        ClientRequest::ListUserInteractions => 27,
        ClientRequest::AnswerUserInteraction { .. } => 28,
        ClientRequest::CancelUserInteraction { .. } => 29,
        ClientRequest::CreateAppointment { .. } => 30,
        ClientRequest::CancelAppointment { .. } => 31,
        ClientRequest::ListAppointments => 32,
        ClientRequest::ProjectAppointment { .. } => 33,
        ClientRequest::CreateWatch { .. } => 34,
        ClientRequest::CancelWatch { .. } => 35,
        ClientRequest::ListWatches => 36,
        ClientRequest::ProjectWatch { .. } => 37,
        ClientRequest::ListGrammarOrphans => 38,
        ClientRequest::AcceptGrammarOrphans { .. } => 39,
        ClientRequest::MigrateGrammarOrphans { .. } => 40,
    }
}

/// Some request for the operation whose name has this place.
spec fn request_at(i: int) -> ClientRequest {
    if i == 0 {
        ClientRequest::Request {
            shelf: arbitrary(),
            request_type: arbitrary(),
            payload_b64: arbitrary(),
            instance_id: arbitrary(),
        }
    } else if i == 1 {
        ClientRequest::ProjectSubject {
            canonical_id: arbitrary(),
            scope: arbitrary(),
            follow_aliases: arbitrary(),
        }
    } else if i == 2 {
        ClientRequest::ProjectRack { rack: arbitrary() }
    } else if i == 3 {
        ClientRequest::ListPlugins
    } else if i == 4 {
        ClientRequest::DescribeAlias { subject_id: arbitrary(), include_chain: arbitrary() }
    } else if i == 5 {
        ClientRequest::ListActiveCustodies
    } else if i == 6 {
        ClientRequest::ListSubjects { cursor: arbitrary(), page_size: arbitrary() }
    } else if i == 7 {
        ClientRequest::ListRelations { cursor: arbitrary(), page_size: arbitrary() }
    } else if i == 8 {
        ClientRequest::EnumerateAddressings { cursor: arbitrary(), page_size: arbitrary() }
    } else if i == 9 {
        ClientRequest::SubscribeHappenings {
            since: arbitrary(),
            filter: arbitrary(),
            coalesce: arbitrary(),
        }
    } else if i == 10 {
        ClientRequest::SubscribeSubject {
            canonical_id: arbitrary(),
            scope: arbitrary(),
            follow_aliases: arbitrary(),
        }
    } else if i == 11 {
        ClientRequest::DescribeCapabilities
    } else if i == 12 {
        ClientRequest::Negotiate { capabilities: arbitrary() }
    } else if i == 13 {
        ClientRequest::ResolveClaimants { tokens: arbitrary() }
    } else if i == 14 {
        ClientRequest::EnablePlugin { plugin: arbitrary(), reason: arbitrary() }
    } else if i == 15 {
        ClientRequest::DisablePlugin { plugin: arbitrary(), reason: arbitrary() }
    } else if i == 16 {
        ClientRequest::UninstallPlugin {
            plugin: arbitrary(),
            reason: arbitrary(),
            purge_state: arbitrary(),
        }
    } else if i == 17 {
        ClientRequest::PurgePluginState { plugin: arbitrary() }
    } else if i == 18 {
        ClientRequest::ReloadCatalogue { source: arbitrary(), dry_run: arbitrary() }
    } else if i == 19 {
        ClientRequest::ReloadManifest {
            plugin: arbitrary(),
            source: arbitrary(),
            dry_run: arbitrary(),
        }
    } else if i == 20 {
        ClientRequest::ReloadPlugin { plugin: arbitrary() }
    } else if i == 21 {
        ClientRequest::TakeCustody {
            shelf: arbitrary(),
            custody_type: arbitrary(),
            payload_b64: arbitrary(),
        }
    } else if i == 22 {
        ClientRequest::CourseCorrect {
            shelf: arbitrary(),
            handle: arbitrary(),
            correction_type: arbitrary(),
            payload_b64: arbitrary(),
        }
    } else if i == 23 {
        ClientRequest::ReleaseCustody { shelf: arbitrary(), handle: arbitrary() }
    } else if i == 24 {
        ClientRequest::ListReconciliationPairs
    } else if i == 25 {
        ClientRequest::ProjectReconciliationPair { pair: arbitrary() }
    } else if i == 26 {
        ClientRequest::ReconcilePairNow { pair: arbitrary() }
    } else if i == 27 {
        ClientRequest::ListUserInteractions
    } else if i == 28 {
        ClientRequest::AnswerUserInteraction {
            plugin: arbitrary(),
            prompt_id: arbitrary(),
            response: arbitrary(),
            retain_for: arbitrary(),
        }
    } else if i == 29 {
        ClientRequest::CancelUserInteraction { plugin: arbitrary(), prompt_id: arbitrary() }
    } else if i == 30 {
        ClientRequest::CreateAppointment {
            creator: arbitrary(),
            spec: arbitrary(),
            action: arbitrary(),
        }
    } else if i == 31 {
        ClientRequest::CancelAppointment { creator: arbitrary(), appointment_id: arbitrary() }
    } else if i == 32 {
        ClientRequest::ListAppointments
    } else if i == 33 {
        ClientRequest::ProjectAppointment { creator: arbitrary(), appointment_id: arbitrary() }
    } else if i == 34 {
        ClientRequest::CreateWatch { creator: arbitrary(), spec: arbitrary(), action: arbitrary() }
    } else if i == 35 {
        ClientRequest::CancelWatch { creator: arbitrary(), watch_id: arbitrary() }
    } else if i == 36 {
        ClientRequest::ListWatches
    } else if i == 37 {
        ClientRequest::ProjectWatch { creator: arbitrary(), watch_id: arbitrary() }
    } else if i == 38 {
        ClientRequest::ListGrammarOrphans
    } else if i == 39 {
        ClientRequest::AcceptGrammarOrphans { from_type: arbitrary(), reason: arbitrary() }
    } else {
        ClientRequest::MigrateGrammarOrphans {
            from_type: arbitrary(),
            strategy: arbitrary(),
            dry_run: arbitrary(),
            batch_size: arbitrary(),
            max_subjects: arbitrary(),
            reason: arbitrary(),
        }
    }
}

/// The place of a name, told from its length and some of its letters.
spec fn place_by_letters(s: Seq<char>) -> int {
    if s.len() == 7 {
        0
    } else if s.len() == 9 {
        12
    } else if s.len() == 12 {
        if s[2] == 'o' {
            2
        } else if s[2] == 's' {
            if s[5] == 'p' {
                3
            } else {
                36
            }
        } else if s[2] == 'k' {
            21
        } else if s[2] == 'e' {
            34
        } else {
            35
        }
    } else if s.len() == 13 {
        if s[0] == 'l' {
            6
        } else if s[0] == 'e' {
            14
        } else if s[0] == 'r' {
            20
        } else {
            37
        }
    } else if s.len() == 14 {
        if s[3] == 'c' {
            4
        } else if s[3] == 't' {
            7
        } else if s[3] == 'a' {
            15
        } else {
            22
        }
    } else if s.len() == 15 {
        if s[3] == 'j' {
            1
        } else if s[3] == 'o' {
            19
        } else {
            23
        }
    } else if s.len() == 16 {
        if s[0] == 'u' {
            16
        } else {
            18
        }
    } else if s.len() == 17 {
        if s[0] == 's' {
            10
        } else if s[0] == 'r' {
            13
        } else {
            32
        }
    } else if s.len() == 18 {
        if s[1] == 'u' {
            17
        } else if s[1] == 'e' {
            26
        } else if s[1] == 'r' {
            30
        } else {
            31
        }
    } else if s.len() == 19 {
        33
    } else if s.len() == 20 {
        if s[0] == 's' {
            9
        } else {
            38
        }
    } else if s.len() == 21 {
        if s[0] == 'l' {
            5
        } else if s[0] == 'e' {
            8
        } else {
            11
        }
    } else if s.len() == 22 {
        if s[0] == 'l' {
            27
        } else {
            39
        }
    } else if s.len() == 23 {
        if s[0] == 'a' {
            28
        } else if s[0] == 'c' {
            29
        } else {
            40
        }
    } else if s.len() == 25 {
        24
    } else {
        25
    }
}

/// The letters of an advertised name tell its place.
proof fn lemma_letters(i: int)
    requires
        0 <= i < supported().len(),
    ensures
        place_by_letters(supported()[i]) == i,
{
    if i == 0 {
        reveal_strlit("request");
        assert("request"@.len() == 7);
    } else if i == 1 {
        reveal_strlit("project_subject");
        assert("project_subject"@.len() == 15);
        assert("project_subject"@[3] == 'j');
    } else if i == 2 {
        reveal_strlit("project_rack");
        assert("project_rack"@.len() == 12);
        assert("project_rack"@[2] == 'o');
    } else if i == 3 {
        reveal_strlit("list_plugins");
        assert("list_plugins"@.len() == 12);
        assert("list_plugins"@[2] == 's');
        assert("list_plugins"@[5] == 'p');
    } else if i == 4 {
        reveal_strlit("describe_alias");
        assert("describe_alias"@.len() == 14);
        assert("describe_alias"@[3] == 'c');
    } else if i == 5 {
        reveal_strlit("list_active_custodies");
        assert("list_active_custodies"@.len() == 21);
        assert("list_active_custodies"@[0] == 'l');
    } else if i == 6 {
        reveal_strlit("list_subjects");
        assert("list_subjects"@.len() == 13);
        assert("list_subjects"@[0] == 'l');
    } else if i == 7 {
        reveal_strlit("list_relations");
        assert("list_relations"@.len() == 14);
        assert("list_relations"@[3] == 't');
    } else if i == 8 {
        reveal_strlit("enumerate_addressings");
        assert("enumerate_addressings"@.len() == 21);
        assert("enumerate_addressings"@[0] == 'e');
    } else if i == 9 {
        reveal_strlit("subscribe_happenings");
        assert("subscribe_happenings"@.len() == 20);
        assert("subscribe_happenings"@[0] == 's');
    } else if i == 10 {
        reveal_strlit("subscribe_subject");
        assert("subscribe_subject"@.len() == 17);
        assert("subscribe_subject"@[0] == 's');
    } else if i == 11 {
        reveal_strlit("describe_capabilities");
        assert("describe_capabilities"@.len() == 21);
        assert("describe_capabilities"@[0] == 'd');
    } else if i == 12 {
        reveal_strlit("negotiate");
        assert("negotiate"@.len() == 9);
    } else if i == 13 {
        reveal_strlit("resolve_claimants");
        assert("resolve_claimants"@.len() == 17);
        assert("resolve_claimants"@[0] == 'r');
    } else if i == 14 {
        reveal_strlit("enable_plugin");
        assert("enable_plugin"@.len() == 13);
        assert("enable_plugin"@[0] == 'e');
    } else if i == 15 {
        reveal_strlit("disable_plugin");
        assert("disable_plugin"@.len() == 14);
        assert("disable_plugin"@[3] == 'a');
    } else if i == 16 {
        reveal_strlit("uninstall_plugin");
        assert("uninstall_plugin"@.len() == 16);
        assert("uninstall_plugin"@[0] == 'u');
    } else if i == 17 {
        reveal_strlit("purge_plugin_state");
        assert("purge_plugin_state"@.len() == 18);
        assert("purge_plugin_state"@[1] == 'u');
    } else if i == 18 {
        reveal_strlit("reload_catalogue");
        assert("reload_catalogue"@.len() == 16);
        assert("reload_catalogue"@[0] == 'r');
    } else if i == 19 {
        reveal_strlit("reload_manifest");
        assert("reload_manifest"@.len() == 15);
        assert("reload_manifest"@[3] == 'o');
    } else if i == 20 {
        reveal_strlit("reload_plugin");
        assert("reload_plugin"@.len() == 13);
        assert("reload_plugin"@[0] == 'r');
    } else if i == 21 {
        reveal_strlit("take_custody");
        assert("take_custody"@.len() == 12);
        assert("take_custody"@[2] == 'k');
    } else if i == 22 {
        reveal_strlit("course_correct");
        assert("course_correct"@.len() == 14);
        assert("course_correct"@[3] == 'r');
    } else if i == 23 {
        reveal_strlit("release_custody");
        assert("release_custody"@.len() == 15);
        assert("release_custody"@[3] == 'e');
    } else if i == 24 {
        reveal_strlit("list_reconciliation_pairs");
        assert("list_reconciliation_pairs"@.len() == 25);
    } else if i == 25 {
        reveal_strlit("project_reconciliation_pair");
        assert("project_reconciliation_pair"@.len() == 27);
    } else if i == 26 {
        reveal_strlit("reconcile_pair_now");
        assert("reconcile_pair_now"@.len() == 18);
        assert("reconcile_pair_now"@[1] == 'e');
    } else if i == 27 {
        reveal_strlit("list_user_interactions");
        assert("list_user_interactions"@.len() == 22);
        assert("list_user_interactions"@[0] == 'l');
    } else if i == 28 {
        reveal_strlit("answer_user_interaction");
        assert("answer_user_interaction"@.len() == 23);
        assert("answer_user_interaction"@[0] == 'a');
    } else if i == 29 {
        reveal_strlit("cancel_user_interaction");
        assert("cancel_user_interaction"@.len() == 23);
        assert("cancel_user_interaction"@[0] == 'c');
    } else if i == 30 {
        reveal_strlit("create_appointment");
        assert("create_appointment"@.len() == 18);
        assert("create_appointment"@[1] == 'r');
    } else if i == 31 {
        reveal_strlit("cancel_appointment");
        assert("cancel_appointment"@.len() == 18);
        assert("cancel_appointment"@[1] == 'a');
    } else if i == 32 {
        reveal_strlit("list_appointments");
        assert("list_appointments"@.len() == 17);
        assert("list_appointments"@[0] == 'l');
    } else if i == 33 {
        reveal_strlit("project_appointment");
        assert("project_appointment"@.len() == 19);
    } else if i == 34 {
        reveal_strlit("create_watch");
        assert("create_watch"@.len() == 12);
        assert("create_watch"@[2] == 'e');
    } else if i == 35 {
        reveal_strlit("cancel_watch");
        assert("cancel_watch"@.len() == 12);
        assert("cancel_watch"@[2] == 'n');
    } else if i == 36 {
        reveal_strlit("list_watches");
        assert("list_watches"@.len() == 12);
        assert("list_watches"@[2] == 's');
        assert("list_watches"@[5] == 'w');
    } else if i == 37 {
        reveal_strlit("project_watch");
        assert("project_watch"@.len() == 13);
        assert("project_watch"@[0] == 'p');
    } else if i == 38 {
        reveal_strlit("list_grammar_orphans");
        assert("list_grammar_orphans"@.len() == 20);
        assert("list_grammar_orphans"@[0] == 'l');
    } else if i == 39 {
        reveal_strlit("accept_grammar_orphans");
        assert("accept_grammar_orphans"@.len() == 22);
        assert("accept_grammar_orphans"@[0] == 'a');
    } else {
        reveal_strlit("migrate_grammar_orphans");
        assert("migrate_grammar_orphans"@.len() == 23);
        assert("migrate_grammar_orphans"@[0] == 'm');
    }
}

proof fn lemma_place(req: ClientRequest)
    ensures
        0 <= place(req) < supported().len(),
        supported()[place(req)] == req.op(),
{
}

proof fn lemma_same_place(a: ClientRequest, b: ClientRequest)
    requires
        place(a) == place(b),
    ensures
        same_operation(a, b),
{
}

proof fn lemma_request_at(i: int)
    requires
        0 <= i < supported().len(),
    ensures
        place(request_at(i)) == i,
{
}

/// No name is advertised twice, and each is that of an operation which a request
/// can ask for.
pub proof fn law_ops_mirror_the_requests()
    ensures
        supported().no_duplicates(),
        forall|i: int|
            0 <= i < supported().len() ==> exists|req: ClientRequest| #[trigger]
                req.op() == #[trigger] supported()[i],
        forall|req: ClientRequest| supported().contains(#[trigger] req.op()),
{
    let all = supported();
    assert forall|i: int, j: int| 0 <= i < all.len() && 0 <= j < all.len() && i != j implies all[i]
        != all[j] by {
        lemma_letters(i);
        lemma_letters(j);
    }
    assert forall|i: int| 0 <= i < all.len() implies exists|req: ClientRequest| #[trigger]
        req.op() == #[trigger] all[i] by {
        lemma_request_at(i);
        lemma_place(request_at(i));
        assert(request_at(i).op() == all[i]);
    }
    assert forall|req: ClientRequest| all.contains(#[trigger] req.op()) by {
        law_every_op_is_supported(req);
    }
}

/// Two requests have the same name of operation if and only if they ask for the
/// same operation.
pub proof fn law_ops_tell_requests_apart(a: ClientRequest, b: ClientRequest)
    ensures
        (a.op() == b.op()) == same_operation(a, b),
{
    lemma_place(a);
    lemma_place(b);
    if a.op() == b.op() {
        lemma_letters(place(a));
        lemma_letters(place(b));
        lemma_same_place(a, b);
    }
}

}
