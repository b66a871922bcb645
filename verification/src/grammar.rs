//! The answers of the subject grammar operations.

use crate::catalogue::Catalogue;
use crate::errors::{is_error, refusal, ErrorClass};
use crate::happenings::Happening;
use crate::listings::subject_cursor_key;
use crate::paging::{ordered, parts_lt, sort_rows, PageRow};
use crate::requests::{MigrationStrategy, MigrationStrategyWire};
use crate::responses::{ClientResponse, GrammarOrphanWire, TargetTypeBreakdownWire};
use crate::text::{concat2, concat3, contains_text, debug_text, has_text};
use crate::text::{lemma_lex_irreflexive, quoted, text_before};
use std::time::SystemTime;
use vstd::prelude::*;
use vstd::string::*;
use vstd::utf8::*;

verus! {

/// Where an orphaned subject type stands.
#[derive(Debug, Clone, Copy, PartialEq, Eq, Structural)]
pub enum GrammarOrphanStatus {
    Pending,
    Migrating,
    Resolved,
    Accepted,
    Recovered,
}

impl GrammarOrphanStatus {
    /// The status on the wire.
    pub open spec fn text(self) -> Seq<char> {
        match self {
            GrammarOrphanStatus::Pending => "pending"@,
            GrammarOrphanStatus::Migrating => "migrating"@,
            GrammarOrphanStatus::Resolved => "resolved"@,
            GrammarOrphanStatus::Accepted => "accepted"@,
            GrammarOrphanStatus::Recovered => "recovered"@,
        }
    }

    /// The status on the wire.
    pub fn as_str(self) -> (r: &'static str)
        ensures
            r@ == self.text(),
    {
        match self {
            GrammarOrphanStatus::Pending => "pending",
            GrammarOrphanStatus::Migrating => "migrating",
            GrammarOrphanStatus::Resolved => "resolved",
            GrammarOrphanStatus::Accepted => "accepted",
            GrammarOrphanStatus::Recovered => "recovered",
        }
    }
}

/// An orphaned subject type as it is stored.
#[derive(Debug)]
pub struct PersistedGrammarOrphan {
    pub subject_type: String,
    pub first_observed_at_ms: u64,
    pub last_observed_at_ms: u64,
    pub count: u64,
    pub status: GrammarOrphanStatus,
    pub accepted_reason: Option<String>,
    pub accepted_at_ms: Option<u64>,
    pub migration_id: Option<String>,
}

impl PageRow for PersistedGrammarOrphan {
    open spec fn parts(&self) -> Seq<Seq<char>> {
        seq![self.subject_type@]
    }

    fn comes_before(&self, other: &Self) -> (r: bool) {
        proof {
            reveal_with_fuel(parts_lt, 2);
            lemma_lex_irreflexive(encode_utf8(self.subject_type@));
        }
        text_before(self.subject_type.as_str(), other.subject_type.as_str())
    }

    fn cursor_key(&self) -> (r: String) {
        subject_cursor_key(self.subject_type.as_str())
    }
}

/// The wire form of an orphaned type.
pub open spec fn shows_orphan(w: GrammarOrphanWire, row: PersistedGrammarOrphan) -> bool {
    &&& w.subject_type == row.subject_type
    &&& w.first_observed_at_ms == row.first_observed_at_ms
    &&& w.last_observed_at_ms == row.last_observed_at_ms
    &&& w.count == row.count
    &&& w.status@ == row.status.text()
    &&& w.accepted_reason == row.accepted_reason
    &&& w.accepted_at_ms == row.accepted_at_ms
    &&& w.migration_id == row.migration_id
}

fn copy_text(t: &Option<String>) -> (r: Option<String>)
    ensures
        r == *t,
{
    match t {
        Some(s) => Some(s.clone()),
        None => None,
    }
}

/// Converts an orphaned type.
pub fn project_grammar_orphan(row: &PersistedGrammarOrphan) -> (r: GrammarOrphanWire)
    ensures
        shows_orphan(r, *row),
{
    GrammarOrphanWire {
        subject_type: row.subject_type.clone(),
        first_observed_at_ms: row.first_observed_at_ms,
        last_observed_at_ms: row.last_observed_at_ms,
        count: row.count,
        status: row.status.as_str(),
        accepted_reason: copy_text(&row.accepted_reason),
        accepted_at_ms: row.accepted_at_ms,
        migration_id: copy_text(&row.migration_id),
    }
}

/// How the store fails.
#[derive(Debug)]
pub enum PersistenceFailure {
    /// The store refuses the call; the text says why.
    Invalid(String),
    /// Anything else, as text.
    Other(String),
}

/// The text after the operation's name that reports a failure of the store.
pub open spec fn persistence_text(op: Seq<char>, text: Seq<char>) -> Seq<char> {
    op + ": persistence: "@ + text
}

/// The answer of `list_grammar_orphans`: the stored rows, ordered by type. A
/// failure of the store comes as text.
pub fn list_grammar_orphans_reply(outcome: Result<Vec<PersistedGrammarOrphan>, String>) -> (r:
    ClientResponse)
    ensures
        match outcome {
            Ok(rows) => {
                &&& r matches ClientResponse::GrammarOrphans { grammar_orphans, entries }
                &&& grammar_orphans
                &&& entries@.len() == rows@.len()
                &&& ordered(rows@).len() == rows@.len()
                &&& forall|i: int|
                    0 <= i < rows@.len() ==> shows_orphan(
                        #[trigger] entries@[i],
                        ordered(rows@)[i],
                    )
            },
            Err(why) => r matches ClientResponse::Error { error } && is_error(
                error,
                ErrorClass::Internal,
                persistence_text("list_grammar_orphans"@, why@),
                "persistence_error"@,
            ),
        },
{
    match outcome {
        Ok(rows) => {
            let sorted = sort_rows(&rows);
            let mut entries: Vec<GrammarOrphanWire> = Vec::new();
            let mut i: usize = 0;
            while i < sorted.len()
                invariant
                    i <= sorted.len(),
                    entries@.len() == i,
                    forall|j: int|
                        0 <= j < i ==> shows_orphan(#[trigger] entries@[j], *sorted@[j]),
                decreases sorted.len() - i,
            {
                entries.push(project_grammar_orphan(sorted[i]));
                i += 1;
            }
            ClientResponse::GrammarOrphans { grammar_orphans: true, entries }
        },
        Err(why) => {
            let message = concat3("list_grammar_orphans", ": persistence: ", why.as_str());
            ClientResponse::Error {
                error: refusal(ErrorClass::Internal, message.as_str(), "persistence_error"),
            }
        },
    }
}

/// The answer of `accept_grammar_orphans`, with the happening to emit: there is
/// one if and only if the type was not accepted before. The store refuses an
/// unknown type and one that is being migrated, and its text tells them apart.
pub fn accept_grammar_orphans_reply(
    from_type: String,
    reason: String,
    now: SystemTime,
    outcome: Result<bool, PersistenceFailure>,
) -> (r: (ClientResponse, Option<Happening>))
    ensures
        match outcome {
            Ok(changed) => {
                &&& r.0 == (ClientResponse::GrammarOrphansAccepted {
                    grammar_orphans_accepted: true,
                    from_type,
                    accepted: changed,
                })
                &&& r.1 == (if changed {
                    Some(
                        Happening::GrammarOrphansAccepted {
                            subject_type: from_type,
                            reason,
                            at: now,
                        },
                    )
                } else {
                    None
                })
            },
            Err(PersistenceFailure::Invalid(why)) => {
                let in_flight = contains_text(why@, "in-flight migration"@);
                &&& r.0 matches ClientResponse::Error { error }
                &&& is_error(
                    error,
                    if in_flight {
                        ErrorClass::ContractViolation
                    } else {
                        ErrorClass::NotFound
                    },
                    "accept_grammar_orphans: "@ + why@,
                    if in_flight {
                        "migration_in_flight"@
                    } else {
                        "not_found"@
                    },
                )
                &&& r.1 is None
            },
            Err(PersistenceFailure::Other(why)) => {
                &&& r.0 matches ClientResponse::Error { error }
                &&& is_error(
                    error,
                    ErrorClass::Internal,
                    persistence_text("accept_grammar_orphans"@, why@),
                    "persistence_error"@,
                )
                &&& r.1 is None
            },
        },
{
    match outcome {
        Ok(changed) => {
            let happening = if changed {
                Some(
                    Happening::GrammarOrphansAccepted {
                        subject_type: from_type.clone(),
                        reason,
                        at: now,
                    },
                )
            } else {
                None
            };
            let response = ClientResponse::GrammarOrphansAccepted {
                grammar_orphans_accepted: true,
                from_type,
                accepted: changed,
            };
            (response, happening)
        },
        Err(PersistenceFailure::Invalid(why)) => {
            let message = concat2("accept_grammar_orphans: ", why.as_str());
            let error = if has_text(why.as_str(), "in-flight migration") {
                refusal(
                    ErrorClass::ContractViolation,
                    message.as_str(),
                    "migration_in_flight",
                )
            } else {
                refusal(ErrorClass::NotFound, message.as_str(), "not_found")
            };
            (ClientResponse::Error { error }, None)
        },
        Err(PersistenceFailure::Other(why)) => {
            let message = concat3("accept_grammar_orphans", ": persistence: ", why.as_str());
            let error = refusal(ErrorClass::Internal, message.as_str(), "persistence_error");
            (ClientResponse::Error { error }, None)
        },
    }
}

/// A migration as the runtime takes it.
#[derive(Debug)]
pub struct MigrateRequest {
    pub from_type: String,
    pub strategy: MigrationStrategy,
    pub dry_run: bool,
    pub reason: Option<String>,
    pub batch_size: Option<usize>,
    pub max_subjects: Option<u32>,
}

/// Makes a migration out of the fields of the request.
pub fn migrate_request(
    from_type: String,
    strategy: MigrationStrategyWire,
    dry_run: bool,
    batch_size: Option<u32>,
    max_subjects: Option<u32>,
    reason: Option<String>,
) -> (r: MigrateRequest)
    ensures
        r.from_type == from_type,
        strategy.stands_for(r.strategy),
        r.dry_run == dry_run,
        r.reason == reason,
        match batch_size {
            Some(n) => r.batch_size == Some(n as usize),
            None => r.batch_size is None,
        },
        r.max_subjects == max_subjects,
{
    MigrateRequest {
        from_type,
        strategy: strategy.into_strategy(),
        dry_run,
        reason,
        batch_size: match batch_size {
            Some(n) => Some(n as usize),
            None => None,
        },
        max_subjects,
    }
}

/// The subject types that a catalogue declares.
pub fn declared_types(catalogue: &Catalogue) -> (r: Vec<String>)
    ensures
        r@.len() == catalogue.subjects@.len(),
        forall|i: int| 0 <= i < r@.len() ==> #[trigger] r@[i] == catalogue.subjects@[i].name,
{
    let mut out: Vec<String> = Vec::new();
    let mut i: usize = 0;
    while i < catalogue.subjects.len()
        invariant
            i <= catalogue.subjects.len(),
            out@.len() == i,
            forall|j: int| 0 <= j < i ==> #[trigger] out@[j] == catalogue.subjects@[j].name,
        decreases catalogue.subjects.len() - i,
    {
        out.push(catalogue.subjects[i].name.clone());
        i += 1;
    }
    out
}

/// What a migration did, or would do.
#[derive(Debug)]
pub struct MigrateOutcome {
    pub migration_id: String,
    pub from_type: String,
    pub migrated_count: u64,
    pub unmigrated_count: u64,
    pub unmigrated_sample: Vec<String>,
    pub duration_ms: u64,
    pub dry_run: bool,
    /// Pairs of a type and a count.
    pub target_type_breakdown: Vec<(String, u64)>,
    pub sample_first: Vec<String>,
    pub sample_last: Vec<String>,
}

/// Why a migration is refused.
#[derive(Debug)]
pub enum MigrateError {
    NotAnOrphan { from_type: String },
    UndeclaredTargetType { to_type: String },
    StrategyNotYetImplemented { strategy: String },
    Persistence(String),
}

impl MigrateError {
    /// The class of the error that reports the refusal.
    pub open spec fn class(self) -> ErrorClass {
        match self {
            MigrateError::NotAnOrphan { .. } => ErrorClass::ContractViolation,
            MigrateError::UndeclaredTargetType { .. } => ErrorClass::ContractViolation,
            MigrateError::StrategyNotYetImplemented { .. } => ErrorClass::Unavailable,
            MigrateError::Persistence(_) => ErrorClass::Internal,
        }
    }

    /// The message of the error that reports the refusal.
    pub open spec fn message(self) -> Seq<char> {
        match self {
            MigrateError::NotAnOrphan { from_type } => "migrate_grammar_orphans: "@ + debug_text(
                from_type@,
            ) + " is not an orphan in this catalogue"@,
            MigrateError::UndeclaredTargetType { to_type } => {
                "migrate_grammar_orphans: target type "@ + debug_text(to_type@)
                    + " is not declared in the loaded catalogue"@
            },
            MigrateError::StrategyNotYetImplemented { strategy } => {
                "migrate_grammar_orphans: strategy "@ + debug_text(strategy@)
                    + " is wire-stable but its runtime evaluator is not yet implemented in this build"@
            },
            MigrateError::Persistence(text) => persistence_text(
                "migrate_grammar_orphans"@,
                text@,
            ),
        }
    }

    /// The subclass of the error that reports the refusal.
    pub open spec fn subclass(self) -> Seq<char> {
        match self {
            MigrateError::NotAnOrphan { .. } => "not_an_orphan"@,
            MigrateError::UndeclaredTargetType { .. } => "undeclared_target_type"@,
            MigrateError::StrategyNotYetImplemented { .. } => "strategy_not_yet_implemented"@,
            MigrateError::Persistence(_) => "persistence_error"@,
        }
    }
}

/// The answer of `migrate_grammar_orphans`.
pub fn migrate_grammar_orphans_reply(outcome: Result<MigrateOutcome, MigrateError>) -> (r:
    ClientResponse)
    ensures
        match outcome {
            Ok(o) => {
                &&& r matches ClientResponse::GrammarMigrationCompleted {
                    grammar_migration,
                    migration_id,
                    from_type,
                    migrated_count,
                    unmigrated_count,
                    unmigrated_sample,
                    duration_ms,
                    dry_run,
                    target_type_breakdown,
                    sample_first,
                    sample_last,
                }
                &&& grammar_migration
                &&& migration_id == o.migration_id
                &&& from_type == o.from_type
                &&& migrated_count == o.migrated_count
                &&& unmigrated_count == o.unmigrated_count
                &&& unmigrated_sample == o.unmigrated_sample
                &&& duration_ms == o.duration_ms
                &&& dry_run == o.dry_run
                &&& target_type_breakdown@ == o.target_type_breakdown@.map_values(
                    |p: (String, u64)| TargetTypeBreakdownWire { to_type: p.0, count: p.1 },
                )
                &&& sample_first == o.sample_first
                &&& sample_last == o.sample_last
            },
            Err(e) => r matches ClientResponse::Error { error } && is_error(
                error,
                e.class(),
                e.message(),
                e.subclass(),
            ),
        },
{
    match outcome {
        Ok(o) => {
            let ghost all = o.target_type_breakdown@;
            let mut breakdown: Vec<TargetTypeBreakdownWire> = Vec::new();
            for p in it: o.target_type_breakdown
                invariant
                    it.seq() == all,
                    breakdown@.len() == it.index(),
                    forall|i: int|
                        0 <= i < breakdown@.len() ==> #[trigger] breakdown@[i] == (
                        TargetTypeBreakdownWire { to_type: all[i].0, count: all[i].1 }),
            {
                assert(p == all[it.index() as int]);
                breakdown.push(TargetTypeBreakdownWire { to_type: p.0, count: p.1 });
            }
            assert(breakdown@ =~= all.map_values(
                |p: (String, u64)| TargetTypeBreakdownWire { to_type: p.0, count: p.1 },
            ));
            ClientResponse::GrammarMigrationCompleted {
                grammar_migration: true,
                migration_id: o.migration_id,
                from_type: o.from_type,
                migrated_count: o.migrated_count,
                unmigrated_count: o.unmigrated_count,
                unmigrated_sample: o.unmigrated_sample,
                duration_ms: o.duration_ms,
                dry_run: o.dry_run,
                target_type_breakdown: breakdown,
                sample_first: o.sample_first,
                sample_last: o.sample_last,
            }
        },
        Err(MigrateError::NotAnOrphan { from_type }) => {
            let name = quoted(from_type.as_str());
            let message = concat3(
                "migrate_grammar_orphans: ",
                name.as_str(),
                " is not an orphan in this catalogue",
            );
            ClientResponse::Error {
                error: refusal(ErrorClass::ContractViolation, message.as_str(), "not_an_orphan"),
            }
        },
        Err(MigrateError::UndeclaredTargetType { to_type }) => {
            let name = quoted(to_type.as_str());
            let message = concat3(
                "migrate_grammar_orphans: target type ",
                name.as_str(),
                " is not declared in the loaded catalogue",
            );
            ClientResponse::Error {
                error: refusal(
                    ErrorClass::ContractViolation,
                    message.as_str(),
                    "undeclared_target_type",
                ),
            }
        },
        Err(MigrateError::StrategyNotYetImplemented { strategy }) => {
            let name = quoted(strategy.as_str());
            let message = concat3(
                "migrate_grammar_orphans: strategy ",
                name.as_str(),
                " is wire-stable but its runtime evaluator is not yet implemented in this build",
            );
            ClientResponse::Error {
                error: refusal(
                    ErrorClass::Unavailable,
                    message.as_str(),
                    "strategy_not_yet_implemented",
                ),
            }
        },
        Err(MigrateError::Persistence(text)) => {
            let message = concat3("migrate_grammar_orphans", ": persistence: ", text.as_str());
            ClientResponse::Error {
                error: refusal(ErrorClass::Internal, message.as_str(), "persistence_error"),
            }
        },
    }
}

}
