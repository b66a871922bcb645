//! Projecting subjects and following their aliases.

use crate::claimant::{learns, lemma_learns_nothing, ClaimantTokenIssuer};
use crate::errors::{is_error, refusal, ApiError, ErrorClass};
use crate::projections::{projection_claimants, projection_matches};
use crate::projections::{SubjectProjection, SubjectProjectionWire};
use crate::responses::{AliasedFromWire, ClientResponse, SubjectQueryResult, SubjectRecord};
use crate::text::{concat2, concat3};
use serde_json::Value;
use vstd::prelude::*;

verus! {

/// The error for a lookup that failed.
pub open spec fn is_lookup_failure(e: ApiError, call: Seq<char>, why: Seq<char>) -> bool {
    is_error(e, ErrorClass::Internal, call + ": "@ + why, "alias_lookup_failed"@)
}

/// The error for a subject that is not there.
pub open spec fn is_unknown_subject(e: ApiError, id: Seq<char>) -> bool {
    is_error(e, ErrorClass::NotFound, "unknown subject: "@ + id, "unknown_subject"@)
}

/// The error for an answer that this build does not know.
pub open spec fn is_unsupported(e: ApiError) -> bool {
    is_error(
        e,
        ErrorClass::Internal,
        "unsupported SubjectQueryResult variant"@,
        "unsupported_variant"@,
    )
}

fn lookup_failure(call: &str, why: &str) -> (e: ApiError)
    ensures
        is_lookup_failure(e, call@, why@),
{
    let message = concat3(call, ": ", why);
    refusal(ErrorClass::Internal, message.as_str(), "alias_lookup_failed")
}

fn unknown_subject(id: &str) -> (e: ApiError)
    ensures
        is_unknown_subject(e, id@),
{
    let message = concat2("unknown subject: ", id);
    refusal(ErrorClass::NotFound, message.as_str(), "unknown_subject")
}

fn unsupported() -> (e: ApiError)
    ensures
        is_unsupported(e),
{
    refusal(
        ErrorClass::Internal,
        "unsupported SubjectQueryResult variant",
        "unsupported_variant",
    )
}

/// The id of the subject that a chain leads to.
pub open spec fn terminal_id(terminal: Option<SubjectRecord>) -> Option<String> {
    match terminal {
        Some(t) => Some(t.id),
        None => None,
    }
}

/// What is left to do for `project_subject` once the id has been looked up.
#[derive(Debug)]
pub enum ProjectionPlan {
    /// Nothing: this is the answer.
    Reply(ClientResponse),
    /// Project the subject; the alias records are those that led to it.
    Project { id: String, aliased_from: Option<AliasedFromWire> },
}

/// Decides what `project_subject` projects. A live subject is projected as it
/// is; an alias is followed if the request permits and the chain has a
/// terminal; else the answer shows the chain alone.
pub fn plan_projection(
    canonical_id: String,
    follow_aliases: bool,
    lookup: Result<SubjectQueryResult, String>,
) -> (r: ProjectionPlan)
    ensures
        match lookup {
            Err(why) => r matches ProjectionPlan::Reply(ClientResponse::Error { error })
                && is_lookup_failure(error, "describe_subject_with_aliases"@, why@),
            Ok(SubjectQueryResult::Found { .. }) => r == (ProjectionPlan::Project {
                id: canonical_id,
                aliased_from: None,
            }),
            Ok(SubjectQueryResult::Aliased { chain, terminal }) => {
                let aliased_from = AliasedFromWire {
                    queried_id: canonical_id,
                    chain,
                    terminal_id: terminal_id(terminal),
                };
                if follow_aliases && terminal is Some {
                    r == (ProjectionPlan::Project {
                        id: terminal->0.id,
                        aliased_from: Some(aliased_from),
                    })
                } else {
                    r == ProjectionPlan::Reply(
                        ClientResponse::ProjectionAliased { subject: None, aliased_from },
                    )
                }
            },
            Ok(SubjectQueryResult::NotFound) => {
                r matches ProjectionPlan::Reply(ClientResponse::Error { error })
                    && is_unknown_subject(error, canonical_id@)
            },
            Ok(SubjectQueryResult::Unsupported) => {
                r matches ProjectionPlan::Reply(ClientResponse::Error { error })
                    && is_unsupported(error)
            },
        },
{
    match lookup {
        Err(why) => ProjectionPlan::Reply(
            ClientResponse::Error {
                error: lookup_failure("describe_subject_with_aliases", why.as_str()),
            },
        ),
        Ok(SubjectQueryResult::Found { .. }) => ProjectionPlan::Project {
            id: canonical_id,
            aliased_from: None,
        },
        Ok(SubjectQueryResult::Aliased { chain, terminal }) => match terminal {
            Some(t) => {
                if follow_aliases {
                    ProjectionPlan::Project {
                        id: t.id.clone(),
                        aliased_from: Some(
                            AliasedFromWire {
                                queried_id: canonical_id,
                                chain,
                                terminal_id: Some(t.id),
                            },
                        ),
                    }
                } else {
                    ProjectionPlan::Reply(
                        ClientResponse::ProjectionAliased {
                            subject: None,
                            aliased_from: AliasedFromWire {
                                queried_id: canonical_id,
                                chain,
                                terminal_id: Some(t.id),
                            },
                        },
                    )
                }
            },
            None => ProjectionPlan::Reply(
                ClientResponse::ProjectionAliased {
                    subject: None,
                    aliased_from: AliasedFromWire {
                        queried_id: canonical_id,
                        chain,
                        terminal_id: None,
                    },
                },
            ),
        },
        Ok(SubjectQueryResult::NotFound) => ProjectionPlan::Reply(
            ClientResponse::Error { error: unknown_subject(canonical_id.as_str()) },
        ),
        Ok(SubjectQueryResult::Unsupported) => ProjectionPlan::Reply(
            ClientResponse::Error { error: unsupported() },
        ),
    }
}

/// The answer of `project_subject` once the subject has been projected; a
/// subject that is not there comes as its id.
pub fn project_subject_reply(
    aliased_from: Option<AliasedFromWire>,
    projected: Result<SubjectProjection, String>,
    issuer: &mut ClaimantTokenIssuer,
) -> (r: ClientResponse)
    ensures
        match (aliased_from, projected) {
            (None, Ok(p)) => r matches ClientResponse::Projection(w) && projection_matches(
                p,
                w,
                old(issuer).instance_id@,
            ),
            (None, Err(id)) => r matches ClientResponse::Error { error } && is_unknown_subject(
                error,
                id@,
            ),
            (Some(from), Ok(p)) => {
                &&& r matches ClientResponse::ProjectionAliased { subject: Some(w), aliased_from: f }
                &&& projection_matches(p, *w, old(issuer).instance_id@)
                &&& f == from
            },
            (Some(_), Err(id)) => r matches ClientResponse::Error { error } && is_error(
                error,
                ErrorClass::Internal,
                "alias terminal vanished during projection: "@ + id@,
                "alias_terminal_missing"@,
            ),
        },
        final(issuer).instance_id == old(issuer).instance_id,
        learns(
            *old(issuer),
            *final(issuer),
            match projected {
                Ok(p) => projection_claimants(p),
                Err(_) => Set::empty(),
            },
        ),
{
    proof {
        lemma_learns_nothing(*issuer);
    }
    match (aliased_from, projected) {
        (None, Ok(p)) => ClientResponse::Projection(
            SubjectProjectionWire::from_projection(p, issuer),
        ),
        (None, Err(id)) => ClientResponse::Error { error: unknown_subject(id.as_str()) },
        (Some(from), Ok(p)) => ClientResponse::ProjectionAliased {
            subject: Some(Box::new(SubjectProjectionWire::from_projection(p, issuer))),
            aliased_from: from,
        },
        (Some(_), Err(id)) => {
            let message = concat2("alias terminal vanished during projection: ", id.as_str());
            ClientResponse::Error {
                error: refusal(
                    ErrorClass::Internal,
                    message.as_str(),
                    "alias_terminal_missing",
                ),
            }
        },
    }
}

/// The answer of `describe_alias` with the full chain.
pub fn describe_chain_reply(
    subject_id: String,
    lookup: Result<SubjectQueryResult, String>,
) -> (r: ClientResponse)
    ensures
        match lookup {
            Ok(result) => r == (ClientResponse::DescribeAliasResponse {
                ok: true,
                subject_id,
                result,
            }),
            Err(why) => r matches ClientResponse::Error { error } && is_lookup_failure(
                error,
                "describe_subject_with_aliases"@,
                why@,
            ),
        },
{
    match lookup {
        Ok(result) => ClientResponse::DescribeAliasResponse { ok: true, subject_id, result },
        Err(why) => ClientResponse::Error {
            error: lookup_failure("describe_subject_with_aliases", why.as_str()),
        },
    }
}

/// What is left to do for `describe_alias` without the chain once the alias
/// record has been looked up.
#[derive(Debug)]
pub enum AliasPlan {
    /// Nothing: this is the answer.
    Reply(ClientResponse),
    /// Look up the subject itself, to tell a live one from an unknown one.
    LookUp { subject_id: String },
}

/// Decides how `describe_alias` without the chain goes on. An alias record is
/// shown alone, without a terminal.
pub fn plan_describe_alias(
    subject_id: String,
    lookup: Result<Option<Value>, String>,
) -> (r: AliasPlan)
    ensures
        match lookup {
            Ok(Some(record)) => {
                &&& r matches AliasPlan::Reply(
                    ClientResponse::DescribeAliasResponse { ok, subject_id: id, result },
                )
                &&& ok
                &&& id == subject_id
                &&& result matches SubjectQueryResult::Aliased { chain, terminal }
                &&& chain@ == seq![record]
                &&& terminal is None
            },
            Ok(None) => r == (AliasPlan::LookUp { subject_id }),
            Err(why) => r matches AliasPlan::Reply(ClientResponse::Error { error })
                && is_lookup_failure(error, "describe_alias"@, why@),
        },
{
    match lookup {
        Ok(Some(record)) => {
            let mut chain: Vec<Value> = Vec::new();
            chain.push(record);
            assert(chain@ =~= seq![record]);
            AliasPlan::Reply(
                ClientResponse::DescribeAliasResponse {
                    ok: true,
                    subject_id,
                    result: SubjectQueryResult::Aliased { chain, terminal: None },
                },
            )
        },
        Ok(None) => AliasPlan::LookUp { subject_id },
        Err(why) => AliasPlan::Reply(
            ClientResponse::Error { error: lookup_failure("describe_alias", why.as_str()) },
        ),
    }
}

/// The answer of `describe_alias` without the chain for an id that has no alias
/// record: a live subject is found, anything else is not.
pub fn describe_hop_reply(
    subject_id: String,
    lookup: Result<SubjectQueryResult, String>,
) -> (r: ClientResponse)
    ensures
        r == (ClientResponse::DescribeAliasResponse {
            ok: true,
            subject_id,
            result: match lookup {
                Ok(SubjectQueryResult::Found { record }) => SubjectQueryResult::Found { record },
                _ => SubjectQueryResult::NotFound,
            },
        }),
{
    let result = match lookup {
        Ok(SubjectQueryResult::Found { record }) => SubjectQueryResult::Found { record },
        _ => SubjectQueryResult::NotFound,
    };
    ClientResponse::DescribeAliasResponse { ok: true, subject_id, result }
}

/// The id that a subject subscription binds to: the id itself if it is live,
/// else the terminal of its alias chain if the request permits and there is
/// one.
pub fn bind_subject(
    canonical_id: String,
    follow_aliases: bool,
    lookup: Result<SubjectQueryResult, String>,
) -> (r: Result<String, ApiError>)
    ensures
        match lookup {
            Ok(SubjectQueryResult::Found { .. }) => r == Ok::<String, ApiError>(canonical_id),
            Ok(SubjectQueryResult::Aliased { terminal, .. }) => if !follow_aliases {
                r matches Err(e) && is_error(
                    e,
                    ErrorClass::NotFound,
                    "subject "@ + canonical_id@
                        + " is an alias; pass follow_aliases = true to bind to the terminal id"@,
                    "alias_chain_unresolved"@,
                )
            } else {
                match terminal {
                    Some(t) => r == Ok::<String, ApiError>(t.id),
                    None => r matches Err(e) && is_error(
                        e,
                        ErrorClass::NotFound,
                        "subject "@ + canonical_id@
                            + " aliased through a forked chain; cannot bind subscription"@,
                        "alias_chain_forked"@,
                    ),
                }
            },
            Ok(SubjectQueryResult::NotFound) => r matches Err(e) && is_unknown_subject(
                e,
                canonical_id@,
            ),
            Ok(SubjectQueryResult::Unsupported) => r matches Err(e) && is_unsupported(e),
            Err(why) => r matches Err(e) && is_lookup_failure(
                e,
                "describe_subject_with_aliases"@,
                why@,
            ),
        },
{
    match lookup {
        Ok(SubjectQueryResult::Found { .. }) => Ok(canonical_id),
        Ok(SubjectQueryResult::Aliased { terminal, .. }) => {
            if !follow_aliases {
                let message = concat3(
                    "subject ",
                    canonical_id.as_str(),
                    " is an alias; pass follow_aliases = true to bind to the terminal id",
                );
                return Err(
                    refusal(ErrorClass::NotFound, message.as_str(), "alias_chain_unresolved"),
                );
            }
            match terminal {
                Some(t) => Ok(t.id),
                None => {
                    let message = concat3(
                        "subject ",
                        canonical_id.as_str(),
                        " aliased through a forked chain; cannot bind subscription",
                    );
                    Err(refusal(ErrorClass::NotFound, message.as_str(), "alias_chain_forked"))
                },
            }
        },
        Ok(SubjectQueryResult::NotFound) => Err(unknown_subject(canonical_id.as_str())),
        Ok(SubjectQueryResult::Unsupported) => Err(unsupported()),
        Err(why) => Err(lookup_failure("describe_subject_with_aliases", why.as_str())),
    }
}

}
