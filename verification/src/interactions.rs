//! The answers of the user interaction operations.

use crate::errors::{is_error, refusal, ApiError, ErrorClass};
use crate::responses::{ClientResponse, UserInteractionWire};
use crate::text::concat5;
use serde_json::Value;
use vstd::prelude::*;

verus! {

/// A prompt that waits for an answer.
#[derive(Debug)]
pub struct OpenPrompt {
    pub plugin: String,
    pub request: Value,
}

/// Who cancelled a prompt.
#[derive(Debug, Clone, Copy, PartialEq, Eq, Structural)]
pub enum PromptCanceller {
    Consumer,
    Plugin,
}

/// How a prompt ends.
#[derive(Debug)]
pub enum PromptOutcome {
    Answered { response: Value, retain_for: Option<Value> },
    Cancelled { by: PromptCanceller },
}

/// The answer of `list_user_interactions`.
pub fn list_user_interactions_reply(open: Vec<OpenPrompt>) -> (r: ClientResponse)
    ensures
        r matches ClientResponse::UserInteractions { user_interactions, prompts }
            && user_interactions && prompts@ == open@.map_values(
            |p: OpenPrompt| UserInteractionWire { plugin: p.plugin, prompt: p.request },
        ),
{
    let ghost all = open@;
    let mut prompts: Vec<UserInteractionWire> = Vec::new();
    for p in it: open
        invariant
            it.seq() == all,
            prompts@.len() == it.index(),
            forall|i: int|
                0 <= i < prompts@.len() ==> #[trigger] prompts@[i] == (UserInteractionWire {
                    plugin: all[i].plugin,
                    prompt: all[i].request,
                }),
    {
        assert(p == all[it.index() as int]);
        prompts.push(UserInteractionWire { plugin: p.plugin, prompt: p.request });
    }
    assert(prompts@ =~= all.map_values(
        |p: OpenPrompt| UserInteractionWire { plugin: p.plugin, prompt: p.request },
    ));
    ClientResponse::UserInteractions { user_interactions: true, prompts }
}

/// The refusal of an operation on a prompt that is not open.
pub open spec fn is_no_prompt(
    e: ApiError,
    op: Seq<char>,
    plugin: Seq<char>,
    prompt_id: Seq<char>,
) -> bool {
    is_error(
        e,
        ErrorClass::NotFound,
        op + ": no open prompt with plugin="@ + plugin + " prompt_id="@ + prompt_id,
        "prompt_not_found"@,
    )
}

fn no_prompt(op: &str, plugin: &str, prompt_id: &str) -> (e: ApiError)
    ensures
        is_no_prompt(e, op@, plugin@, prompt_id@),
{
    let message = concat5(op, ": no open prompt with plugin=", plugin, " prompt_id=", prompt_id);
    refusal(ErrorClass::NotFound, message.as_str(), "prompt_not_found")
}

/// The answer of `answer_user_interaction`; `was_open` says whether the ledger
/// took the answer.
pub fn answer_user_interaction_reply(plugin: String, prompt_id: String, was_open: bool) -> (r:
    ClientResponse)
    ensures
        if was_open {
            r == (ClientResponse::UserInteractionAnswered { answered: true, plugin, prompt_id })
        } else {
            r matches ClientResponse::Error { error } && is_no_prompt(
                error,
                "answer_user_interaction"@,
                plugin@,
                prompt_id@,
            )
        },
{
    if was_open {
        ClientResponse::UserInteractionAnswered { answered: true, plugin, prompt_id }
    } else {
        ClientResponse::Error {
            error: no_prompt("answer_user_interaction", plugin.as_str(), prompt_id.as_str()),
        }
    }
}

/// The answer of `cancel_user_interaction`; `was_open` says whether the ledger
/// took the cancellation.
pub fn cancel_user_interaction_reply(plugin: String, prompt_id: String, was_open: bool) -> (r:
    ClientResponse)
    ensures
        if was_open {
            r == (ClientResponse::UserInteractionCancelled { cancelled: true, plugin, prompt_id })
        } else {
            r matches ClientResponse::Error { error } && is_no_prompt(
                error,
                "cancel_user_interaction"@,
                plugin@,
                prompt_id@,
            )
        },
{
    if was_open {
        ClientResponse::UserInteractionCancelled { cancelled: true, plugin, prompt_id }
    } else {
        ClientResponse::Error {
            error: no_prompt("cancel_user_interaction", plugin.as_str(), prompt_id.as_str()),
        }
    }
}

}
