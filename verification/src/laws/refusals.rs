//! What a refusal says: its class, its message, and the subclass in its details.

use crate::errors::{ApiError, ErrorClass};
use crate::json::{object_value, text_value};
use crate::responses::ClientResponse;
use vstd::prelude::*;

verus! {

/// The error has this class and message, and its details hold the subclass alone.
pub open spec fn says(
    e: ApiError,
    class: ErrorClass,
    message: Seq<char>,
    subclass: Seq<char>,
) -> bool {
    &&& e.class == class
    &&& e.message@ == message
    &&& e.details == Some(object_value(map!["subclass"@ => text_value(subclass)]))
}

/// The error has this class and message, and no details.
pub open spec fn says_only(e: ApiError, class: ErrorClass, message: Seq<char>) -> bool {
    e.class == class && e.message@ == message && e.details is None
}

/// The response is an error that says so.
pub open spec fn refuses(
    r: ClientResponse,
    class: ErrorClass,
    message: Seq<char>,
    subclass: Seq<char>,
) -> bool {
    r matches ClientResponse::Error { error } && says(error, class, message, subclass)
}

}
