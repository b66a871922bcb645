//! The structured errors that consumers see.

use crate::json::{object1, object_value, text_of_value, text_value};
use crate::text::{concat3, contains_text, has_text, same_text};
use serde_json::Value;
use vstd::prelude::*;
use vstd::string::*;

verus! {

/// What a consumer can do about an error.
#[derive(Debug, Clone, Copy, PartialEq, Eq, Structural)]
pub enum ErrorClass {
    Transient,
    Unavailable,
    ResourceExhausted,
    ContractViolation,
    NotFound,
    PermissionDenied,
    ProtocolViolation,
    DeadlineExceeded,
    Internal,
}

impl ErrorClass {
    /// The name of the class on the wire.
    pub open spec fn text(self) -> Seq<char> {
        match self {
            ErrorClass::Transient => "transient"@,
            ErrorClass::Unavailable => "unavailable"@,
            ErrorClass::ResourceExhausted => "resource_exhausted"@,
            ErrorClass::ContractViolation => "contract_violation"@,
            ErrorClass::NotFound => "not_found"@,
            ErrorClass::PermissionDenied => "permission_denied"@,
            ErrorClass::ProtocolViolation => "protocol_violation"@,
            ErrorClass::DeadlineExceeded => "deadline_exceeded"@,
            ErrorClass::Internal => "internal"@,
        }
    }

    /// The name of the class on the wire.
    pub fn as_str(self) -> (r: &'static str)
        ensures
            r@ == self.text(),
    {
        match self {
            ErrorClass::Transient => "transient",
            ErrorClass::Unavailable => "unavailable",
            ErrorClass::ResourceExhausted => "resource_exhausted",
            ErrorClass::ContractViolation => "contract_violation",
            ErrorClass::NotFound => "not_found",
            ErrorClass::PermissionDenied => "permission_denied",
            ErrorClass::ProtocolViolation => "protocol_violation",
            ErrorClass::DeadlineExceeded => "deadline_exceeded",
            ErrorClass::Internal => "internal",
        }
    }
}

/// An error as consumers see it.
#[derive(Debug)]
pub struct ApiError {
    pub class: ErrorClass,
    pub message: String,
    pub details: Option<Value>,
}

/// The details that name a subclass.
pub open spec fn subclass_details(subclass: Seq<char>) -> Value {
    object_value(map!["subclass"@ => text_value(subclass)])
}

/// An error of this class with this message and this subclass.
pub open spec fn is_error(
    e: ApiError,
    class: ErrorClass,
    message: Seq<char>,
    subclass: Seq<char>,
) -> bool {
    e.class == class && e.message@ == message && e.details == Some(subclass_details(subclass))
}

impl ApiError {
    /// An error without details.
    pub fn new(class: ErrorClass, message: &str) -> (r: ApiError)
        ensures
            r.class == class,
            r.message@ == message@,
            r.details is None,
    {
        ApiError { class, message: message.to_owned(), details: None }
    }

    /// The error with details that name a subclass.
    pub fn with_subclass(self, subclass: &str) -> (r: ApiError)
        ensures
            r.class == self.class,
            r.message == self.message,
            r.details == Some(subclass_details(subclass@)),
    {
        ApiError {
            class: self.class,
            message: self.message,
            details: Some(object1("subclass", text_of_value(subclass))),
        }
    }

    /// The error with these details.
    pub fn with_details(self, details: Value) -> (r: ApiError)
        ensures
            r == (ApiError { class: self.class, message: self.message, details: Some(details) }),
    {
        ApiError { class: self.class, message: self.message, details: Some(details) }
    }
}

/// Makes an error of this class, message and subclass.
pub fn refusal(class: ErrorClass, message: &str, subclass: &str) -> (r: ApiError)
    ensures
        is_error(r, class, message@, subclass@),
{
    ApiError::new(class, message).with_subclass(subclass)
}

/// How the steward's own operations fail: the kinds that the control plane
/// tells apart. `text` is the failure as the operation reports it, `details` what
/// it adds for consumers to act on, such as a subclass.
#[derive(Debug)]
pub enum StewardFailure {
    /// The admission engine refused; `message` is its own message.
    Admission { class: ErrorClass, message: String, text: String, details: Option<Value> },
    /// Nothing was there to dispatch to.
    Dispatch { class: ErrorClass, text: String, details: Option<Value> },
    /// Anything else.
    Other { class: ErrorClass, text: String, details: Option<Value> },
}

impl StewardFailure {
    /// The class under which the failure is reported.
    pub open spec fn spec_class(self) -> ErrorClass {
        match self {
            StewardFailure::Admission { class, .. } => class,
            StewardFailure::Dispatch { class, .. } => class,
            StewardFailure::Other { class, .. } => class,
        }
    }

    /// The failure as text.
    pub open spec fn spec_text(self) -> Seq<char> {
        match self {
            StewardFailure::Admission { text, .. } => text@,
            StewardFailure::Dispatch { text, .. } => text@,
            StewardFailure::Other { text, .. } => text@,
        }
    }

    /// What the failure adds for consumers to act on.
    pub open spec fn spec_details(self) -> Option<Value> {
        match self {
            StewardFailure::Admission { details, .. } => details,
            StewardFailure::Dispatch { details, .. } => details,
            StewardFailure::Other { details, .. } => details,
        }
    }

    /// The class under which the failure is reported.
    pub fn classify(&self) -> (r: ErrorClass)
        ensures
            r == self.spec_class(),
    {
        match self {
            StewardFailure::Admission { class, .. } => *class,
            StewardFailure::Dispatch { class, .. } => *class,
            StewardFailure::Other { class, .. } => *class,
        }
    }

    /// The failure as text.
    pub fn as_str(&self) -> (r: &str)
        ensures
            r@ == self.spec_text(),
    {
        match self {
            StewardFailure::Admission { text, .. } => text.as_str(),
            StewardFailure::Dispatch { text, .. } => text.as_str(),
            StewardFailure::Other { text, .. } => text.as_str(),
        }
    }
}

/// The error that reports a failure as it is.
pub open spec fn reports_failure(e: ApiError, failure: StewardFailure) -> bool {
    &&& e.class == failure.spec_class()
    &&& e.message@ == failure.spec_text()
    &&& e.details == failure.spec_details()
}

/// The error that reports a failure as it is.
pub fn failure_error(failure: StewardFailure) -> (r: ApiError)
    ensures
        reports_failure(r, failure),
{
    match failure {
        StewardFailure::Admission { class, text, details, .. } => {
            ApiError { class, message: text, details }
        },
        StewardFailure::Dispatch { class, text, details } => {
            ApiError { class, message: text, details }
        },
        StewardFailure::Other { class, text, details } => {
            ApiError { class, message: text, details }
        },
    }
}

/// A plugin that the distribution declares essential cannot be taken away.
pub open spec fn is_essential(failure: StewardFailure) -> bool {
    failure matches StewardFailure::Admission { message, .. } && contains_text(
        message@,
        "required = true"@,
    )
}

/// The error that reports the failure of a plugin lifecycle operation.
pub open spec fn reports_lifecycle(e: ApiError, op: Seq<char>, failure: StewardFailure) -> bool {
    &&& e.class == (if is_essential(failure) && op == "disable_plugin"@ {
        ErrorClass::PermissionDenied
    } else {
        failure.spec_class()
    })
    &&& e.message@ == op + ": "@ + failure.spec_text()
    &&& e.details == (if is_essential(failure) {
        Some(subclass_details("essential_plugin"@))
    } else {
        None
    })
}

/// The error that reports the failure of a plugin lifecycle operation. A refusal
/// that is due to an essential plugin has a subclass of its own; where the plugin
/// was to be disabled, it is a denied permission.
pub fn lifecycle_error(op: &str, failure: &StewardFailure) -> (r: ApiError)
    ensures
        reports_lifecycle(r, op@, *failure),
{
    let text = concat3(op, ": ", failure.as_str());
    if let StewardFailure::Admission { message, .. } = failure {
        if has_text(message.as_str(), "required = true") {
            let class = if same_text(op, "disable_plugin") {
                ErrorClass::PermissionDenied
            } else {
                failure.classify()
            };
            return refusal(class, text.as_str(), "essential_plugin");
        }
    }
    ApiError::new(failure.classify(), text.as_str())
}

}
