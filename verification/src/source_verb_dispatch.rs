//! Dispatch of source verbs (`play_now`, `stop`, `seek`, ...) to source plugins.
//!
//! A dispatch resolves the plugin that handles the verb, arbitrates
//! active-source custody, sends the request, and leaves an audit entry. The
//! lookups, the claim, the request and the audit entry are performed outside;
//! what to do, in which order, and what the caller is told is decided here, one
//! step at a time: [`DefaultSourceVerbDispatcher::begin`] gives the first
//! action, and [`VerbDispatch::step`] turns what came of an action into the
//! next one.
//!
//! Verbs fall in three groups by their effect on custody:
//!
//! - acquiring, resolved by URI scheme: `PlayNow`, `PlayNowCollection`;
//! - releasing, resolved by the current holder: `Stop`;
//! - retaining, resolved by the current holder: `Pause`, `Resume`, `Seek`,
//!   `Next`, `Previous`.

use crate::json::{
    array_value, number_of_value, number_value, object1, object2, object_value, render, text_array,
    text_of_value, text_value, texts_value, value_fields, value_str, value_text, value_u64,
};
use crate::text::{concat2, concat3, concat5, decimal, decimal_text};
use vstd::prelude::*;
use vstd::string::*;
use vstd::utf8::*;

verus! {

/// The custody record that names the active source.
pub const AUDIO_ACTIVE_SOURCE: &'static str = "audio.active_source";

/// The verb taxonomy.
#[derive(Debug, Clone, Copy, PartialEq, Eq, Structural)]
pub enum SourceVerb {
    PlayNow,
    PlayNowCollection,
    PlayNext,
    Enqueue,
    EnqueueAndStart,
    ReplaceQueue,
    Save,
    Stop,
    Pause,
    Resume,
    Seek,
    Next,
    Previous,
}

impl SourceVerb {
    /// The verb's name on the wire.
    pub open spec fn text(self) -> Seq<char> {
        match self {
            SourceVerb::PlayNow => "play_now"@,
            SourceVerb::PlayNowCollection => "play_now_collection"@,
            SourceVerb::PlayNext => "play_next"@,
            SourceVerb::Enqueue => "enqueue"@,
            SourceVerb::EnqueueAndStart => "enqueue_and_start"@,
            SourceVerb::ReplaceQueue => "replace_queue"@,
            SourceVerb::Save => "save"@,
            SourceVerb::Stop => "stop"@,
            SourceVerb::Pause => "pause"@,
            SourceVerb::Resume => "resume"@,
            SourceVerb::Seek => "seek"@,
            SourceVerb::Next => "next"@,
            SourceVerb::Previous => "previous"@,
        }
    }

    /// The verb's name on the wire.
    pub fn as_str(self) -> (r: &'static str)
        ensures
            r@ == self.text(),
    {
        match self {
            SourceVerb::PlayNow => "play_now",
            SourceVerb::PlayNowCollection => "play_now_collection",
            SourceVerb::PlayNext => "play_next",
            SourceVerb::Enqueue => "enqueue",
            SourceVerb::EnqueueAndStart => "enqueue_and_start",
            SourceVerb::ReplaceQueue => "replace_queue",
            SourceVerb::Save => "save",
            SourceVerb::Stop => "stop",
            SourceVerb::Pause => "pause",
            SourceVerb::Resume => "resume",
            SourceVerb::Seek => "seek",
            SourceVerb::Next => "next",
            SourceVerb::Previous => "previous",
        }
    }

    /// The verb's name in diagnostics.
    pub open spec fn label(self) -> Seq<char> {
        match self {
            SourceVerb::PlayNow => "PlayNow"@,
            SourceVerb::PlayNowCollection => "PlayNowCollection"@,
            SourceVerb::PlayNext => "PlayNext"@,
            SourceVerb::Enqueue => "Enqueue"@,
            SourceVerb::EnqueueAndStart => "EnqueueAndStart"@,
            SourceVerb::ReplaceQueue => "ReplaceQueue"@,
            SourceVerb::Save => "Save"@,
            SourceVerb::Stop => "Stop"@,
            SourceVerb::Pause => "Pause"@,
            SourceVerb::Resume => "Resume"@,
            SourceVerb::Seek => "Seek"@,
            SourceVerb::Next => "Next"@,
            SourceVerb::Previous => "Previous"@,
        }
    }

    fn label_str(self) -> (r: &'static str)
        ensures
            r@ == self.label(),
    {
        match self {
            SourceVerb::PlayNow => "PlayNow",
            SourceVerb::PlayNowCollection => "PlayNowCollection",
            SourceVerb::PlayNext => "PlayNext",
            SourceVerb::Enqueue => "Enqueue",
            SourceVerb::EnqueueAndStart => "EnqueueAndStart",
            SourceVerb::ReplaceQueue => "ReplaceQueue",
            SourceVerb::Save => "Save",
            SourceVerb::Stop => "Stop",
            SourceVerb::Pause => "Pause",
            SourceVerb::Resume => "Resume",
            SourceVerb::Seek => "Seek",
            SourceVerb::Next => "Next",
            SourceVerb::Previous => "Previous",
        }
    }
}

/// Who approved a verb.
#[derive(Debug, Clone, PartialEq, Eq)]
pub enum VerbApprover {
    /// A user, by operator UID.
    User { uid: u32 },
    /// A plan of the listening-plans engine.
    Plan { plan_id: String },
    /// A subsystem, with its reason.
    System { reason: String },
}

impl VerbApprover {
    /// The approver as text: its kind, a colon, and its identification.
    pub open spec fn text(self) -> Seq<char> {
        match self {
            VerbApprover::User { uid } => "user:"@ + decimal(uid as nat),
            VerbApprover::Plan { plan_id } => "plan:"@ + plan_id@,
            VerbApprover::System { reason } => "system:"@ + reason@,
        }
    }

    /// The approver as text.
    pub fn to_text(&self) -> (r: String)
        ensures
            r@ == self.text(),
    {
        match self {
            VerbApprover::User { uid } => {
                let digits = decimal_text(*uid as u64);
                concat2("user:", digits.as_str())
            },
            VerbApprover::Plan { plan_id } => concat2("plan:", plan_id.as_str()),
            VerbApprover::System { reason } => concat2("system:", reason.as_str()),
        }
    }
}

/// The URI of a playable item.
#[derive(Debug, Clone, PartialEq, Eq)]
pub struct ItemUri {
    pub uri: String,
}

impl View for ItemUri {
    type V = Seq<char>;

    open spec fn view(&self) -> Seq<char> {
        self.uri@
    }
}

impl ItemUri {
    /// The item URI with this text.
    pub fn new(uri: &str) -> (r: ItemUri)
        ensures
            r@ == uri@,
    {
        ItemUri { uri: uri.to_owned() }
    }

    /// The URI's text.
    pub fn as_str(&self) -> (r: &str)
        ensures
            r@ == self@,
    {
        self.uri.as_str()
    }
}

/// A verb with its parameters.
#[derive(Debug, Clone)]
pub enum VerbCall {
    /// Replace the queue with one item and start playback.
    PlayNow { uri: ItemUri },
    /// Replace the queue with a collection and start at its first item.
    PlayNowCollection { uris: Vec<ItemUri> },
    /// End playback.
    Stop,
    /// Suspend playback.
    Pause,
    /// Continue playback.
    Resume,
    /// Move to a position of the current item, in milliseconds.
    Seek { position_ms: u64 },
    /// Skip to the next item.
    Next,
    /// Return to the previous item.
    Previous,
}

impl VerbCall {
    /// The verb of this call.
    pub open spec fn spec_verb(self) -> SourceVerb {
        match self {
            VerbCall::PlayNow { .. } => SourceVerb::PlayNow,
            VerbCall::PlayNowCollection { .. } => SourceVerb::PlayNowCollection,
            VerbCall::Stop => SourceVerb::Stop,
            VerbCall::Pause => SourceVerb::Pause,
            VerbCall::Resume => SourceVerb::Resume,
            VerbCall::Seek { .. } => SourceVerb::Seek,
            VerbCall::Next => SourceVerb::Next,
            VerbCall::Previous => SourceVerb::Previous,
        }
    }

    /// The verb of this call.
    pub fn verb(&self) -> (r: SourceVerb)
        ensures
            r == self.spec_verb(),
    {
        match self {
            VerbCall::PlayNow { .. } => SourceVerb::PlayNow,
            VerbCall::PlayNowCollection { .. } => SourceVerb::PlayNowCollection,
            VerbCall::Stop => SourceVerb::Stop,
            VerbCall::Pause => SourceVerb::Pause,
            VerbCall::Resume => SourceVerb::Resume,
            VerbCall::Seek { .. } => SourceVerb::Seek,
            VerbCall::Next => SourceVerb::Next,
            VerbCall::Previous => SourceVerb::Previous,
        }
    }

    /// The verb takes active-source custody for its handler.
    pub open spec fn acquires(self) -> bool {
        self is PlayNow || self is PlayNowCollection
    }

    /// Whether the verb takes active-source custody for its handler.
    pub fn acquires_custody(&self) -> (r: bool)
        ensures
            r == self.acquires(),
    {
        matches!(self, VerbCall::PlayNow { .. } | VerbCall::PlayNowCollection { .. })
    }

    /// Whether the verb gives up active-source custody when it succeeds.
    pub fn releases_custody(&self) -> (r: bool)
        ensures
            r == (self is Stop),
    {
        matches!(self, VerbCall::Stop)
    }

    /// Whether the handler is found by URI scheme, not by current holder.
    pub fn resolves_via_uri(&self) -> (r: bool)
        ensures
            r == (self is PlayNow || self is PlayNowCollection),
    {
        matches!(self, VerbCall::PlayNow { .. } | VerbCall::PlayNowCollection { .. })
    }

    /// The URI by which the handler is found: that of the item, or of the
    /// first item of a collection.
    pub fn primary_uri(&self) -> (r: Option<&ItemUri>)
        requires
            self matches VerbCall::PlayNowCollection { uris } ==> uris@.len() > 0,
        ensures
            r == (match *self {
                VerbCall::PlayNow { uri } => Some(&uri),
                VerbCall::PlayNowCollection { uris } => Some(&uris@[0]),
                _ => None,
            }),
    {
        match self {
            VerbCall::PlayNow { uri } => Some(uri),
            VerbCall::PlayNowCollection { uris } => Some(&uris[0]),
            _ => None,
        }
    }

    /// The number of items that the call names.
    pub open spec fn item_count(self) -> u32 {
        match self {
            VerbCall::PlayNow { .. } => 1,
            VerbCall::PlayNowCollection { uris } => uris@.len() as u32,
            _ => 0,
        }
    }

    fn uri_count(&self) -> (r: u32)
        ensures
            r == self.item_count(),
    {
        match self {
            VerbCall::PlayNow { .. } => 1,
            VerbCall::PlayNowCollection { uris } => uris.len() as u32,
            _ => 0,
        }
    }
}

/// What a successful dispatch reports.
#[derive(Debug, Clone, PartialEq, Eq)]
pub struct DispatchOutcome {
    /// The shelf that the request was dispatched against.
    pub handler_shelf: String,
    /// Whether the dispatch took active-source custody.
    pub acquired_custody: bool,
}

/// Why a dispatch failed.
#[derive(Debug)]
pub enum DispatchError {
    /// The URI has no scheme.
    InvalidUri(String),
    /// No plugin owns the URI's scheme.
    UriSchemeNotRegistered { scheme: String },
    /// A collection without items.
    EmptyCollection,
    /// A collection whose items do not share one scheme.
    CollectionSchemeMismatch { first_scheme: String, other_scheme: String },
    /// The custody record could not be read or written.
    CustodyArbitrationFailed(String),
    /// The router refused the dispatch, or the handler did.
    RouterError(String),
    /// The verb has no call shape.
    UnsupportedVerb(SourceVerb),
    /// The verb needs an active source, and there is none.
    NoActiveSource { verb: SourceVerb },
}

impl DispatchError {
    /// The error as text.
    pub open spec fn text(self) -> Seq<char> {
        match self {
            DispatchError::InvalidUri(uri) => "dispatcher: invalid URI: "@ + uri@,
            DispatchError::UriSchemeNotRegistered { scheme } => "dispatcher: URI scheme "@ + scheme@
                + " not registered"@,
            DispatchError::EmptyCollection =>
                "dispatcher: PlayNowCollection called with empty uris list"@,
            DispatchError::CollectionSchemeMismatch { first_scheme, other_scheme } =>
                "dispatcher: PlayNowCollection items have heterogeneous schemes (first "@
                    + first_scheme@ + ", conflicting "@ + other_scheme@ + ")"@,
            DispatchError::CustodyArbitrationFailed(reason) =>
                "dispatcher: custody arbitration failed: "@ + reason@,
            DispatchError::RouterError(reason) => "dispatcher: router refused dispatch: "@
                + reason@,
            DispatchError::UnsupportedVerb(verb) => "dispatcher: verb "@ + verb.label()
                + " is not supported in this layer"@,
            DispatchError::NoActiveSource { verb } => "dispatcher: "@ + verb.label()
                + " requires an active source but audio.active_source has no current holder"@,
        }
    }

    /// The error as text.
    pub fn to_text(&self) -> (r: String)
        ensures
            r@ == self.text(),
    {
        match self {
            DispatchError::InvalidUri(uri) => concat2("dispatcher: invalid URI: ", uri.as_str()),
            DispatchError::UriSchemeNotRegistered { scheme } => concat3(
                "dispatcher: URI scheme ",
                scheme.as_str(),
                " not registered",
            ),
            DispatchError::EmptyCollection =>
                "dispatcher: PlayNowCollection called with empty uris list".to_owned(),
            DispatchError::CollectionSchemeMismatch { first_scheme, other_scheme } => concat5(
                "dispatcher: PlayNowCollection items have heterogeneous schemes (first ",
                first_scheme.as_str(),
                ", conflicting ",
                other_scheme.as_str(),
                ")",
            ),
            DispatchError::CustodyArbitrationFailed(reason) => concat2(
                "dispatcher: custody arbitration failed: ",
                reason.as_str(),
            ),
            DispatchError::RouterError(reason) => concat2(
                "dispatcher: router refused dispatch: ",
                reason.as_str(),
            ),
            DispatchError::UnsupportedVerb(verb) => concat3(
                "dispatcher: verb ",
                verb.label_str(),
                " is not supported in this layer",
            ),
            DispatchError::NoActiveSource { verb } => concat3(
                "dispatcher: ",
                verb.label_str(),
                " requires an active source but audio.active_source has no current holder",
            ),
        }
    }
}

/// The scheme of a URI: what stands before its first colon, if that is not
/// empty.
pub open spec fn scheme(uri: Seq<char>) -> Option<Seq<char>> {
    if exists|i: int| first_colon(uri, i) {
        let i = choose|i: int| first_colon(uri, i);
        if i > 0 {
            Some(uri.take(i))
        } else {
            None
        }
    } else {
        None
    }
}

/// The first colon of `uri` stands at `i`.
pub open spec fn first_colon(uri: Seq<char>, i: int) -> bool {
    0 <= i < uri.len() && uri[i] == ':' && forall|j: int| 0 <= j < i ==> uri[j] != ':'
}

/// The scheme of a URI.
pub fn scheme_of(uri: &str) -> (r: Result<&str, DispatchError>)
    ensures
        match r {
            Ok(s) => scheme(uri@) == Some(s@),
            Err(e) => scheme(uri@) is None && (e matches DispatchError::InvalidUri(text) && text@
                == uri@),
        },
{
    let chars = crate::text::chars_of(uri);
    let mut i: usize = 0;
    while i < chars.len()
        invariant
            i <= chars.len(),
            chars@ == uri@,
            forall|j: int| 0 <= j < i ==> chars@[j] != ':',
        decreases chars.len() - i,
    {
        if chars[i] == ':' {
            proof {
                assert(first_colon(uri@, i as int));
                let k = choose|k: int| first_colon(uri@, k);
                assert(k == i) by {
                    if k < i {
                        assert(chars@[k] != ':');
                    }
                }
            }
            if i > 0 {
                let head = uri.substring_char(0, i);
                assert(head@ =~= uri@.take(i as int));
                return Ok(head);
            }
            return Err(DispatchError::InvalidUri(uri.to_owned()));
        }
        i += 1;
    }
    proof {
        if exists|k: int| first_colon(uri@, k) {
            let k = choose|k: int| first_colon(uri@, k);
            assert(chars@[k] != ':');
        }
    }
    Err(DispatchError::InvalidUri(uri.to_owned()))
}

/// Every item of a collection has the scheme of the first one.
pub open spec fn one_scheme(uris: Seq<ItemUri>) -> bool {
    uris.len() > 0 && scheme(uris[0]@) is Some && forall|i: int|
        0 <= i < uris.len() ==> scheme((#[trigger] uris[i])@) == scheme(uris[0]@)
}

/// Item `i` of a collection is the first that keeps it from having one scheme.
pub open spec fn breaks_scheme(uris: Seq<ItemUri>, i: int) -> bool {
    &&& 0 <= i < uris.len()
    &&& if i == 0 {
        scheme(uris[0]@) is None
    } else {
        scheme(uris[0]@) is Some && scheme(uris[i]@) != scheme(uris[0]@) && forall|j: int|
            0 <= j < i ==> scheme((#[trigger] uris[j])@) == scheme(uris[0]@)
    }
}

/// What a call is refused with before anything is looked up.
pub open spec fn shape_error(call: VerbCall, e: DispatchError) -> bool {
    match call {
        VerbCall::PlayNowCollection { uris } => {
            if uris@.len() == 0 {
                e is EmptyCollection
            } else {
                exists|i: int| #[trigger]
                    breaks_scheme(uris@, i) && match scheme(uris@[i]@) {
                        None => e matches DispatchError::InvalidUri(text) && text@ == uris@[i]@,
                        Some(other) => e matches DispatchError::CollectionSchemeMismatch {
                            first_scheme,
                            other_scheme,
                        } && Some(first_scheme@) == scheme(uris@[0]@) && other_scheme@ == other,
                    }
            }
        },
        _ => false,
    }
}

/// A call whose shape is accepted: a collection has items, all of one scheme.
pub open spec fn well_shaped(call: VerbCall) -> bool {
    call matches VerbCall::PlayNowCollection { uris } ==> one_scheme(uris@)
}

/// Accepts or refuses a call by its shape.
pub fn check_shape(call: &VerbCall) -> (r: Result<(), DispatchError>)
    ensures
        match r {
            Ok(_) => well_shaped(*call),
            Err(e) => !well_shaped(*call) && shape_error(*call, e),
        },
{
    if let VerbCall::PlayNowCollection { uris } = call {
        if uris.len() == 0 {
            return Err(DispatchError::EmptyCollection);
        }
        let first = match scheme_of(uris[0].as_str()) {
            Ok(s) => s,
            Err(e) => {
                assert(breaks_scheme(uris@, 0));
                return Err(e);
            },
        };
        let mut i: usize = 1;
        while i < uris.len()
            invariant
                1 <= i <= uris.len(),
                *call == (VerbCall::PlayNowCollection { uris: *uris }),
                scheme(uris@[0]@) == Some(first@),
                forall|j: int|
                    0 <= j < i ==> scheme((#[trigger] uris@[j])@) == scheme(uris@[0]@),
            decreases uris.len() - i,
        {
            let other = match scheme_of(uris[i].as_str()) {
                Ok(s) => s,
                Err(e) => {
                    assert(breaks_scheme(uris@, i as int));
                    return Err(e);
                },
            };
            if !crate::text::same_text(other, first) {
                assert(breaks_scheme(uris@, i as int));
                return Err(
                    DispatchError::CollectionSchemeMismatch {
                        first_scheme: first.to_owned(),
                        other_scheme: other.to_owned(),
                    },
                );
            }
            i += 1;
        }
    }
    Ok(())
}

/// The request that a handler receives.
#[derive(Debug)]
pub struct VerbRequest {
    pub request_type: String,
    pub payload: Vec<u8>,
    pub correlation_id: u64,
    pub has_step_up: bool,
}

/// What an audit entry says of the dispatched verb.
#[derive(Debug)]
pub struct VerbDispatchedPayload {
    pub verb: String,
    pub primary_uri: Option<String>,
    pub uri_count: u32,
    pub acquired_custody: bool,
}

/// What an audit entry says of how the dispatch went.
#[derive(Debug)]
pub enum LifecycleOutcome {
    Success,
    Failed { reason: String },
}

/// What the router knows of a handler's manifest.
#[derive(Debug)]
pub struct ManifestFacts {
    /// The plugin's interaction shape is that of a warden.
    pub is_warden: bool,
    /// The plugin answers requests.
    pub is_respondent: bool,
    /// The custody domain that the plugin declares, if it declares any.
    pub custody_domain: Option<String>,
}

/// A handler as the router knows it.
#[derive(Debug)]
pub struct LocatedPlugin {
    pub shelf: String,
    pub manifest: Option<ManifestFacts>,
}

/// What a dispatch asks for next.
#[derive(Debug)]
pub enum DispatchAction {
    /// Look up the plugin that owns the URI's scheme.
    LookupScheme { uri: String },
    /// Look up who holds the active-source custody.
    QueryClaim,
    /// Record the handler's claim on the active-source custody.
    RecordClaim { holder: String, uri: String, params: String },
    /// Look up the handler in the router.
    LookupPlugin { plugin: String },
    /// Take custody on a warden's shelf, so that its request handling finds it.
    TakeCustody { shelf: String, custody_domain: String },
    /// Send the request to the handler.
    HandleRequest { shelf: String, request: VerbRequest },
    /// Give up the active-source custody.
    ReleaseCustody,
    /// Announce that the handler's playback ended.
    EmitPlaybackEnded { source_plugin: String, claim_uri: Option<String> },
    /// Append an audit entry.
    AppendAudit {
        approver: String,
        handler: String,
        payload: VerbDispatchedPayload,
        outcome: LifecycleOutcome,
    },
    /// Report to the caller: the dispatch is over.
    Finish(Result<DispatchOutcome, DispatchError>),
}

/// A claim on the active source, as it is recorded.
#[derive(Debug)]
pub struct SourceClaim {
    /// The plugin that holds the source; none once the claim was released.
    pub holder_plugin: Option<String>,
}

/// The plugin that holds the active source under the latest claim.
pub open spec fn holder_of(claim: Option<SourceClaim>) -> Option<String> {
    match claim {
        Some(c) => c.holder_plugin,
        None => None,
    }
}

/// What came of an action. Failures carry the reason as text.
#[derive(Debug)]
pub enum DispatchEvent {
    /// Of [`DispatchAction::LookupScheme`]: the owning plugin, if any.
    SchemeLookup(Result<Option<String>, String>),
    /// Of [`DispatchAction::QueryClaim`]: the latest claim, if there ever was one.
    CurrentClaim(Result<Option<SourceClaim>, String>),
    /// Of [`DispatchAction::RecordClaim`].
    ClaimRecorded(Result<(), String>),
    /// Of [`DispatchAction::LookupPlugin`].
    Plugin(Option<LocatedPlugin>),
    /// Of [`DispatchAction::TakeCustody`], however it went.
    CustodyTried,
    /// Of [`DispatchAction::HandleRequest`].
    RequestHandled(Result<(), String>),
    /// Of [`DispatchAction::ReleaseCustody`], however it went.
    CustodyReleased,
    /// Of [`DispatchAction::EmitPlaybackEnded`].
    PlaybackEndedEmitted,
    /// Of [`DispatchAction::AppendAudit`], however it went.
    AuditAppended,
}

/// How far a dispatch has come.
#[derive(Debug, Clone, Copy, PartialEq, Eq, Structural)]
pub enum Phase {
    ResolvingScheme,
    ResolvingHolder,
    Claiming,
    Locating,
    Bootstrapping,
    Handling,
    Releasing,
    Announcing,
    Auditing,
    Done,
}

/// One dispatch under way.
#[derive(Debug)]
pub struct VerbDispatch {
    pub approver: VerbApprover,
    pub call: VerbCall,
    /// An audit ledger is wired.
    pub ledger: bool,
    /// A happenings bus is wired.
    pub bus: bool,
    pub phase: Phase,
    /// The resolved handler; empty until it is resolved.
    pub handler: String,
    /// The shelf of the handler; empty until it is located.
    pub shelf: String,
    /// Why the dispatch failed after its handler was resolved.
    pub failure: Option<String>,
}

/// The text of the URI by which a call's handler is found.
pub open spec fn primary_text(call: VerbCall) -> Option<Seq<char>> {
    match call {
        VerbCall::PlayNow { uri } => Some(uri@),
        VerbCall::PlayNowCollection { uris } => Some(uris@[0]@),
        _ => None,
    }
}

/// An optional text by its characters.
pub open spec fn text_of(o: Option<String>) -> Option<Seq<char>> {
    match o {
        Some(s) => Some(s@),
        None => None,
    }
}

/// The parameters that go into the custody record with a claim.
pub open spec fn claim_params(approver: VerbApprover, call: VerbCall) -> Seq<char> {
    value_text(claim_value(approver, call))
}

/// The JSON value of a claim's parameters.
pub open spec fn claim_value(approver: VerbApprover, call: VerbCall) -> serde_json::Value {
    object_value(
        map![
            "verb"@ => text_value(call.spec_verb().text()),
            "approver"@ => text_value(approver.text()),
        ],
    )
}

/// The JSON payload of a call: the verb's parameters, and the version of the
/// payload's shape under `v`.
pub open spec fn payload_value(call: VerbCall) -> serde_json::Value {
    match call {
        VerbCall::PlayNow { uri } => object_value(
            map!["v"@ => number_value(1), "uri"@ => text_value(uri@)],
        ),
        VerbCall::PlayNowCollection { uris } => object_value(
            map![
                "v"@ => number_value(1),
                "uris"@ => text_array(uris@.map_values(|u: ItemUri| u@)),
            ],
        ),
        VerbCall::Seek { position_ms } => object_value(
            map!["v"@ => number_value(1), "position_ms"@ => number_value(position_ms)],
        ),
        _ => object_value(map!["v"@ => number_value(1)]),
    }
}

/// What a handler reads in the payload of a call.
pub open spec fn payload_reads(v: serde_json::Value, call: VerbCall) -> bool {
    &&& value_fields(v) matches Some(fields)
    &&& fields.contains_key("v"@)
    &&& value_u64(fields["v"@]) == Some(1u64)
    &&& match call {
        VerbCall::PlayNow { uri } => {
            &&& fields.contains_key("uri"@)
            &&& value_str(fields["uri"@]) == Some(uri@)
        },
        VerbCall::PlayNowCollection { uris } => {
            &&& fields.contains_key("uris"@)
            &&& exists|items: Seq<serde_json::Value>| #[trigger]
                array_value(items) == fields["uris"@] && reads_uris(items, uris@)
        },
        VerbCall::Seek { position_ms } => {
            &&& fields.contains_key("position_ms"@)
            &&& value_u64(fields["position_ms"@]) == Some(position_ms)
        },
        _ => true,
    }
}

/// The values hold the texts of the URIs, in order.
pub open spec fn reads_uris(items: Seq<serde_json::Value>, uris: Seq<ItemUri>) -> bool {
    items.len() == uris.len() && forall|i: int|
        0 <= i < items.len() ==> value_str(#[trigger] items[i]) == Some(uris[i]@)
}

/// What the custody record says of a claim.
pub open spec fn params_read(
    v: serde_json::Value,
    approver: VerbApprover,
    call: VerbCall,
) -> bool {
    &&& value_fields(v) matches Some(fields)
    &&& fields.contains_key("verb"@)
    &&& value_str(fields["verb"@]) == Some(call.spec_verb().text())
    &&& fields.contains_key("approver"@)
    &&& value_str(fields["approver"@]) == Some(approver.text())
}

/// The request that a call sends to its handler.
pub open spec fn is_request_of(r: VerbRequest, call: VerbCall) -> bool {
    &&& payload_reads(payload_value(call), call)
    &&& r.request_type@ == call.spec_verb().text()
    &&& r.payload@ == encode_utf8(value_text(payload_value(call)))
    &&& r.correlation_id == 0
    &&& !r.has_step_up
}

fn claim_params_text(approver: &VerbApprover, call: &VerbCall) -> (r: String)
    ensures
        r@ == claim_params(*approver, *call),
        params_read(claim_value(*approver, *call), *approver, *call),
{
    let what = text_of_value(call.verb().as_str());
    let who = text_of_value(approver.to_text().as_str());
    proof {
        reveal_strlit("verb");
        reveal_strlit("approver");
        assert("verb"@.len() == 4);
        assert("approver"@.len() == 8);
    }
    render(&object2("verb", what, "approver", who))
}

fn uri_texts(uris: &Vec<ItemUri>) -> (r: Vec<String>)
    ensures
        r@.len() == uris@.len(),
        forall|i: int| 0 <= i < r@.len() ==> (#[trigger] r@[i])@ == uris@[i]@,
        r@.map_values(|s: String| s@) == uris@.map_values(|u: ItemUri| u@),
{
    let mut out: Vec<String> = Vec::new();
    let mut i: usize = 0;
    while i < uris.len()
        invariant
            i <= uris.len(),
            out.len() == i,
            forall|j: int| 0 <= j < i ==> (#[trigger] out@[j])@ == uris@[j]@,
        decreases uris.len() - i,
    {
        out.push(uris[i].uri.clone());
        i += 1;
    }
    assert(out@.map_values(|s: String| s@) =~= uris@.map_values(|u: ItemUri| u@));
    out
}

fn payload_of(call: &VerbCall) -> (r: serde_json::Value)
    ensures
        r == payload_value(*call),
        payload_reads(r, *call),
{
    let version = number_of_value(1);
    proof {
        reveal_strlit("v");
        reveal_strlit("uri");
        reveal_strlit("uris");
        reveal_strlit("position_ms");
        assert("v"@.len() == 1);
        assert("uri"@.len() == 3);
        assert("uris"@.len() == 4);
        assert("position_ms"@.len() == 11);
    }
    match call {
        VerbCall::PlayNow { uri } => object2("v", version, "uri", text_of_value(uri.as_str())),
        VerbCall::PlayNowCollection { uris } => object2(
            "v",
            version,
            "uris",
            texts_value(&uri_texts(uris)),
        ),
        VerbCall::Seek { position_ms } => object2(
            "v",
            version,
            "position_ms",
            number_of_value(*position_ms),
        ),
        _ => object1("v", version),
    }
}

/// The request that a call sends to its handler.
pub fn request_for(call: &VerbCall) -> (r: VerbRequest)
    ensures
        is_request_of(r, *call),
{
    let text = render(&payload_of(call));
    VerbRequest {
        request_type: call.verb().as_str().to_owned(),
        payload: text.as_str().as_bytes_vec(),
        correlation_id: 0,
        has_step_up: false,
    }
}

fn primary_uri_text(call: &VerbCall) -> (r: Option<String>)
    requires
        well_shaped(*call),
    ensures
        text_of(r) == primary_text(*call),
{
    match call.primary_uri() {
        Some(uri) => Some(uri.uri.clone()),
        None => None,
    }
}

/// A handler needs custody on its own shelf before it gets an acquiring verb:
/// it is a warden that also answers requests.
pub open spec fn needs_bootstrap(call: VerbCall, plugin: LocatedPlugin) -> bool {
    call.acquires() && (plugin.manifest matches Some(m) && m.is_warden && m.is_respondent)
}

/// The event that a phase waits for.
pub open spec fn fits(phase: Phase, event: DispatchEvent) -> bool {
    match phase {
        Phase::ResolvingScheme => event is SchemeLookup,
        Phase::ResolvingHolder => event is CurrentClaim,
        Phase::Claiming => event is ClaimRecorded,
        Phase::Locating => event is Plugin,
        Phase::Bootstrapping => event is CustodyTried,
        Phase::Handling => event is RequestHandled,
        Phase::Releasing => event is CustodyReleased,
        Phase::Announcing => event is PlaybackEndedEmitted,
        Phase::Auditing => event is AuditAppended,
        Phase::Done => false,
    }
}

/// The dispatch reports success.
pub open spec fn finishes_ok(d: VerbDispatch, action: DispatchAction) -> bool {
    &&& d.phase == Phase::Done
    &&& action matches DispatchAction::Finish(Ok(outcome)) && outcome.handler_shelf@ == d.shelf@
        && outcome.acquired_custody == d.call.acquires()
}

/// The dispatch reports the router's refusal.
pub open spec fn finishes_refused(
    d: VerbDispatch,
    action: DispatchAction,
    reason: Seq<char>,
) -> bool {
    &&& d.phase == Phase::Done
    &&& action matches DispatchAction::Finish(Err(DispatchError::RouterError(text))) && text@
        == reason
}

/// The dispatch comes to its end: through the audit entry if a ledger is
/// wired, else straight to its report.
pub open spec fn closes(d: VerbDispatch, action: DispatchAction) -> bool {
    if d.ledger {
        &&& d.phase == Phase::Auditing
        &&& action matches DispatchAction::AppendAudit { approver, handler, payload, outcome } && {
            &&& approver@ == d.approver.text()
            &&& handler@ == d.handler@
            &&& payload.verb@ == d.call.spec_verb().text()
            &&& text_of(payload.primary_uri) == primary_text(d.call)
            &&& payload.uri_count == d.call.item_count()
            &&& payload.acquired_custody == d.call.acquires()
            &&& match d.failure {
                None => outcome is Success,
                Some(why) => outcome matches LifecycleOutcome::Failed { reason } && reason@ == why@,
            }
        }
    } else {
        reports(d, action)
    }
}

/// The dispatch reports how it went.
pub open spec fn reports(d: VerbDispatch, action: DispatchAction) -> bool {
    match d.failure {
        None => finishes_ok(d, action),
        Some(why) => finishes_refused(d, action, why@),
    }
}

/// The dispatch asks for the handler's entry in the router.
pub open spec fn locates(d: VerbDispatch, action: DispatchAction) -> bool {
    &&& d.phase == Phase::Locating
    &&& action matches DispatchAction::LookupPlugin { plugin } && plugin@ == d.handler@
}

/// The dispatch sends its request to the handler.
pub open spec fn requests(d: VerbDispatch, action: DispatchAction) -> bool {
    &&& d.phase == Phase::Handling
    &&& action matches DispatchAction::HandleRequest { shelf, request } && shelf@ == d.shelf@
        && is_request_of(request, d.call)
}

/// What is fixed for the whole of a dispatch stays as it was.
pub open spec fn same_dispatch(before: VerbDispatch, after: VerbDispatch) -> bool {
    &&& after.approver == before.approver
    &&& after.call == before.call
    &&& after.ledger == before.ledger
    &&& after.bus == before.bus
}

/// A dispatch that begins with this state and this action.
pub open spec fn began(
    approver: VerbApprover,
    call: VerbCall,
    ledger: bool,
    bus: bool,
    d: VerbDispatch,
    action: DispatchAction,
) -> bool {
    &&& d.approver == approver
    &&& d.call == call
    &&& d.ledger == ledger
    &&& d.bus == bus
    &&& d.failure is None
    &&& if !well_shaped(call) {
        d.phase == Phase::Done && (action matches DispatchAction::Finish(Err(e)) && shape_error(
            call,
            e,
        ))
    } else {
        match primary_text(call) {
            Some(text) => d.phase == Phase::ResolvingScheme && (
            action matches DispatchAction::LookupScheme { uri } && uri@ == text),
            None => d.phase == Phase::ResolvingHolder && action is QueryClaim,
        }
    }
}

/// A dispatch that `event` takes from `before` to `after`, asking for `action`.
pub open spec fn stepped(
    before: VerbDispatch,
    event: DispatchEvent,
    after: VerbDispatch,
    action: DispatchAction,
) -> bool {
    &&& same_dispatch(before, after)
    &&& match event {
        DispatchEvent::SchemeLookup(Err(e)) => {
            &&& after.failure == before.failure
            &&& finishes_refused(after, action, "URI-scheme lookup failed: "@ + e@)
        },
        DispatchEvent::SchemeLookup(Ok(None)) => {
            &&& after.failure == before.failure
            &&& after.phase == Phase::Done
            &&& action matches DispatchAction::Finish(Err(e)) && match scheme(
                primary_text(before.call)->0,
            ) {
                Some(s) => e matches DispatchError::UriSchemeNotRegistered { scheme } && scheme@
                    == s,
                None => e matches DispatchError::InvalidUri(text) && text@ == primary_text(
                    before.call,
                )->0,
            }
        },
        DispatchEvent::SchemeLookup(Ok(Some(plugin))) => {
            &&& after.failure == before.failure
            &&& after.handler@ == plugin@
            &&& after.phase == Phase::Claiming
            &&& params_read(claim_value(before.approver, before.call), before.approver, before.call)
            &&& action matches DispatchAction::RecordClaim { holder, uri, params } && holder@
                == plugin@ && uri@ == primary_text(before.call)->0 && params@ == claim_params(
                before.approver,
                before.call,
            )
        },
        DispatchEvent::CurrentClaim(Err(e)) => {
            &&& after.failure == before.failure
            &&& after.phase == Phase::Done
            &&& action matches DispatchAction::Finish(
                Err(DispatchError::CustodyArbitrationFailed(text)),
            ) && text@ == "current() failed: "@ + e@
        },
        DispatchEvent::CurrentClaim(Ok(claim)) => match holder_of(claim) {
            None => {
                &&& after.failure == before.failure
                &&& after.phase == Phase::Done
                &&& action matches DispatchAction::Finish(
                    Err(DispatchError::NoActiveSource { verb }),
                ) && verb == before.call.spec_verb()
            },
            Some(plugin) => {
                &&& after.failure == before.failure
                &&& after.handler@ == plugin@
                &&& locates(after, action)
            },
        },
        DispatchEvent::ClaimRecorded(Err(e)) => {
            &&& after.failure == before.failure
            &&& after.phase == Phase::Done
            &&& action matches DispatchAction::Finish(
                Err(DispatchError::CustodyArbitrationFailed(text)),
            ) && text@ == e@
        },
        DispatchEvent::ClaimRecorded(Ok(_)) => {
            &&& after.failure == before.failure
            &&& after.handler == before.handler
            &&& locates(after, action)
        },
        DispatchEvent::Plugin(None) => {
            &&& after.handler == before.handler
            &&& after.failure matches Some(why) && why@ == "no plugin on shelf: "@ + before.handler@
            &&& closes(after, action)
        },
        DispatchEvent::Plugin(Some(plugin)) => {
            &&& after.failure == before.failure
            &&& after.handler == before.handler
            &&& after.shelf@ == plugin.shelf@
            &&& if needs_bootstrap(before.call, plugin) {
                &&& after.phase == Phase::Bootstrapping
                &&& action matches DispatchAction::TakeCustody { shelf, custody_domain } && shelf@
                    == plugin.shelf@ && custody_domain@ == (match text_of(
                    plugin.manifest->0.custody_domain,
                ) {
                    Some(domain) => domain,
                    None => Seq::empty(),
                })
            } else {
                requests(after, action)
            }
        },
        DispatchEvent::CustodyTried => {
            &&& after.failure == before.failure
            &&& after.handler == before.handler
            &&& after.shelf == before.shelf
            &&& requests(after, action)
        },
        DispatchEvent::RequestHandled(Err(e)) => {
            &&& after.handler == before.handler
            &&& after.shelf == before.shelf
            &&& after.failure matches Some(why) && why@ == e@
            &&& closes(after, action)
        },
        DispatchEvent::RequestHandled(Ok(_)) => {
            &&& after.handler == before.handler
            &&& after.shelf == before.shelf
            &&& after.failure == before.failure
            &&& if before.call is Stop {
                after.phase == Phase::Releasing && action is ReleaseCustody
            } else {
                closes(after, action)
            }
        },
        DispatchEvent::CustodyReleased => {
            &&& after.handler == before.handler
            &&& after.shelf == before.shelf
            &&& after.failure == before.failure
            &&& if before.bus {
                &&& after.phase == Phase::Announcing
                &&& action matches DispatchAction::EmitPlaybackEnded { source_plugin, claim_uri }
                    && source_plugin@ == before.handler@ && text_of(claim_uri) == primary_text(
                    before.call,
                )
            } else {
                closes(after, action)
            }
        },
        DispatchEvent::PlaybackEndedEmitted => {
            &&& after.handler == before.handler
            &&& after.shelf == before.shelf
            &&& after.failure == before.failure
            &&& closes(after, action)
        },
        DispatchEvent::AuditAppended => {
            &&& after.handler == before.handler
            &&& after.shelf == before.shelf
            &&& after.failure == before.failure
            &&& reports(after, action)
        },
    }
}

impl VerbDispatch {
    /// The dispatch is under way on a call of accepted shape.
    pub open spec fn wf(self) -> bool {
        &&& self.phase != Phase::Done ==> well_shaped(self.call)
        &&& self.phase == Phase::ResolvingScheme || self.phase == Phase::Claiming
            ==> self.call.acquires()
        &&& self.phase == Phase::ResolvingHolder ==> !self.call.acquires()
    }

    fn closing(self) -> (r: (VerbDispatch, DispatchAction))
        requires
            well_shaped(self.call),
        ensures
            same_dispatch(self, r.0),
            r.0.handler == self.handler,
            r.0.shelf == self.shelf,
            r.0.failure == self.failure,
            closes(r.0, r.1),
    {
        if !self.ledger {
            return self.reporting();
        }
        let outcome = match &self.failure {
            None => LifecycleOutcome::Success,
            Some(why) => LifecycleOutcome::Failed { reason: why.clone() },
        };
        let payload = VerbDispatchedPayload {
            verb: self.call.verb().as_str().to_owned(),
            primary_uri: primary_uri_text(&self.call),
            uri_count: self.call.uri_count(),
            acquired_custody: self.call.acquires_custody(),
        };
        let action = DispatchAction::AppendAudit {
            approver: self.approver.to_text(),
            handler: self.handler.clone(),
            payload,
            outcome,
        };
        (VerbDispatch { phase: Phase::Auditing, ..self }, action)
    }

    fn reporting(self) -> (r: (VerbDispatch, DispatchAction))
        ensures
            same_dispatch(self, r.0),
            r.0.handler == self.handler,
            r.0.shelf == self.shelf,
            r.0.failure == self.failure,
            reports(r.0, r.1),
    {
        let report = match &self.failure {
            None => Ok(
                DispatchOutcome {
                    handler_shelf: self.shelf.clone(),
                    acquired_custody: self.call.acquires_custody(),
                },
            ),
            Some(why) => Err(DispatchError::RouterError(why.clone())),
        };
        (VerbDispatch { phase: Phase::Done, ..self }, DispatchAction::Finish(report))
    }

    fn locating(self) -> (r: (VerbDispatch, DispatchAction))
        ensures
            same_dispatch(self, r.0),
            r.0.handler == self.handler,
            r.0.shelf == self.shelf,
            r.0.failure == self.failure,
            locates(r.0, r.1),
    {
        let plugin = self.handler.clone();
        (VerbDispatch { phase: Phase::Locating, ..self }, DispatchAction::LookupPlugin { plugin })
    }

    fn requesting(self) -> (r: (VerbDispatch, DispatchAction))
        ensures
            same_dispatch(self, r.0),
            r.0.handler == self.handler,
            r.0.shelf == self.shelf,
            r.0.failure == self.failure,
            requests(r.0, r.1),
    {
        let shelf = self.shelf.clone();
        let request = request_for(&self.call);
        (
            VerbDispatch { phase: Phase::Handling, ..self },
            DispatchAction::HandleRequest { shelf, request },
        )
    }

    fn refusing(self, e: DispatchError) -> (r: (VerbDispatch, DispatchAction))
        ensures
            r.0 == (VerbDispatch { phase: Phase::Done, ..self }),
            r.1 == DispatchAction::Finish(Err(e)),
    {
        (VerbDispatch { phase: Phase::Done, ..self }, DispatchAction::Finish(Err(e)))
    }

    /// Takes in what came of the last action and says what to do next.
    pub fn step(self, event: DispatchEvent) -> (r: (VerbDispatch, DispatchAction))
        requires
            self.wf(),
            fits(self.phase, event),
        ensures
            r.0.wf(),
            stepped(self, event, r.0, r.1),
    {
        match event {
            DispatchEvent::SchemeLookup(Err(e)) => {
                let text = concat2("URI-scheme lookup failed: ", e.as_str());
                self.refusing(DispatchError::RouterError(text))
            },
            DispatchEvent::SchemeLookup(Ok(None)) => {
                let uri = match primary_uri_text(&self.call) {
                    Some(uri) => uri,
                    None => String::new(),
                };
                let e = match scheme_of(uri.as_str()) {
                    Ok(s) => DispatchError::UriSchemeNotRegistered { scheme: s.to_owned() },
                    Err(e) => e,
                };
                self.refusing(e)
            },
            DispatchEvent::SchemeLookup(Ok(Some(plugin))) => {
                let uri = match primary_uri_text(&self.call) {
                    Some(uri) => uri,
                    None => String::new(),
                };
                let params = claim_params_text(&self.approver, &self.call);
                let holder = plugin.clone();
                (
                    VerbDispatch { phase: Phase::Claiming, handler: plugin, ..self },
                    DispatchAction::RecordClaim { holder, uri, params },
                )
            },
            DispatchEvent::CurrentClaim(Err(e)) => {
                let text = concat2("current() failed: ", e.as_str());
                self.refusing(DispatchError::CustodyArbitrationFailed(text))
            },
            DispatchEvent::CurrentClaim(Ok(claim)) => match claim {
                Some(SourceClaim { holder_plugin: Some(plugin) }) => VerbDispatch {
                    handler: plugin,
                    ..self
                }.locating(),
                _ => {
                    let verb = self.call.verb();
                    self.refusing(DispatchError::NoActiveSource { verb })
                },
            },
            DispatchEvent::ClaimRecorded(Err(e)) => self.refusing(
                DispatchError::CustodyArbitrationFailed(e),
            ),
            DispatchEvent::ClaimRecorded(Ok(_)) => self.locating(),
            DispatchEvent::Plugin(None) => {
                let why = concat2("no plugin on shelf: ", self.handler.as_str());
                VerbDispatch { failure: Some(why), ..self }.closing()
            },
            DispatchEvent::Plugin(Some(plugin)) => {
                let mut domain: Option<String> = None;
                if self.call.acquires_custody() {
                    if let Some(manifest) = plugin.manifest {
                        if manifest.is_warden && manifest.is_respondent {
                            domain = Some(
                                match manifest.custody_domain {
                                    Some(d) => d,
                                    None => String::new(),
                                },
                            );
                        }
                    }
                }
                match domain {
                    Some(custody_domain) => {
                        let shelf = plugin.shelf.clone();
                        (
                            VerbDispatch {
                                phase: Phase::Bootstrapping,
                                shelf: plugin.shelf,
                                ..self
                            },
                            DispatchAction::TakeCustody { shelf, custody_domain },
                        )
                    },
                    None => VerbDispatch { shelf: plugin.shelf, ..self }.requesting(),
                }
            },
            DispatchEvent::CustodyTried => self.requesting(),
            DispatchEvent::RequestHandled(Err(e)) => VerbDispatch {
                failure: Some(e),
                ..self
            }.closing(),
            DispatchEvent::RequestHandled(Ok(_)) => if self.call.releases_custody() {
                (
                    VerbDispatch { phase: Phase::Releasing, ..self },
                    DispatchAction::ReleaseCustody,
                )
            } else {
                self.closing()
            },
            DispatchEvent::CustodyReleased => if self.bus {
                let source_plugin = self.handler.clone();
                let claim_uri = primary_uri_text(&self.call);
                (
                    VerbDispatch { phase: Phase::Announcing, ..self },
                    DispatchAction::EmitPlaybackEnded { source_plugin, claim_uri },
                )
            } else {
                self.closing()
            },
            DispatchEvent::PlaybackEndedEmitted => self.closing(),
            DispatchEvent::AuditAppended => self.reporting(),
        }
    }
}

/// The dispatcher over its collaborators: the plugin router, the URI-scheme
/// registry and the active-source custody, with an optional audit ledger and an
/// optional happenings bus.
pub struct DefaultSourceVerbDispatcher<R, U, A, L, B> {
    pub router: R,
    pub uri_schemes: U,
    pub active_source: A,
    pub ledger: Option<L>,
    pub bus: Option<B>,
}

impl<R, U, A, L, B> DefaultSourceVerbDispatcher<R, U, A, L, B> {
    /// A dispatcher without ledger and bus.
    pub fn new(router: R, uri_schemes: U, active_source: A) -> (r: Self)
        ensures
            r.router == router,
            r.uri_schemes == uri_schemes,
            r.active_source == active_source,
            r.ledger is None,
            r.bus is None,
    {
        DefaultSourceVerbDispatcher {
            router,
            uri_schemes,
            active_source,
            ledger: None,
            bus: None,
        }
    }

    /// The dispatcher with an audit ledger.
    pub fn with_ledger(self, ledger: L) -> (r: Self)
        ensures
            r == (DefaultSourceVerbDispatcher { ledger: Some(ledger), ..self }),
    {
        DefaultSourceVerbDispatcher { ledger: Some(ledger), ..self }
    }

    /// The dispatcher with a happenings bus.
    pub fn with_bus(self, bus: B) -> (r: Self)
        ensures
            r == (DefaultSourceVerbDispatcher { bus: Some(bus), ..self }),
    {
        DefaultSourceVerbDispatcher { bus: Some(bus), ..self }
    }

    /// Begins a dispatch: its state, and what to do first.
    pub fn begin(&self, approver: VerbApprover, call: VerbCall) -> (r: (
        VerbDispatch,
        DispatchAction,
    ))
        ensures
            r.0.wf(),
            began(approver, call, self.ledger is Some, self.bus is Some, r.0, r.1),
    {
        let checked = check_shape(&call);
        let d = VerbDispatch {
            approver,
            call,
            ledger: self.ledger.is_some(),
            bus: self.bus.is_some(),
            phase: Phase::Done,
            handler: String::new(),
            shelf: String::new(),
            failure: None,
        };
        match checked {
            Err(e) => d.refusing(e),
            Ok(_) => match primary_uri_text(&d.call) {
                Some(uri) => (
                    VerbDispatch { phase: Phase::ResolvingScheme, ..d },
                    DispatchAction::LookupScheme { uri },
                ),
                None => (
                    VerbDispatch { phase: Phase::ResolvingHolder, ..d },
                    DispatchAction::QueryClaim,
                ),
            },
        }
    }
}

/// A dispatch from its beginning: the states it went through, the action asked
/// for in each, and what came of every action but the last.
pub struct Run {
    pub approver: VerbApprover,
    pub call: VerbCall,
    pub ledger: bool,
    pub bus: bool,
    pub states: Seq<VerbDispatch>,
    pub actions: Seq<DispatchAction>,
    pub events: Seq<DispatchEvent>,
}

impl Run {
    /// The states and actions are those that [`DefaultSourceVerbDispatcher::begin`]
    /// and [`VerbDispatch::step`] give.
    pub open spec fn valid(self) -> bool {
        &&& self.states.len() == self.events.len() + 1
        &&& self.actions.len() == self.events.len() + 1
        &&& self.states[0].wf()
        &&& began(
            self.approver,
            self.call,
            self.ledger,
            self.bus,
            self.states[0],
            self.actions[0],
        )
        &&& forall|i: int| #![trigger self.events[i]]
            0 <= i < self.events.len() ==> fits(self.states[i].phase, self.events[i]) && stepped(
                self.states[i],
                self.events[i],
                self.states[i + 1],
                self.actions[i + 1],
            )
    }

    /// The handler was resolved by what came of action `i`.
    pub open spec fn resolved_at(self, i: int) -> bool {
        0 <= i < self.events.len() && (self.events[i] matches DispatchEvent::SchemeLookup(
            Ok(Some(_)),
        ) || (self.events[i] matches DispatchEvent::CurrentClaim(Ok(claim)) && holder_of(
            claim,
        ) is Some))
    }

    /// The claim was recorded by action `i`.
    pub open spec fn claimed_at(self, i: int) -> bool {
        0 <= i < self.events.len() && self.actions[i] is RecordClaim && (
        self.events[i] matches DispatchEvent::ClaimRecorded(Ok(_)))
    }

    /// The handler accepted the request that action `i` sent.
    pub open spec fn handled_at(self, i: int) -> bool {
        0 <= i < self.events.len() && self.actions[i] is HandleRequest && (
        self.events[i] matches DispatchEvent::RequestHandled(Ok(_)))
    }
}

/// The position of a phase in the order in which a dispatch goes through them.
pub open spec fn rank(phase: Phase) -> int {
    match phase {
        Phase::ResolvingScheme => 0,
        Phase::ResolvingHolder => 0,
        Phase::Claiming => 1,
        Phase::Locating => 2,
        Phase::Bootstrapping => 3,
        Phase::Handling => 4,
        Phase::Releasing => 5,
        Phase::Announcing => 6,
        Phase::Auditing => 7,
        Phase::Done => 8,
    }
}

/// What is fixed for a dispatch, and which action a phase stands for.
proof fn lemma_run_state(run: Run, i: int)
    requires
        run.valid(),
        0 <= i < run.states.len(),
    ensures
        run.states[i].call == run.call,
        run.states[i].approver == run.approver,
        run.states[i].ledger == run.ledger,
        run.states[i].bus == run.bus,
        match run.states[i].phase {
            Phase::ResolvingScheme => run.actions[i] is LookupScheme && run.call.acquires(),
            Phase::ResolvingHolder => run.actions[i] is QueryClaim && !run.call.acquires(),
            Phase::Claiming => run.actions[i] is RecordClaim && run.call.acquires(),
            Phase::Locating => run.actions[i] is LookupPlugin,
            Phase::Bootstrapping => run.actions[i] is TakeCustody && run.call.acquires(),
            Phase::Handling => run.actions[i] is HandleRequest,
            Phase::Releasing => run.actions[i] is ReleaseCustody && run.call is Stop,
            Phase::Announcing => run.actions[i] is EmitPlaybackEnded && run.call is Stop && run.bus,
            Phase::Auditing => run.actions[i] is AppendAudit && run.ledger,
            Phase::Done => run.actions[i] is Finish,
        },
    decreases i,
{
    if i > 0 {
        lemma_run_state(run, i - 1);
        assert(fits(run.states[i - 1].phase, run.events[i - 1]));
    }
}

/// A dispatch goes through its phases in order, so it ends after at most eight
/// further actions.
pub proof fn law_dispatch_ends(run: Run, i: int)
    requires
        run.valid(),
        0 <= i < run.events.len(),
    ensures
        rank(run.states[i].phase) < rank(run.states[i + 1].phase),
        run.states.len() <= 9,
    decreases run.events.len() - i,
{
    lemma_rank_grows(run, run.events.len() as int);
    lemma_run_state(run, i);
    assert(fits(run.states[i].phase, run.events[i]));
}

proof fn lemma_rank_grows(run: Run, i: int)
    requires
        run.valid(),
        0 <= i < run.states.len(),
    ensures
        rank(run.states[i].phase) >= i,
    decreases i,
{
    if i > 0 {
        lemma_rank_grows(run, i - 1);
        lemma_run_state(run, i - 1);
        assert(fits(run.states[i - 1].phase, run.events[i - 1]));
    }
}

/// The handler of every verb is resolved before it is located, asked or
/// audited; and an acquiring verb's claim is on record by then.
proof fn lemma_resolved_and_claimed(run: Run, i: int)
    requires
        run.valid(),
        0 <= i < run.states.len(),
        1 <= rank(run.states[i].phase) <= 7,
    ensures
        exists|j: int| 0 <= j < i && run.resolved_at(j),
        run.call.acquires() && rank(run.states[i].phase) >= 2 ==> exists|j: int|
            0 <= j < i && run.claimed_at(j),
    decreases i,
{
    if i > 0 {
        lemma_run_state(run, i - 1);
        lemma_run_state(run, i);
        assert(fits(run.states[i - 1].phase, run.events[i - 1]));
        if rank(run.states[i - 1].phase) == 0 {
            assert(run.resolved_at(i - 1));
        } else {
            lemma_resolved_and_claimed(run, i - 1);
            let j = choose|j: int| 0 <= j < i - 1 && run.resolved_at(j);
            assert(0 <= j < i && run.resolved_at(j));
            if run.states[i - 1].phase == Phase::Claiming {
                assert(run.claimed_at(i - 1));
            } else if run.call.acquires() {
                let k = choose|k: int| 0 <= k < i - 1 && run.claimed_at(k);
                assert(0 <= k < i && run.claimed_at(k));
            }
        }
    }
}

/// The claim of an acquiring verb is on record before the verb reaches its
/// handler.
pub proof fn law_claim_precedes_request(run: Run, i: int)
    requires
        run.valid(),
        0 <= i < run.actions.len(),
        run.actions[i] is HandleRequest,
        run.call.acquires(),
    ensures
        exists|j: int| 0 <= j < i && run.claimed_at(j),
{
    lemma_run_state(run, i);
    lemma_resolved_and_claimed(run, i);
}

/// An audit entry is appended only for a dispatch whose handler was resolved:
/// a call that is refused before that leaves no entry.
pub proof fn law_no_audit_before_resolution(run: Run, i: int)
    requires
        run.valid(),
        0 <= i < run.actions.len(),
        run.actions[i] is AppendAudit,
    ensures
        exists|j: int| 0 <= j < i && run.resolved_at(j),
{
    lemma_run_state(run, i);
    lemma_resolved_and_claimed(run, i);
}

/// With a ledger wired, a dispatch that got as far as looking up its handler
/// in the router does not report before its audit entry is appended.
pub proof fn law_audit_before_report(run: Run, k: int, i: int)
    requires
        run.valid(),
        run.ledger,
        0 <= k < i < run.actions.len(),
        run.actions[k] is LookupPlugin,
        run.actions[i] is Finish,
    ensures
        exists|j: int| k < j < i && #[trigger] run.actions[j] is AppendAudit,
    decreases i,
{
    lemma_run_state(run, i);
    lemma_run_state(run, i - 1);
    lemma_run_state(run, k);
    assert(fits(run.states[i - 1].phase, run.events[i - 1]));
    lemma_rank_order(run, k, i - 1);
    assert(run.actions[i - 1] is AppendAudit);
}

proof fn lemma_rank_order(run: Run, k: int, i: int)
    requires
        run.valid(),
        0 <= k <= i < run.states.len(),
    ensures
        rank(run.states[i].phase) >= rank(run.states[k].phase) + (i - k),
    decreases i,
{
    if k < i {
        lemma_rank_order(run, k, i - 1);
        lemma_run_state(run, i - 1);
        assert(fits(run.states[i - 1].phase, run.events[i - 1]));
    }
}

/// Active-source custody is given up only by a `Stop` that its handler
/// accepted, right after that.
pub proof fn law_release_after_accepted_stop(run: Run, i: int)
    requires
        run.valid(),
        0 <= i < run.actions.len(),
        run.actions[i] is ReleaseCustody,
    ensures
        run.call is Stop,
        i > 0,
        run.handled_at(i - 1),
{
    lemma_run_state(run, i);
    if i > 0 {
        lemma_run_state(run, i - 1);
        assert(fits(run.states[i - 1].phase, run.events[i - 1]));
    }
}

/// Every `Stop` that its handler accepts gives up the custody next.
pub proof fn law_accepted_stop_releases(run: Run, i: int)
    requires
        run.valid(),
        run.call is Stop,
        run.handled_at(i),
    ensures
        run.actions[i + 1] is ReleaseCustody,
{
    lemma_run_state(run, i);
    assert(fits(run.states[i].phase, run.events[i]));
}

/// The end of playback is announced only where a bus is wired, and only after
/// a `Stop` that its handler accepted gave up the custody.
pub proof fn law_announcement_after_release(run: Run, i: int)
    requires
        run.valid(),
        0 <= i < run.actions.len(),
        run.actions[i] is EmitPlaybackEnded,
    ensures
        run.bus,
        run.call is Stop,
        i > 1,
        run.actions[i - 1] is ReleaseCustody,
        run.handled_at(i - 2),
{
    lemma_run_state(run, i);
    if i > 0 {
        lemma_run_state(run, i - 1);
        assert(fits(run.states[i - 1].phase, run.events[i - 1]));
        law_release_after_accepted_stop(run, i - 1);
    }
}

/// Transport verbs leave the custody record alone: they neither claim nor
/// release, nor do they announce an end of playback.
pub proof fn law_transport_retains_custody(run: Run, i: int)
    requires
        run.valid(),
        0 <= i < run.actions.len(),
        !run.call.acquires(),
        !(run.call is Stop),
    ensures
        !(run.actions[i] is RecordClaim),
        !(run.actions[i] is ReleaseCustody),
        !(run.actions[i] is EmitPlaybackEnded),
        !(run.actions[i] is TakeCustody),
{
    lemma_run_state(run, i);
}

/// A dispatch reports success only if its handler accepted the request.
pub proof fn law_success_was_accepted(run: Run, i: int)
    requires
        run.valid(),
        0 <= i < run.actions.len(),
        run.actions[i] matches DispatchAction::Finish(Ok(_)),
    ensures
        exists|j: int| 0 <= j < i && run.handled_at(j),
{
    lemma_run_state(run, i);
    lemma_success(run, i);
}

proof fn lemma_success(run: Run, i: int)
    requires
        run.valid(),
        0 <= i < run.states.len(),
    ensures
        rank(run.states[i].phase) <= 4 ==> run.states[i].failure is None,
        5 <= rank(run.states[i].phase) <= 7 && run.states[i].failure is None ==> exists|j: int|
            0 <= j < i && run.handled_at(j),
        run.actions[i] matches DispatchAction::Finish(Ok(_)) ==> exists|j: int|
            0 <= j < i && run.handled_at(j),
    decreases i,
{
    lemma_run_state(run, i);
    if i > 0 {
        lemma_success(run, i - 1);
        lemma_run_state(run, i - 1);
        assert(fits(run.states[i - 1].phase, run.events[i - 1]));
        if run.states[i - 1].phase == Phase::Handling && run.events[i - 1]
            matches DispatchEvent::RequestHandled(Ok(_)) {
            assert(run.handled_at(i - 1));
        }
        if exists|j: int| 0 <= j < i - 1 && run.handled_at(j) {
            let j = choose|j: int| 0 <= j < i - 1 && run.handled_at(j);
            assert(0 <= j < i && run.handled_at(j));
        }
    }
}

}
