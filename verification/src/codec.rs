//! Standard base64, as payloads and page cursors travel in it.

use base64::engine::general_purpose::STANDARD;
use base64::Engine;
use vstd::prelude::*;

verus! {

/// The standard base64 text of some bytes.
pub uninterp spec fn base64_text(bytes: Seq<u8>) -> Seq<char>;

/// What standard base64 text decodes to, or why it does not.
pub uninterp spec fn base64_decoded(text: Seq<char>) -> Result<Seq<u8>, Seq<char>>;

/// The text decodes to the bytes.
pub open spec fn decodes_to(text: Seq<char>, bytes: Seq<u8>) -> bool {
    base64_decoded(text) == Ok::<Seq<u8>, Seq<char>>(bytes)
}

/// The encoding of so many bytes fits in memory.
pub open spec fn encodable(n: nat) -> bool {
    (n + 2) / 3 * 4 <= isize::MAX
}

/// Calls `base64::Engine::encode` of the `STANDARD` engine: the padded base64
/// text of the bytes, named by [`base64_text`], which decodes to the bytes.
#[verifier::external_body]
pub(crate) fn encode(bytes: &[u8]) -> (r: String)
    requires
        encodable(bytes@.len()),
    ensures
        r@ == base64_text(bytes@),
        decodes_to(r@, bytes@),
{
    STANDARD.encode(bytes)
}

/// Calls `base64::Engine::decode` of the `STANDARD` engine: the bytes of the
/// text, or the engine's error as text, both named by [`base64_decoded`].
#[verifier::external_body]
pub(crate) fn decode(text: &str) -> (r: Result<Vec<u8>, String>)
    ensures
        match r {
            Ok(bytes) => decodes_to(text@, bytes@),
            Err(why) => base64_decoded(text@) == Err::<Seq<u8>, Seq<char>>(why@),
        },
{
    STANDARD.decode(text).map_err(|e| e.to_string())
}

}
