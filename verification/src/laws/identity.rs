//! Laws of tokens, times and texts: what stands for a plugin, a moment or a number.

use crate::access::ConnectionState;
use crate::claimant::{
    digest_from, hex, hex_digit, learns, lemma_digest, token_of, ClaimantToken,
    ClaimantTokenIssuer, Loan, SharedIssuer,
};
use crate::dispatch::{dispatch_request, Desk, Plan, Wiring};
use crate::errors::ErrorClass;
use crate::laws::refusals::refuses;
use crate::resolution::{
    handle_resolve_claimants, law_resolvable_is_answered, resolutions_of, ResolutionLedger,
    ResolutionLogEntry,
};
use crate::requests::ClientRequest;
use crate::responses::{ClaimantResolutionWire, ClientResponse};
use crate::text::{
    begins_with, decimal, decimal_text, digit, has_text, lex_lt, occurs_at, same_text, text_before,
};
use crate::time::{since_epoch, system_time_to_ms, whole_millis};
use std::time::SystemTime;
use vstd::prelude::*;
use vstd::utf8::*;

verus! {

/// The 64-bit FNV-1a digest.
pub open spec fn fnv(bytes: Seq<u8>) -> u64
    decreases bytes.len(),
{
    if bytes.len() == 0 {
        0xcbf2_9ce4_8422_2325
    } else {
        ((fnv(bytes.drop_last()) ^ (bytes.last() as u64)) as nat * 0x0000_0100_0000_01b3nat
            % 0x1_0000_0000_0000_0000nat) as u64
    }
}

proof fn lemma_fnv(before: Seq<u8>, bytes: Seq<u8>)
    ensures
        digest_from(fnv(before), bytes) == fnv(before + bytes),
    decreases bytes.len(),
{
    if bytes.len() == 0 {
        assert(before + bytes =~= before);
    } else {
        lemma_fnv(before, bytes.drop_last());
        assert((before + bytes).drop_last() =~= before + bytes.drop_last());
        lemma_digest(fnv(before + bytes.drop_last()), bytes.last());
    }
}

/// The token of a plugin is the digest of the steward's instance id and the plugin's
/// name, with a zero byte between them. So it depends on nothing else: two issuers of
/// one steward agree, whatever they have issued before.
pub proof fn law_tokens_are_digests(
    issuer: &mut ClaimantTokenIssuer,
    plugin: &str,
    token: ClaimantToken,
    other: &mut ClaimantTokenIssuer,
    again: ClaimantToken,
)
    requires
        call_ensures(ClaimantTokenIssuer::token_for, (issuer, plugin), token),
        call_ensures(ClaimantTokenIssuer::token_for, (other, plugin), again),
    ensures
        token.digest == fnv(
            encode_utf8(old(issuer).instance_id@) + seq![0u8] + encode_utf8(plugin@),
        ),
        old(issuer).instance_id@ == old(other).instance_id@ ==> token == again,
{
    let id = encode_utf8(issuer.instance_id@);
    lemma_digest(0, 0);
    lemma_fnv(Seq::empty(), id);
    assert(Seq::<u8>::empty() + id =~= id);
    lemma_digest(fnv(id), 0);
    assert((id + seq![0u8]).drop_last() =~= id);
    lemma_fnv(id + seq![0u8], encode_utf8(plugin@));
}

/// The tokens of some plugins are their tokens, one by one.
pub proof fn law_tokens_are_issued_in_order(
    issuer: &mut ClaimantTokenIssuer,
    plugins: Vec<String>,
    tokens: Vec<ClaimantToken>,
    i: int,
)
    requires
        call_ensures(ClaimantTokenIssuer::tokens_for, (issuer, &plugins), tokens),
        0 <= i < plugins@.len(),
    ensures
        tokens@.len() == plugins@.len(),
        tokens@[i] == token_of(old(issuer).instance_id@, plugins@[i]@),
{
}

/// Issuing a token makes the plugin known, and forgets and changes nothing.
pub proof fn law_issuing_makes_known(
    issuer: &mut ClaimantTokenIssuer,
    plugin: &str,
    token: ClaimantToken,
)
    requires
        call_ensures(ClaimantTokenIssuer::token_for, (issuer, plugin), token),
    ensures
        final(issuer).instance_id == old(issuer).instance_id,
        exists|i: int|
            0 <= i < final(issuer).known@.len() && (#[trigger] final(issuer).known@[i]).name@
                == plugin@,
        forall|i: int|
            0 <= i < old(issuer).known@.len() ==> i < final(issuer).known@.len()
                && #[trigger] final(issuer).known@[i] == old(issuer).known@[i],
        forall|i: int|
            old(issuer).known@.len() <= i < final(issuer).known@.len() ==> (
            #[trigger] final(issuer).known@[i]).name@ == plugin@,
{
    reveal(learns);
    assert(seq![plugin@][0] == plugin@);
    assert(seq![plugin@].to_set().contains(plugin@));
    let i = choose|i: int| final(issuer).known_at(plugin@, i);
    assert(final(issuer).known@[i].name@ == plugin@);
    assert forall|i: int|
        old(issuer).known@.len() <= i < final(issuer).known@.len() implies (
    #[trigger] final(issuer).known@[i]).name@ == plugin@ by {
        assert(seq![plugin@].to_set().contains(final(issuer).known@[i].name@));
    }
}

/// A recorded version is known under the plugin's name, and nothing known of another
/// plugin changes.
pub proof fn law_versions_are_recorded(
    issuer: &mut ClaimantTokenIssuer,
    plugin: &str,
    version: &str,
)
    requires
        call_ensures(ClaimantTokenIssuer::record_version, (issuer, plugin, version), ()),
    ensures
        final(issuer).instance_id == old(issuer).instance_id,
        exists|i: int| ({
            &&& 0 <= i < final(issuer).known@.len()
            &&& (#[trigger] final(issuer).known@[i]).name@ == plugin@
            &&& final(issuer).known@[i].version is Some
            &&& final(issuer).known@[i].version->Some_0@ == version@
        }),
        forall|i: int|
            0 <= i < old(issuer).known@.len() && (#[trigger] old(issuer).known@[i]).name@
                != plugin@ ==> i < final(issuer).known@.len() && final(issuer).known@[i]
                == old(issuer).known@[i],
{
    if old(issuer).knows(plugin@) {
        let i = choose|i: int| old(issuer).known_at(plugin@, i);
        assert(final(issuer).known@[i].name@ == plugin@);
    } else {
        let last = final(issuer).known@.len() - 1;
        assert(final(issuer).known@[last].name@ == plugin@);
        assert forall|i: int| 0 <= i < old(issuer).known@.len() implies final(issuer).known@[i]
            == #[trigger] old(issuer).known@[i] by {
            assert(final(issuer).known@.drop_last()[i] == old(issuer).known@[i]);
        }
    }
}

/// What a hexadecimal digit counts.
pub open spec fn hex_worth(c: char) -> int {
    if '0' <= c <= '9' {
        c as int - '0' as int
    } else {
        c as int - 'a' as int + 10
    }
}

/// The number that some hexadecimal digits write.
pub open spec fn hex_number(s: Seq<char>) -> int
    decreases s.len(),
{
    if s.len() == 0 {
        0
    } else {
        hex_number(s.drop_last()) * 16 + hex_worth(s.last())
    }
}

/// One more than the largest number of so many hexadecimal digits.
spec fn hex_bound(width: nat) -> nat
    decreases width,
{
    if width == 0 {
        1
    } else {
        hex_bound((width - 1) as nat) * 16
    }
}

proof fn lemma_hex(n: nat, width: nat)
    requires
        n < hex_bound(width),
    ensures
        hex(n, width).len() == width,
        hex_number(hex(n, width)) == n,
        forall|i: int|
            0 <= i < width ==> '0' <= #[trigger] hex(n, width)[i] <= '9' || 'a' <= hex(
                n,
                width,
            )[i] <= 'f',
    decreases width,
{
    if width > 0 {
        let less = (width - 1) as nat;
        lemma_hex(n / 16, less);
        assert(hex(n, width).drop_last() =~= hex(n / 16, less));
        let d = n % 16;
        assert(hex_worth(hex_digit(d)) == d);
        assert forall|i: int| 0 <= i < width implies '0' <= #[trigger] hex(n, width)[i] <= '9'
            || 'a' <= hex(n, width)[i] <= 'f' by {
            if i < less {
                assert(hex(n, width)[i] == hex(n / 16, less)[i]);
            }
        }
    }
}

/// A token is written in sixteen hexadecimal digits, which give its digest again: two
/// tokens are written alike only if they are the same.
pub proof fn law_tokens_are_written_in_hexadecimal(token: ClaimantToken, text: String)
    requires
        call_ensures(ClaimantToken::to_text, (token,), text),
    ensures
        text@.len() == 16,
        hex_number(text@) == token.digest,
        forall|i: int|
            0 <= i < 16 ==> '0' <= #[trigger] text@[i] <= '9' || 'a' <= text@[i] <= 'f',
{
    reveal_with_fuel(hex_bound, 17);
    lemma_hex(token.digest as nat, 16);
}

/// A token is resolved to a plugin that it was issued for, with the version that is
/// known; it is not resolved only if no known plugin has it.
pub proof fn law_tokens_resolve_to_their_plugins(
    issuer: ClaimantTokenIssuer,
    raw: &str,
    r: Option<(String, Option<String>)>,
)
    requires
        call_ensures(ClaimantTokenIssuer::resolve, (&issuer, raw), r),
    ensures
        r is Some ==> exists|i: int| ({
            &&& 0 <= i < issuer.known@.len()
            &&& (#[trigger] issuer.known@[i]).name == r->Some_0.0
            &&& issuer.known@[i].version == r->Some_0.1
            &&& token_of(issuer.instance_id@, issuer.known@[i].name@).text() == raw@
        }),
        r is None ==> forall|i: int|
            0 <= i < issuer.known@.len() ==> token_of(
                issuer.instance_id@,
                (#[trigger] issuer.known@[i]).name@,
            ).text() != raw@,
{
}

proof fn lemma_some_first(issuer: ClaimantTokenIssuer, raw: Seq<char>, i: int)
    requires
        0 <= i < issuer.known@.len(),
        issuer.token(issuer.known@[i].name@).text() == raw,
    ensures
        exists|k: int| #[trigger] issuer.resolves_to(raw, k),
    decreases i,
{
    if exists|j: int|
        0 <= j < i && issuer.token((#[trigger] issuer.known@[j]).name@).text() == raw {
        let j = choose|j: int|
            0 <= j < i && issuer.token((#[trigger] issuer.known@[j]).name@).text() == raw;
        lemma_some_first(issuer, raw, j);
    } else {
        assert(issuer.resolves_to(raw, i));
    }
}

/// The row tells of a token what is known of a plugin that has it: the name and the
/// version.
pub open spec fn tells_of_a_plugin(
    row: ClaimantResolutionWire,
    tokens: Seq<String>,
    issuer: ClaimantTokenIssuer,
) -> bool {
    &&& tokens.contains(row.token)
    &&& exists|k: int| ({
        &&& 0 <= k < issuer.known@.len()
        &&& (#[trigger] issuer.known@[k]).name == row.plugin_name
        &&& issuer.known@[k].version == row.plugin_version
        &&& token_of(issuer.instance_id@, issuer.known@[k].name@).text() == row.token@
    })
}

/// Some row is for the token.
pub open spec fn has_row(rows: Seq<ClaimantResolutionWire>, token: String) -> bool {
    exists|j: int| 0 <= j < rows.len() && (#[trigger] rows[j]).token == token
}

/// Each row tells of a token that was asked for, and each such token that a known plugin
/// has gets a row.
pub open spec fn answers_tokens(
    rows: Seq<ClaimantResolutionWire>,
    tokens: Seq<String>,
    issuer: ClaimantTokenIssuer,
) -> bool {
    &&& forall|i: int|
        0 <= i < rows.len() ==> tells_of_a_plugin(#[trigger] rows[i], tokens, issuer)
    &&& forall|i: int, k: int|
        0 <= i < tokens.len() && 0 <= k < issuer.known@.len() && (#[trigger] tokens[i])@
            == token_of(issuer.instance_id@, (#[trigger] issuer.known@[k]).name@).text()
            ==> has_row(rows, tokens[i])
}

proof fn lemma_row_tells(tokens: Seq<String>, issuer: ClaimantTokenIssuer, i: int)
    requires
        0 <= i < resolutions_of(tokens, issuer).len(),
    ensures
        tells_of_a_plugin(resolutions_of(tokens, issuer)[i], tokens, issuer),
    decreases tokens.len(),
{
    if tokens.len() > 0 {
        let rest = tokens.drop_last();
        let before = resolutions_of(rest, issuer);
        if i < before.len() {
            lemma_row_tells(rest, issuer, i);
            let k = choose|k: int| 0 <= k < rest.len() && rest[k] == before[i].token;
            assert(tokens[k] == before[i].token);
        } else {
            assert(tokens[tokens.len() - 1] == tokens.last());
            let k = choose|k: int| #[trigger] issuer.resolves_to(tokens.last()@, k);
            assert(issuer.resolves_to(tokens.last()@, k));
            assert(issuer.known@[k].name == resolutions_of(tokens, issuer)[i].plugin_name);
        }
    }
}

proof fn lemma_answers_tokens(tokens: Seq<String>, issuer: ClaimantTokenIssuer)
    ensures
        answers_tokens(resolutions_of(tokens, issuer), tokens, issuer),
{
    let rows = resolutions_of(tokens, issuer);
    assert forall|i: int| 0 <= i < rows.len() implies tells_of_a_plugin(
        #[trigger] rows[i],
        tokens,
        issuer,
    ) by {
        lemma_row_tells(tokens, issuer, i);
    }
    assert forall|i: int, k: int|
        0 <= i < tokens.len() && 0 <= k < issuer.known@.len() && (#[trigger] tokens[i])@
            == token_of(
            issuer.instance_id@,
            (#[trigger] issuer.known@[k]).name@,
        ).text() implies has_row(rows, tokens[i]) by {
        let token = token_of(issuer.instance_id@, issuer.known@[k].name@);
        lemma_some_first(issuer, token.text(), k);
        law_resolvable_is_answered(tokens, issuer, i, token);
    }
}

/// Tokens are resolved for a connection that was granted it, and for no other. The ledger
/// gets one entry either way, and it says who asked for how many and how many were
/// answered.
pub proof fn law_claimants_are_resolved_for_the_granted(
    issuer: ClaimantTokenIssuer,
    ledger: &mut ResolutionLedger,
    conn: ConnectionState,
    tokens: Vec<String>,
    now: SystemTime,
    r: ClientResponse,
)
    requires
        call_ensures(
            handle_resolve_claimants,
            (&issuer, ledger, &conn, tokens, now),
            r,
        ),
    ensures
        !conn.granted_capabilities@.contains("resolve_claimants"@) ==> refuses(
            r,
            ErrorClass::PermissionDenied,
            "resolve_claimants not granted on this connection"@,
            "resolve_claimants_not_granted"@,
        ),
        conn.granted_capabilities@.contains("resolve_claimants"@) ==> r is Resolutions
            && answers_tokens(r->resolutions@, tokens@, issuer),
        final(ledger).log@.len() == old(ledger).log@.len() + 1,
        final(ledger).log@.drop_last() == old(ledger).log@,
        ({
            let entry = final(ledger).log@.last();
            &&& entry.peer_uid == conn.peer.uid
            &&& entry.peer_gid == conn.peer.gid
            &&& entry.granted == conn.granted_capabilities@.contains("resolve_claimants"@)
            &&& entry.at == now
            &&& entry.tokens_requested == tokens@.len() as usize
            &&& entry.granted ==> entry.tokens_resolved == r->resolutions@.len() as usize
            &&& !entry.granted ==> entry.tokens_resolved == 0
        }),
{
    lemma_answers_tokens(tokens@, issuer);
}

/// A client that was granted it gets its tokens resolved.
pub proof fn law_granted_clients_get_their_tokens_resolved(
    tokens: Vec<String>,
    desk: &mut Desk,
    issuer: &ClaimantTokenIssuer,
    wiring: Wiring,
    conn: &mut ConnectionState,
    now: SystemTime,
    plan: Plan,
)
    requires
        call_ensures(
            dispatch_request,
            (ClientRequest::ResolveClaimants { tokens }, desk, issuer, wiring, conn, now),
            plan,
        ),
    ensures
        plan is Reply,
        old(conn).granted_capabilities@.contains("resolve_claimants"@) ==> plan->Reply_0
            is Resolutions && answers_tokens(
            plan->Reply_0->resolutions@,
            tokens@,
            *issuer,
        ),
        !old(conn).granted_capabilities@.contains("resolve_claimants"@) ==> refuses(
            plan->Reply_0,
            ErrorClass::PermissionDenied,
            "resolve_claimants not granted on this connection"@,
            "resolve_claimants_not_granted"@,
        ),
{
    lemma_answers_tokens(tokens@, *issuer);
}

/// A shared issuer issues for the steward that it was made for, and every borrower finds
/// the plugins known that were known when it was shared.
pub proof fn law_borrowers_find_what_was_shared(
    issuer: ClaimantTokenIssuer,
    shared: SharedIssuer,
    r: (ClaimantTokenIssuer, Loan<'_>),
    i: int,
)
    requires
        call_ensures(SharedIssuer::new, (issuer,), shared),
        call_ensures(SharedIssuer::borrow_issuer, (&shared,), r),
        0 <= i < issuer.known@.len(),
    ensures
        r.0.instance_id@ == issuer.instance_id@,
        exists|k: int|
            0 <= k < r.0.known@.len() && (#[trigger] r.0.known@[k]).name@ == issuer.known@[i].name@,
{
    let name = issuer.known@[i].name@;
    lemma_some_known(issuer, name, i);
    assert(issuer.names().contains(name));
    assert(r.0.names().contains(name));
    let k = choose|k: int| r.0.known_at(name, k);
    assert(r.0.known@[k].name@ == name);
}

proof fn lemma_some_known(issuer: ClaimantTokenIssuer, name: Seq<char>, i: int)
    requires
        0 <= i < issuer.known@.len(),
        issuer.known@[i].name@ == name,
    ensures
        issuer.knows(name),
    decreases i,
{
    if exists|j: int| 0 <= j < i && (#[trigger] issuer.known@[j]).name@ == name {
        let j = choose|j: int| 0 <= j < i && (#[trigger] issuer.known@[j]).name@ == name;
        lemma_some_known(issuer, name, j);
    } else {
        assert(issuer.known_at(name, i));
    }
}

/// The ledger starts empty and keeps what is put into it, in order.
pub proof fn law_the_ledger_keeps_its_entries(
    fresh: ResolutionLedger,
    ledger: &mut ResolutionLedger,
    entry: ResolutionLogEntry,
    some: ResolutionLedger,
    count: usize,
    entries: &Vec<ResolutionLogEntry>,
)
    requires
        call_ensures(ResolutionLedger::new, (), fresh),
        call_ensures(ResolutionLedger::record, (ledger, entry), ()),
        call_ensures(ResolutionLedger::count, (&some,), count),
        call_ensures(ResolutionLedger::entries, (&some,), entries),
    ensures
        fresh.log@.len() == 0,
        final(ledger).log@.len() == old(ledger).log@.len() + 1,
        final(ledger).log@.drop_last() == old(ledger).log@,
        final(ledger).log@.last() == entry,
        count == some.log@.len(),
        entries@ == some.log@,
{
}

/// A time is given in whole milliseconds since the epoch, of which the low 64 bits are
/// kept, and as zero where it lies before the epoch.
pub proof fn law_times_are_milliseconds(t: SystemTime, ms: u64)
    requires
        call_ensures(system_time_to_ms, (t,), ms),
    ensures
        since_epoch(t) is None ==> ms == 0,
        since_epoch(t) is Some ==> ms == whole_millis(since_epoch(t)->Some_0) as u64,
        since_epoch(t) is Some && whole_millis(since_epoch(t)->Some_0) <= u64::MAX ==> ms
            == whole_millis(since_epoch(t)->Some_0),
{
}

/// The number that some decimal digits write.
pub open spec fn number(s: Seq<char>) -> int
    decreases s.len(),
{
    if s.len() == 0 {
        0
    } else {
        number(s.drop_last()) * 10 + (s.last() as int - '0' as int)
    }
}

proof fn lemma_decimal(n: nat)
    ensures
        decimal(n).len() > 0,
        number(decimal(n)) == n,
        forall|i: int| 0 <= i < decimal(n).len() ==> '0' <= #[trigger] decimal(n)[i] <= '9',
        n > 0 ==> decimal(n)[0] != '0',
    decreases n,
{
    let d = decimal(n);
    if n < 10 {
        assert(d =~= seq![digit(n)]);
        assert(d.drop_last() =~= Seq::<char>::empty());
        assert(number(d.drop_last()) == 0);
    } else {
        let head = decimal(n / 10);
        lemma_decimal(n / 10);
        assert(d.drop_last() =~= head);
        assert forall|i: int| 0 <= i < d.len() implies '0' <= #[trigger] d[i] <= '9' by {
            if i < head.len() {
                assert(d[i] == head[i]);
            }
        }
    }
}

/// A number is written in decimal digits that read as the number, with no zero in
/// front.
pub proof fn law_numbers_are_written_in_decimal(n: u64, text: String)
    requires
        call_ensures(decimal_text, (n,), text),
    ensures
        number(text@) == n,
        text@.len() > 0,
        forall|i: int| 0 <= i < text@.len() ==> '0' <= #[trigger] text@[i] <= '9',
        n > 0 ==> text@[0] != '0',
{
    lemma_decimal(n as nat);
}

/// The bytes part at `k`: up to there they agree, and there the first ones end or hold
/// the smaller byte.
pub open spec fn parts_at(a: Seq<u8>, b: Seq<u8>, k: int) -> bool {
    &&& 0 <= k <= a.len()
    &&& k < b.len()
    &&& forall|i: int| 0 <= i < k ==> a[i] == b[i]
    &&& k == a.len() || a[k] < b[k]
}

proof fn lemma_parts(a: Seq<u8>, b: Seq<u8>)
    ensures
        lex_lt(a, b) <==> exists|k: int| parts_at(a, b, k),
    decreases a.len(),
{
    if b.len() == 0 {
    } else if a.len() == 0 {
        assert(parts_at(a, b, 0));
    } else if a[0] != b[0] {
        if a[0] < b[0] {
            assert(parts_at(a, b, 0));
        }
    } else {
        let x = a.drop_first();
        let y = b.drop_first();
        lemma_parts(x, y);
        if lex_lt(x, y) {
            let k = choose|k: int| parts_at(x, y, k);
            assert forall|i: int| 0 <= i < k + 1 implies a[i] == b[i] by {
                if i > 0 {
                    assert(x[i - 1] == y[i - 1]);
                }
            }
            assert(parts_at(a, b, k + 1));
        }
        if exists|k: int| parts_at(a, b, k) {
            let k = choose|k: int| parts_at(a, b, k);
            assert(k > 0);
            assert forall|i: int| 0 <= i < k - 1 implies x[i] == y[i] by {
                assert(a[i + 1] == b[i + 1]);
            }
            assert(parts_at(x, y, k - 1));
        }
    }
}

/// Texts are ordered by their UTF-8 bytes: the first byte in which they differ decides,
/// and a text comes before one that goes on from it.
pub proof fn law_texts_are_ordered_by_their_bytes(a: &str, b: &str, before: bool)
    requires
        call_ensures(text_before, (a, b), before),
    ensures
        before <==> exists|k: int| parts_at(encode_utf8(a@), encode_utf8(b@), k),
{
    lemma_parts(encode_utf8(a@), encode_utf8(b@));
}

/// Texts are the same, start with one another and hold one another as sequences of
/// characters.
pub proof fn law_texts_are_their_characters(
    hay: &str,
    needle: &str,
    same: bool,
    begins: bool,
    has: bool,
)
    requires
        call_ensures(same_text, (hay, needle), same),
        call_ensures(begins_with, (hay, needle), begins),
        call_ensures(has_text, (hay, needle), has),
    ensures
        same <==> hay@ == needle@,
        begins <==> needle@.len() <= hay@.len() && hay@.take(needle@.len() as int) == needle@,
        has <==> exists|before: Seq<char>, after: Seq<char>|
            hay@ == #[trigger] (before + needle@ + after),
{
    if begins {
        assert(hay@.take(needle@.len() as int) =~= needle@);
    }
    if has {
        let at = choose|at: int| occurs_at(hay@, needle@, at);
        let before = hay@.take(at);
        let after = hay@.skip(at + needle@.len());
        assert(hay@ =~= before + needle@ + after);
    }
    if exists|before: Seq<char>, after: Seq<char>|
        hay@ == #[trigger] (before + needle@ + after) {
        let (before, after) = choose|before: Seq<char>, after: Seq<char>|
            hay@ == #[trigger] (before + needle@ + after);
        let at = before.len() as int;
        assert(hay@.subrange(at, at + needle@.len()) =~= needle@);
        assert(occurs_at(hay@, needle@, at));
    }
}

}
