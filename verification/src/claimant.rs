//! Claimant tokens: what consumers see in place of plugin names.
//!
//! A token is derived from the steward's instance id and the plugin's name, so
//! every surface that names a plugin gives the same token for it. The issuer
//! keeps the names that it issued tokens for, with the plugins' versions where
//! they are known, so that a token can be resolved again. A steward has one
//! issuer, which all of its surfaces share.

use crate::text::same_text;
use vstd::prelude::*;
use vstd::rwlock::{RwLock, RwLockPredicate, WriteHandle};
use vstd::string::*;
use vstd::utf8::*;

verus! {

/// The opaque token of a plugin.
#[derive(Debug, Clone, Copy, PartialEq, Eq, Structural)]
pub struct ClaimantToken {
    pub digest: u64,
}

const DIGEST_SEED: u64 = 0xcbf2_9ce4_8422_2325;

const DIGEST_PRIME: u64 = 0x0000_0100_0000_01b3;

/// The digest after one more byte.
pub closed spec fn digest_step(h: u64, b: u8) -> u64 {
    (h ^ (b as u64)).wrapping_mul(DIGEST_PRIME)
}

/// The FNV-1a digest of some bytes, from the digest `h` of what came before.
pub open spec fn digest_from(h: u64, bytes: Seq<u8>) -> u64
    decreases bytes.len(),
{
    if bytes.len() == 0 {
        h
    } else {
        digest_step(digest_from(h, bytes.drop_last()), bytes.last())
    }
}

/// The digest of the empty sequence.
pub closed spec fn digest_start() -> u64 {
    DIGEST_SEED
}

/// The token of a plugin for a steward instance: the digest of the instance
/// id, a zero byte, and the plugin's name.
pub open spec fn token_of(instance_id: Seq<char>, plugin: Seq<char>) -> ClaimantToken {
    ClaimantToken {
        digest: digest_from(
            digest_step(digest_from(digest_start(), encode_utf8(instance_id)), 0),
            encode_utf8(plugin),
        ),
    }
}

/// The digest starts at the FNV offset basis, and each byte is mixed in by an
/// exclusive or and a multiplication by the FNV prime, modulo 2 to the 64th.
pub proof fn lemma_digest(h: u64, b: u8)
    ensures
        digest_start() == 0xcbf2_9ce4_8422_2325,
        digest_step(h, b) == ((h ^ (b as u64)) as nat * 0x0000_0100_0000_01b3nat)
            % 0x1_0000_0000_0000_0000nat,
{
}

fn digest_bytes(h: u64, bytes: &[u8]) -> (r: u64)
    ensures
        r == digest_from(h, bytes@),
{
    let mut out: u64 = h;
    let mut i: usize = 0;
    assert(bytes@.take(0) =~= Seq::<u8>::empty());
    while i < bytes.len()
        invariant
            i <= bytes.len(),
            out == digest_from(h, bytes@.take(i as int)),
        decreases bytes.len() - i,
    {
        proof {
            let next = bytes@.take(i + 1);
            assert(next.drop_last() =~= bytes@.take(i as int));
            assert(next.last() == bytes@[i as int]);
        }
        out = (out ^ (bytes[i] as u64)).wrapping_mul(DIGEST_PRIME);
        i += 1;
    }
    assert(bytes@.take(bytes.len() as int) =~= bytes@);
    out
}

/// The character of a hexadecimal digit.
pub open spec fn hex_digit(d: nat) -> char {
    if d < 10 {
        ('0' as u32 + d) as char
    } else {
        ('a' as u32 + (d - 10)) as char
    }
}

/// The last `width` hexadecimal digits of `n`.
pub open spec fn hex(n: nat, width: nat) -> Seq<char>
    decreases width,
{
    if width == 0 {
        Seq::empty()
    } else {
        hex(n / 16, (width - 1) as nat).push(hex_digit(n % 16))
    }
}

fn hex_digit_text(d: u64) -> (r: &'static str)
    requires
        d < 16,
    ensures
        r@ == seq![hex_digit(d as nat)],
{
    proof {
        reveal_strlit("0");
        reveal_strlit("1");
        reveal_strlit("2");
        reveal_strlit("3");
        reveal_strlit("4");
        reveal_strlit("5");
        reveal_strlit("6");
        reveal_strlit("7");
        reveal_strlit("8");
        reveal_strlit("9");
        reveal_strlit("a");
        reveal_strlit("b");
        reveal_strlit("c");
        reveal_strlit("d");
        reveal_strlit("e");
        reveal_strlit("f");
    }
    match d {
        0 => "0",
        1 => "1",
        2 => "2",
        3 => "3",
        4 => "4",
        5 => "5",
        6 => "6",
        7 => "7",
        8 => "8",
        9 => "9",
        10 => "a",
        11 => "b",
        12 => "c",
        13 => "d",
        14 => "e",
        _ => "f",
    }
}

fn hex_text(n: u64, width: u8) -> (r: String)
    ensures
        r@ == hex(n as nat, width as nat),
    decreases width,
{
    if width == 0 {
        String::new()
    } else {
        let mut out = hex_text(n / 16, width - 1);
        out.append(hex_digit_text(n % 16));
        out
    }
}

impl ClaimantToken {
    /// The token on the wire: sixteen hexadecimal digits.
    pub open spec fn text(self) -> Seq<char> {
        hex(self.digest as nat, 16)
    }

    /// The token on the wire.
    pub fn to_text(self) -> (r: String)
        ensures
            r@ == self.text(),
    {
        hex_text(self.digest, 16)
    }
}

/// A plugin that a token was issued for.
#[derive(Debug)]
pub struct KnownPlugin {
    pub name: String,
    pub version: Option<String>,
}

/// Issues claimant tokens and resolves them.
#[derive(Debug)]
pub struct ClaimantTokenIssuer {
    pub instance_id: String,
    pub known: Vec<KnownPlugin>,
}

impl ClaimantTokenIssuer {
    /// The token of a plugin.
    pub open spec fn token(&self, plugin: Seq<char>) -> ClaimantToken {
        token_of(self.instance_id@, plugin)
    }

    /// The issuer of a steward instance.
    pub fn new(instance_id: &str) -> (r: ClaimantTokenIssuer)
        ensures
            r.instance_id@ == instance_id@,
            r.known@.len() == 0,
    {
        ClaimantTokenIssuer { instance_id: instance_id.to_owned(), known: Vec::new() }
    }

    fn derive(&self, plugin: &str) -> (r: ClaimantToken)
        ensures
            r == self.token(plugin@),
    {
        let start: u64 = digest_bytes(DIGEST_SEED, self.instance_id.as_str().as_bytes());
        let joined: u64 = (start ^ (0u8 as u64)).wrapping_mul(DIGEST_PRIME);
        ClaimantToken { digest: digest_bytes(joined, plugin.as_bytes()) }
    }

    /// Plugin `i` is the first known one of that name.
    pub open spec fn known_at(&self, plugin: Seq<char>, i: int) -> bool {
        0 <= i < self.known@.len() && self.known@[i].name@ == plugin && forall|j: int|
            0 <= j < i ==> (#[trigger] self.known@[j]).name@ != plugin
    }

    /// The issuer has issued a token for the plugin, or knows its version.
    pub open spec fn knows(&self, plugin: Seq<char>) -> bool {
        exists|i: int| self.known_at(plugin, i)
    }

    fn find(&self, plugin: &str) -> (r: Option<usize>)
        ensures
            match r {
                Some(i) => self.known_at(plugin@, i as int),
                None => forall|j: int|
                    0 <= j < self.known@.len() ==> (#[trigger] self.known@[j]).name@ != plugin@,
            },
    {
        let mut i: usize = 0;
        while i < self.known.len()
            invariant
                i <= self.known.len(),
                forall|j: int| 0 <= j < i ==> (#[trigger] self.known@[j]).name@ != plugin@,
            decreases self.known.len() - i,
        {
            if same_text(self.known[i].name.as_str(), plugin) {
                return Some(i);
            }
            i += 1;
        }
        None
    }

    /// Issues the token of a plugin: the name becomes known, so that the token
    /// resolves.
    pub fn token_for(&mut self, plugin: &str) -> (r: ClaimantToken)
        ensures
            r == token_of(old(self).instance_id@, plugin@),
            final(self).instance_id == old(self).instance_id,
            learns(*old(self), *final(self), seq![plugin@].to_set()),
    {
        let ghost before = *self;
        match self.find(plugin) {
            Some(i) => {
                assert(self.known_at(plugin@, i as int));
            },
            None => {
                self.known.push(KnownPlugin { name: plugin.to_owned(), version: None });
                assert(self.known_at(plugin@, before.known@.len() as int));
            },
        }
        proof {
            reveal(learns);
            assert(seq![plugin@][0] == plugin@);
            assert(before.known@ =~= self.known@.take(before.known@.len() as int));
        }
        self.derive(plugin)
    }

    /// Issues the tokens of some plugins, in order.
    pub fn tokens_for(&mut self, plugins: &Vec<String>) -> (r: Vec<ClaimantToken>)
        ensures
            r@ == plugins@.map_values(|p: String| token_of(old(self).instance_id@, p@)),
            final(self).instance_id == old(self).instance_id,
            learns(*old(self), *final(self), plugins@.map_values(|p: String| p@).to_set()),
    {
        let ghost before = *self;
        let ghost names = plugins@.map_values(|p: String| p@);
        let mut out: Vec<ClaimantToken> = Vec::new();
        let mut i: usize = 0;
        proof {
            lemma_learns_nothing(before);
            assert(names.take(0) =~= Seq::empty());
        }
        while i < plugins.len()
            invariant
                i <= plugins.len(),
                out.len() == i,
                names == plugins@.map_values(|p: String| p@),
                self.instance_id == before.instance_id,
                learns(before, *self, names.take(i as int).to_set()),
                forall|j: int|
                    0 <= j < i ==> out@[j] == token_of(
                        before.instance_id@,
                        (#[trigger] plugins@[j])@,
                    ),
            decreases plugins.len() - i,
        {
            let ghost between = *self;
            out.push(self.token_for(plugins[i].as_str()));
            proof {
                lemma_learns_both(
                    before,
                    between,
                    *self,
                    names.take(i as int),
                    seq![plugins@[i as int]@],
                );
                assert(names.take(i + 1) =~= names.take(i as int) + seq![plugins@[i as int]@]);
            }
            i += 1;
        }
        proof {
            assert(names.take(plugins@.len() as int) =~= names);
            assert(out@ =~= plugins@.map_values(
                |p: String| token_of(before.instance_id@, p@),
            ));
        }
        out
    }

    /// Records the version of a plugin, whose name becomes known by that.
    pub fn record_version(&mut self, plugin: &str, version: &str)
        ensures
            versioned(*old(self), *final(self), plugin@, version@),
    {
        let row = KnownPlugin { name: plugin.to_owned(), version: Some(version.to_owned()) };
        match self.find(plugin) {
            Some(i) => {
                proof {
                    assert forall|k: int| self.known_at(plugin@, k) implies k == i by {
                        if k < i {
                            assert(self.known@[k].name@ == plugin@);
                        }
                        if i < k {
                            assert(self.known@[i as int].name@ == plugin@);
                        }
                    }
                }
                self.known.set(i, row);
            },
            None => {
                let ghost before = self.known@;
                self.known.push(row);
                assert(self.known@.drop_last() =~= before);
            },
        }
    }

    /// The plugins that are known.
    pub open spec fn names(&self) -> Set<Seq<char>> {
        Set::new(|n: Seq<char>| self.knows(n))
    }

    /// Plugin `i` is the first known one whose token reads `raw`.
    pub open spec fn resolves_to(&self, raw: Seq<char>, i: int) -> bool {
        0 <= i < self.known@.len() && self.token(self.known@[i].name@).text() == raw && forall|
            j: int,
        |
            0 <= j < i ==> self.token((#[trigger] self.known@[j]).name@).text() != raw
    }

    /// The token resolves, to a plugin that has it.
    pub open spec fn resolvable(&self, token: ClaimantToken) -> bool {
        exists|k: int| #[trigger] self.resolves_to(token.text(), k)
    }

    /// The plugin that a token stands for: its name, and its version where that
    /// is known.
    pub fn resolve(&self, raw: &str) -> (r: Option<(String, Option<String>)>)
        ensures
            match r {
                Some(found) => exists|i: int| #[trigger]
                    self.resolves_to(raw@, i) && found.0 == self.known@[i].name && found.1
                        == self.known@[i].version,
                None => forall|i: int| !#[trigger] self.resolves_to(raw@, i),
            },
            r is None ==> forall|j: int|
                0 <= j < self.known@.len() ==> self.token((#[trigger] self.known@[j]).name@).text()
                    != raw@,
    {
        let mut i: usize = 0;
        while i < self.known.len()
            invariant
                i <= self.known.len(),
                forall|j: int|
                    0 <= j < i ==> self.token((#[trigger] self.known@[j]).name@).text() != raw@,
            decreases self.known.len() - i,
        {
            let text = self.derive(self.known[i].name.as_str()).to_text();
            if same_text(text.as_str(), raw) {
                assert(self.resolves_to(raw@, i as int));
                let version = match &self.known[i].version {
                    Some(v) => Some(v.clone()),
                    None => None,
                };
                return Some((self.known[i].name.clone(), version));
            }
            i += 1;
        }
        None
    }
}

/// `after` is the issuer once `before` has recorded the version of a plugin.
pub open spec fn versioned(
    before: ClaimantTokenIssuer,
    after: ClaimantTokenIssuer,
    plugin: Seq<char>,
    version: Seq<char>,
) -> bool {
    &&& after.instance_id == before.instance_id
    &&& forall|i: int| #[trigger]
        before.known_at(plugin, i) ==> {
            &&& after.known@.len() == before.known@.len()
            &&& after.known@[i].name@ == plugin
            &&& after.known@[i].version matches Some(v) && v@ == version
            &&& forall|j: int|
                0 <= j < before.known@.len() && j != i ==> #[trigger] after.known@[j]
                    == before.known@[j]
        }
    &&& !before.knows(plugin) ==> {
        &&& after.known@.len() == before.known@.len() + 1
        &&& after.known@.drop_last() == before.known@
        &&& after.known@.last().name@ == plugin
        &&& after.known@.last().version matches Some(v) && v@ == version
    }
}

/// `after` is the issuer once tokens for exactly these plugins were issued by
/// `before`: what was known stays as it was, each of the plugins is known, and a
/// plugin that is new is there once, without a version.
#[verifier::opaque]
pub open spec fn learns(
    before: ClaimantTokenIssuer,
    after: ClaimantTokenIssuer,
    names: Set<Seq<char>>,
) -> bool {
    &&& after.instance_id == before.instance_id
    &&& before.known@.len() <= after.known@.len()
    &&& forall|i: int|
        0 <= i < before.known@.len() ==> #[trigger] after.known@[i] == before.known@[i]
    &&& forall|n: Seq<char>| #[trigger] names.contains(n) ==> after.knows(n)
    &&& forall|i: int|
        before.known@.len() <= i < after.known@.len() ==> {
            let row = #[trigger] after.known@[i];
            names.contains(row.name@) && row.version is None && after.known_at(row.name@, i)
        }
}

proof fn lemma_known_stays(
    before: ClaimantTokenIssuer,
    after: ClaimantTokenIssuer,
    names: Set<Seq<char>>,
    plugin: Seq<char>,
    i: int,
)
    requires
        learns(before, after, names),
        before.known_at(plugin, i),
    ensures
        after.known_at(plugin, i),
{
    reveal(learns);
    assert(after.known@[i] == before.known@[i]);
    assert forall|j: int| 0 <= j < i implies (#[trigger] after.known@[j]).name@ != plugin by {
        assert(after.known@[j] == before.known@[j]);
    }
}

/// Issuing no token changes nothing.
pub proof fn lemma_learns_nothing(issuer: ClaimantTokenIssuer)
    ensures
        learns(issuer, issuer, Seq::<Seq<char>>::empty().to_set()),
        learns(issuer, issuer, Set::<Seq<char>>::empty()),
{
    reveal(learns);
}

/// Issuing tokens twice is issuing them all.
pub proof fn lemma_learns_chain(
    before: ClaimantTokenIssuer,
    between: ClaimantTokenIssuer,
    after: ClaimantTokenIssuer,
    first: Set<Seq<char>>,
    second: Set<Seq<char>>,
)
    requires
        learns(before, between, first),
        learns(between, after, second),
    ensures
        learns(before, after, first + second),
{
    reveal(learns);
    assert forall|n: Seq<char>| #[trigger] (first + second).contains(n) implies after.knows(
        n,
    ) by {
        if first.contains(n) {
            let i = choose|i: int| between.known_at(n, i);
            lemma_known_stays(between, after, second, n, i);
        } else {
            assert(second.contains(n));
        }
    }
    assert forall|i: int| before.known@.len() <= i < after.known@.len() implies {
        let row = #[trigger] after.known@[i];
        (first + second).contains(row.name@) && row.version is None && after.known_at(row.name@, i)
    } by {
        if i < between.known@.len() {
            assert(after.known@[i] == between.known@[i]);
            lemma_known_stays(between, after, second, between.known@[i].name@, i);
        }
    }
    assert forall|i: int| 0 <= i < before.known@.len() implies #[trigger] after.known@[i]
        == before.known@[i] by {
        assert(between.known@[i] == before.known@[i]);
    }
}

/// Issuing tokens for some plugins and then for others.
pub proof fn lemma_learns_both(
    before: ClaimantTokenIssuer,
    between: ClaimantTokenIssuer,
    after: ClaimantTokenIssuer,
    first: Seq<Seq<char>>,
    second: Seq<Seq<char>>,
)
    requires
        learns(before, between, first.to_set()),
        learns(between, after, second.to_set()),
    ensures
        learns(before, after, (first + second).to_set()),
{
    lemma_learns_chain(before, between, after, first.to_set(), second.to_set());
    lemma_joined_set(first, second);
}

/// The set of two sequences, one after the other.
pub proof fn lemma_joined_set(first: Seq<Seq<char>>, second: Seq<Seq<char>>)
    ensures
        (first + second).to_set() == first.to_set() + second.to_set(),
{
    let all = first + second;
    assert forall|n: Seq<char>| #[trigger]
        all.contains(n) == (first.contains(n) || second.contains(n)) by {
        if first.contains(n) {
            let i = choose|i: int| 0 <= i < first.len() && first[i] == n;
            assert(all[i] == n);
        }
        if second.contains(n) {
            let i = choose|i: int| 0 <= i < second.len() && second[i] == n;
            assert(all[first.len() + i] == n);
        }
    }
    assert(all.to_set() =~= first.to_set() + second.to_set());
}

/// Every name on one of the lists.
pub open spec fn all_names(lists: Seq<Seq<Seq<char>>>) -> Set<Seq<char>> {
    Set::new(
        |n: Seq<char>|
            exists|i: int| 0 <= i < lists.len() && (#[trigger] lists[i]).contains(n),
    )
}

/// Issuing tokens for the plugins of one more list.
pub proof fn lemma_learns_list(
    before: ClaimantTokenIssuer,
    between: ClaimantTokenIssuer,
    after: ClaimantTokenIssuer,
    lists: Seq<Seq<Seq<char>>>,
    next: Seq<Seq<char>>,
)
    requires
        learns(before, between, all_names(lists)),
        learns(between, after, next.to_set()),
    ensures
        learns(before, after, all_names(lists.push(next))),
{
    lemma_learns_chain(before, between, after, all_names(lists), next.to_set());
    let more = lists.push(next);
    assert forall|n: Seq<char>| #[trigger]
        all_names(more).contains(n) == (all_names(lists) + next.to_set()).contains(n) by {
        if all_names(lists).contains(n) {
            let i = choose|i: int| 0 <= i < lists.len() && (#[trigger] lists[i]).contains(n);
            assert(more[i].contains(n));
        }
        if next.contains(n) {
            assert(more[lists.len() as int].contains(n));
        }
        if all_names(more).contains(n) {
            let i = choose|i: int| 0 <= i < more.len() && (#[trigger] more[i]).contains(n);
            if i < lists.len() {
                assert(lists[i].contains(n));
            }
        }
    }
    assert(all_names(more) =~= all_names(lists) + next.to_set());
}

/// Issuing no token for no list.
pub proof fn lemma_learns_no_list(issuer: ClaimantTokenIssuer)
    ensures
        learns(issuer, issuer, all_names(Seq::empty())),
{
    lemma_learns_nothing(issuer);
    assert(all_names(Seq::empty()) =~= Set::<Seq<char>>::empty());
}

/// What an issuer knows, it knows with the same version after it has issued
/// more tokens.
pub proof fn law_knowledge_lasts(
    before: ClaimantTokenIssuer,
    after: ClaimantTokenIssuer,
    names: Set<Seq<char>>,
    plugin: Seq<char>,
    i: int,
)
    requires
        learns(before, after, names),
        before.known_at(plugin, i),
    ensures
        after.known_at(plugin, i),
        after.known@[i] == before.known@[i],
{
    lemma_known_stays(before, after, names, plugin, i);
    reveal(learns);
}

/// A token that resolves goes on to resolve when more tokens are issued.
pub proof fn law_resolution_lasts(
    before: ClaimantTokenIssuer,
    after: ClaimantTokenIssuer,
    names: Set<Seq<char>>,
    token: ClaimantToken,
)
    requires
        learns(before, after, names),
        before.resolvable(token),
    ensures
        after.resolvable(token),
{
    reveal(learns);
    let k = choose|k: int| #[trigger] before.resolves_to(token.text(), k);
    lemma_first_match(after, token.text(), k);
}

/// A token that resolves goes on to resolve when a version is recorded.
pub proof fn law_resolution_outlasts_a_version(
    before: ClaimantTokenIssuer,
    after: ClaimantTokenIssuer,
    plugin: Seq<char>,
    version: Seq<char>,
    token: ClaimantToken,
)
    requires
        versioned(before, after, plugin, version),
        before.resolvable(token),
    ensures
        after.resolvable(token),
{
    let k = choose|k: int| #[trigger] before.resolves_to(token.text(), k);
    if before.knows(plugin) {
        let i = choose|i: int| before.known_at(plugin, i);
        if k != i {
            assert(after.known@[k] == before.known@[k]);
        }
    } else {
        assert(after.known@.drop_last()[k] == before.known@[k]);
    }
    lemma_first_match(after, token.text(), k);
}

/// A token that was issued resolves: to the plugin it was issued for, or to a
/// known plugin with the same token.
pub proof fn law_issued_token_resolves(issuer: ClaimantTokenIssuer, plugin: Seq<char>)
    requires
        issuer.knows(plugin),
    ensures
        issuer.resolvable(issuer.token(plugin)),
{
    let i = choose|i: int| issuer.known_at(plugin, i);
    lemma_first_match(issuer, issuer.token(plugin).text(), i);
}

/// A token that no other known plugin shares resolves to its plugin, with the
/// version that is known of it.
pub proof fn law_own_token_resolves_to_its_plugin(
    issuer: ClaimantTokenIssuer,
    plugin: Seq<char>,
    i: int,
)
    requires
        issuer.known_at(plugin, i),
        forall|j: int|
            0 <= j < issuer.known@.len() && (#[trigger] issuer.known@[j]).name@ != plugin
                ==> issuer.token(issuer.known@[j].name@).text() != issuer.token(plugin).text(),
    ensures
        issuer.resolves_to(issuer.token(plugin).text(), i),
        forall|k: int| #[trigger]
            issuer.resolves_to(issuer.token(plugin).text(), k) ==> k == i,
{
    let raw = issuer.token(plugin).text();
    assert forall|k: int| #[trigger] issuer.resolves_to(raw, k) implies k == i by {
        if i < k {
            assert(issuer.token(issuer.known@[i].name@).text() == raw);
        }
    }
}

/// A token that was issued on the way from `before` to `after` resolves.
pub proof fn law_shown_token_resolves(
    before: ClaimantTokenIssuer,
    after: ClaimantTokenIssuer,
    names: Set<Seq<char>>,
    plugin: Seq<char>,
)
    requires
        learns(before, after, names),
        names.contains(plugin),
    ensures
        after.resolvable(token_of(before.instance_id@, plugin)),
{
    reveal(learns);
    law_issued_token_resolves(after, plugin);
}

proof fn lemma_first_match(issuer: ClaimantTokenIssuer, raw: Seq<char>, i: int)
    requires
        0 <= i < issuer.known@.len(),
        issuer.token(issuer.known@[i].name@).text() == raw,
    ensures
        exists|k: int| #[trigger] issuer.resolves_to(raw, k) && k <= i,
    decreases i,
{
    if exists|j: int|
        0 <= j < i && issuer.token((#[trigger] issuer.known@[j]).name@).text() == raw {
        let j = choose|j: int|
            0 <= j < i && issuer.token((#[trigger] issuer.known@[j]).name@).text() == raw;
        lemma_first_match(issuer, raw, j);
    } else {
        assert(issuer.resolves_to(raw, i));
    }
}

/// What a shared issuer keeps: the steward instance that it issues for, and the
/// plugins that it knew when it was shared.
pub struct Kept {
    pub instance_id: Seq<char>,
    pub names: Set<Seq<char>>,
}

impl RwLockPredicate<ClaimantTokenIssuer> for Kept {
    open spec fn inv(self, issuer: ClaimantTokenIssuer) -> bool {
        issuer.instance_id@ == self.instance_id && self.names.subset_of(issuer.names())
    }
}

/// The one issuer of a steward, for its surfaces to share. Whoever needs it
/// borrows it, alone, and gives it back.
pub struct SharedIssuer {
    lock: RwLock<ClaimantTokenIssuer, Kept>,
}

/// A borrowed issuer's place, kept for its return.
pub struct Loan<'a> {
    handle: WriteHandle<'a, ClaimantTokenIssuer, Kept>,
}

impl SharedIssuer {
    /// The steward instance that the issuer issues for.
    pub closed spec fn instance(&self) -> Seq<char> {
        self.lock.pred().instance_id
    }

    /// The plugins that every borrower finds known.
    pub closed spec fn lasting(&self) -> Set<Seq<char>> {
        self.lock.pred().names
    }

    /// Shares an issuer: what it knows by then, every borrower finds known.
    pub fn new(issuer: ClaimantTokenIssuer) -> (r: SharedIssuer)
        ensures
            r.instance() == issuer.instance_id@,
            r.lasting() == issuer.names(),
    {
        let ghost pred = Kept { instance_id: issuer.instance_id@, names: issuer.names() };
        SharedIssuer { lock: RwLock::new(issuer, Ghost(pred)) }
    }

    /// Borrows the issuer as its last borrower left it, once nobody else has it.
    /// Which plugins it knows besides the lasting ones is left unsaid: others may
    /// have borrowed it meanwhile.
    pub fn borrow_issuer(&self) -> (r: (ClaimantTokenIssuer, Loan<'_>))
        ensures
            r.0.instance_id@ == self.instance(),
            self.lasting().subset_of(r.0.names()),
            r.1.lender() == *self,
    {
        let (issuer, handle) = self.lock.acquire_write();
        (issuer, Loan { handle })
    }
}

impl<'a> Loan<'a> {
    /// Whose issuer it is.
    pub closed spec fn lender(&self) -> SharedIssuer {
        SharedIssuer { lock: self.handle.rwlock() }
    }

    /// Gives the issuer back for the next borrower.
    pub fn give_back(self, issuer: ClaimantTokenIssuer)
        requires
            issuer.instance_id@ == self.lender().instance(),
            self.lender().lasting().subset_of(issuer.names()),
    {
        self.handle.release_write(issuer);
    }
}

/// A borrowed issuer can be given back after it has issued tokens.
pub proof fn law_issuing_keeps_a_loan(
    shared: SharedIssuer,
    before: ClaimantTokenIssuer,
    after: ClaimantTokenIssuer,
    names: Set<Seq<char>>,
)
    requires
        before.instance_id@ == shared.instance(),
        shared.lasting().subset_of(before.names()),
        learns(before, after, names),
    ensures
        after.instance_id@ == shared.instance(),
        shared.lasting().subset_of(after.names()),
{
    assert(after.instance_id == before.instance_id) by {
        reveal(learns);
    }
    assert forall|n: Seq<char>| shared.lasting().contains(n) implies after.knows(n) by {
        assert(before.names().contains(n));
        let i = choose|i: int| before.known_at(n, i);
        lemma_known_stays(before, after, names, n, i);
    }
}

/// A borrowed issuer can be given back after it has recorded a version.
pub proof fn law_recording_keeps_a_loan(
    shared: SharedIssuer,
    before: ClaimantTokenIssuer,
    after: ClaimantTokenIssuer,
    plugin: Seq<char>,
    version: Seq<char>,
)
    requires
        before.instance_id@ == shared.instance(),
        shared.lasting().subset_of(before.names()),
        versioned(before, after, plugin, version),
    ensures
        after.instance_id@ == shared.instance(),
        shared.lasting().subset_of(after.names()),
{
    assert forall|n: Seq<char>| shared.lasting().contains(n) implies after.knows(n) by {
        assert(before.names().contains(n));
        let i = choose|i: int| before.known_at(n, i);
        assert forall|j: int| 0 <= j <= i implies (#[trigger] after.known@[j]).name@
            == before.known@[j].name@ by {
            if before.knows(plugin) {
                let k = choose|k: int| before.known_at(plugin, k);
                if j != k {
                    assert(after.known@[j] == before.known@[j]);
                }
            } else {
                assert(after.known@.drop_last()[j] == before.known@[j]);
            }
        }
        assert(after.known_at(n, i));
    }
}

/// The token of a plugin that was known when the issuer was shared resolves for
/// every borrower.
pub proof fn law_lasting_token_resolves(
    shared: SharedIssuer,
    issuer: ClaimantTokenIssuer,
    plugin: Seq<char>,
)
    requires
        issuer.instance_id@ == shared.instance(),
        shared.lasting().subset_of(issuer.names()),
        shared.lasting().contains(plugin),
    ensures
        issuer.resolvable(token_of(shared.instance(), plugin)),
{
    assert(issuer.names().contains(plugin));
    law_issued_token_resolves(issuer, plugin);
}

}
