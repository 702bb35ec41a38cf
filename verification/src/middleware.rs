use vstd::prelude::*;

use crate::error::Error;
use jsonwebtoken::{Algorithm, DecodingKey, Validation};
use serde::de::IgnoredAny;

verus! {

/// What the bearer token of a request claims about its caller.
#[derive(Debug, Clone)]
pub struct UserClaims {
    pub sub: String,
    pub exp: usize,
    pub scopes: Vec<String>,
}

/// The authentication layer: holds the PEM text of the public key that
/// bearer tokens are checked against.
pub struct JwtAuth {
    pub_key: String,
}

/// The authentication layer wrapped around the service `S` it guards.
pub struct JwtAuthMiddleware<S> {
    service: S,
    pub_key: String,
}

/// What the authentication layer does with a request, given its `Authorization` header.
#[derive(Debug)]
pub enum AuthStep {
    /// The request has no `Authorization` header: it goes on without claims.
    NoHeader,
    /// The header is not visible ASCII text: the request goes on without claims.
    UnreadableHeader,
    /// The token to check; when the check fails, the request goes on without claims.
    Decode(Vec<u8>),
}

/// The mathematical value of an [`AuthStep`].
pub enum AuthStepView {
    NoHeader,
    UnreadableHeader,
    Decode(Seq<u8>),
}

impl View for AuthStep {
    type V = AuthStepView;

    open spec fn view(&self) -> AuthStepView {
        match self {
            AuthStep::NoHeader => AuthStepView::NoHeader,
            AuthStep::UnreadableHeader => AuthStepView::UnreadableHeader,
            AuthStep::Decode(t) => AuthStepView::Decode(t@),
        }
    }
}

/// The bytes of the word `Bearer`, which precedes the token in the header.
pub open spec fn bearer_marker() -> Seq<u8> {
    seq![66u8, 101u8, 97u8, 114u8, 101u8, 114u8]
}

/// Whether a header byte is visible ASCII or a tab, the only bytes that
/// make a header readable as text.
pub open spec fn is_visible_ascii(b: u8) -> bool {
    (32 <= b && b < 127) || b == 9
}

/// Whether the header value `s` reads as text.
pub open spec fn is_header_text(s: Seq<u8>) -> bool {
    forall|i: int| 0 <= i < s.len() ==> #[trigger] is_visible_ascii(s[i])
}

/// Whether the byte `b` is an ASCII whitespace character.
pub open spec fn is_space(b: u8) -> bool {
    (9 <= b && b <= 13) || b == 32
}

/// `s` without its leading whitespace.
pub open spec fn trim_start(s: Seq<u8>) -> Seq<u8>
    decreases s.len(),
{
    if s.len() > 0 && is_space(s[0]) {
        trim_start(s.drop_first())
    } else {
        s
    }
}

/// `s` without its trailing whitespace.
pub open spec fn trim_end(s: Seq<u8>) -> Seq<u8>
    decreases s.len(),
{
    if s.len() > 0 && is_space(s.last()) {
        trim_end(s.drop_last())
    } else {
        s
    }
}

/// `s` without its leading and trailing whitespace.
pub open spec fn trim(s: Seq<u8>) -> Seq<u8> {
    trim_end(trim_start(s))
}

/// Whether the word `Bearer` starts at position `i` of `s`.
pub open spec fn marker_at(s: Seq<u8>, i: int) -> bool {
    0 <= i && i + 6 <= s.len() && s.subrange(i, i + 6) == bearer_marker()
}

/// The first position at or after `from` where the word `Bearer` starts,
/// or the length of `s` where there is none.
pub open spec fn next_marker(s: Seq<u8>, from: int) -> int
    decreases s.len() - from,
{
    if from < 0 || from + 6 > s.len() {
        s.len() as int
    } else if marker_at(s, from) {
        from
    } else {
        next_marker(s, from + 1)
    }
}

/// Whether the word `Bearer` occurs in `s`.
pub open spec fn has_marker(s: Seq<u8>) -> bool {
    next_marker(s, 0) < s.len()
}

/// The token of the header value `s`: the text between the first `Bearer`
/// and the next one (or the end), without surrounding whitespace.
pub open spec fn spec_bearer_token(s: Seq<u8>) -> Seq<u8> {
    let start = next_marker(s, 0) + 6;
    trim(s.subrange(start, next_marker(s, start)))
}

/// What the authentication layer does with a request whose `Authorization`
/// header is `header`.
pub open spec fn spec_auth_step(header: Option<Seq<u8>>) -> AuthStepView {
    match header {
        None => AuthStepView::NoHeader,
        Some(h) => if is_header_text(h) {
            AuthStepView::Decode(spec_bearer_token(h))
        } else {
            AuthStepView::UnreadableHeader
        },
    }
}

/// Whether `pem` holds a public RSA key in PEM form that
/// `jsonwebtoken::DecodingKey::from_rsa_pem` accepts.
pub uninterp spec fn is_rsa_public_key_pem(pem: Seq<u8>) -> bool;

/// Whether jsonwebtoken's signature check, with RS256 as the only algorithm
/// allowed, accepts `token` as signed by the key that `pem` holds.
pub uninterp spec fn rs256_signed_by(token: Seq<u8>, pem: Seq<u8>) -> bool;

/// Calls `jsonwebtoken::DecodingKey::from_rsa_pem` on `pem` and tells whether it
/// accepted the key; its result depends on `pem` alone.
#[verifier::external_body]
fn rsa_key_parses(pem: &[u8]) -> (ok: bool)
    ensures
        ok == is_rsa_public_key_pem(pem@),
{
    DecodingKey::from_rsa_pem(pem).is_ok()
}

/// Calls `jsonwebtoken::decode` on `token` with the key from
/// `DecodingKey::from_rsa_pem(pem)` and `Validation::new(Algorithm::RS256)`,
/// ignoring the claims' contents, and tells whether it succeeded; a token that
/// is not UTF-8, or a key that does not parse, fails. Success means the
/// signature check passed; beyond that, `decode` also checks the `exp` claim
/// against the current time (with 60 s leeway) and rejects an `aud` claim, so
/// nothing is claimed of a failure.
#[verifier::external_body]
fn token_verifies(token: &[u8], pem: &[u8]) -> (ok: bool)
    ensures
        ok ==> rs256_signed_by(token@, pem@),
{
    match (std::str::from_utf8(token), DecodingKey::from_rsa_pem(pem)) {
        (Ok(text), Ok(key)) => jsonwebtoken::decode::<IgnoredAny>(
            text,
            &key,
            &Validation::new(Algorithm::RS256),
        ).is_ok(),
        _ => false,
    }
}

/// A header that reads as text gives a token that reads as text.
proof fn lemma_token_is_text(s: Seq<u8>)
    requires
        is_header_text(s),
        has_marker(s),
    ensures
        is_header_text(spec_bearer_token(s)),
{
    lemma_next_marker_bounds(s, 0);
    let start = next_marker(s, 0) + 6;
    lemma_next_marker_bounds(s, start);
    lemma_trim_is_subrange(s.subrange(start, next_marker(s, start)));
}

/// Trimming keeps a contiguous part of the sequence.
proof fn lemma_trim_is_subrange(s: Seq<u8>)
    ensures
        exists|a: int, b: int| 0 <= a <= b <= s.len() && trim(s) == s.subrange(a, b),
    decreases s.len(),
{
    lemma_trim_start_is_suffix(s);
    let a = choose|a: int| 0 <= a <= s.len() && trim_start(s) == s.subrange(a, s.len() as int);
    lemma_trim_end_is_prefix(trim_start(s));
    let b = choose|b: int| 0 <= b <= trim_start(s).len() && trim_end(trim_start(s)) == trim_start(s).subrange(0, b);
    assert(trim(s) =~= s.subrange(a, a + b));
}

/// Trimming the start keeps a suffix.
proof fn lemma_trim_start_is_suffix(s: Seq<u8>)
    ensures
        exists|a: int| 0 <= a <= s.len() && trim_start(s) == s.subrange(a, s.len() as int),
    decreases s.len(),
{
    if s.len() > 0 && is_space(s[0]) {
        lemma_trim_start_is_suffix(s.drop_first());
        let a = choose|a: int| 0 <= a <= s.drop_first().len() && trim_start(s.drop_first()) == s.drop_first().subrange(a, s.drop_first().len() as int);
        assert(s.drop_first().subrange(a, s.drop_first().len() as int) =~= s.subrange(a + 1, s.len() as int));
    } else {
        assert(s =~= s.subrange(0, s.len() as int));
    }
}

/// Trimming the end keeps a prefix.
proof fn lemma_trim_end_is_prefix(s: Seq<u8>)
    ensures
        exists|b: int| 0 <= b <= s.len() && trim_end(s) == s.subrange(0, b),
    decreases s.len(),
{
    if s.len() > 0 && is_space(s.last()) {
        lemma_trim_end_is_prefix(s.drop_last());
        let b = choose|b: int| 0 <= b <= s.drop_last().len() && trim_end(s.drop_last()) == s.drop_last().subrange(0, b);
        assert(s.drop_last().subrange(0, b) =~= s.subrange(0, b));
    } else {
        assert(s =~= s.subrange(0, s.len() as int));
    }
}

/// The search for the word `Bearer` ends between `from` and the end of `s`.
proof fn lemma_next_marker_bounds(s: Seq<u8>, from: int)
    requires
        0 <= from <= s.len(),
    ensures
        from <= next_marker(s, from) <= s.len(),
        next_marker(s, from) < s.len() ==> marker_at(s, next_marker(s, from)),
    decreases s.len() - from,
{
    if from + 6 <= s.len() && !marker_at(s, from) {
        lemma_next_marker_bounds(s, from + 1);
    }
}

/// Where `Bearer` starts nowhere at or after `from`, the search reaches the end.
proof fn lemma_next_marker_none(s: Seq<u8>, from: int)
    requires
        0 <= from <= s.len(),
        forall|k: int| from <= k < s.len() ==> !marker_at(s, k),
    ensures
        next_marker(s, from) == s.len(),
    decreases s.len() - from,
{
    if from + 6 <= s.len() {
        lemma_next_marker_none(s, from + 1);
    }
}

/// Trimming a sequence that starts and ends with no whitespace changes nothing.
proof fn lemma_trim_of_unspaced(t: Seq<u8>)
    requires
        t.len() > 0 ==> !is_space(t[0]) && !is_space(t.last()),
    ensures
        trim(t) == t,
{
}

/// A header of the form `Bearer <token>`, with one space between the two and a
/// token that holds no `Bearer` and starts and ends with no whitespace, yields
/// that token.
pub proof fn lemma_bearer_token_round_trip(t: Seq<u8>)
    requires
        t.len() > 0 ==> !is_space(t[0]) && !is_space(t.last()),
        forall|k: int| 0 <= k < t.len() ==> !marker_at(t, k),
    ensures
        spec_bearer_token(bearer_marker() + seq![32u8] + t) == t,
{
    let s = bearer_marker() + seq![32u8] + t;
    assert(s.subrange(0, 6) =~= bearer_marker());
    assert(marker_at(s, 0));
    assert(next_marker(s, 0) == 0);
    assert forall|k: int| 6 <= k < s.len() implies !marker_at(s, k) by {
        if k == 6 {
            if marker_at(s, 6) {
                assert(s.subrange(6, 12)[0] == s[6]);
                assert(bearer_marker()[0] == 66u8);
            }
        } else if marker_at(s, k) {
            assert(t.subrange(k - 7, k - 1) =~= s.subrange(k, k + 6));
            assert(marker_at(t, k - 7));
        }
    }
    lemma_next_marker_none(s, 6);
    let rest = s.subrange(6, s.len() as int);
    assert(rest.drop_first() =~= t);
    assert(is_space(rest[0]));
    assert(trim_start(rest) == trim_start(t));
    lemma_trim_of_unspaced(t);
    if t.len() > 0 {
        assert(trim_start(t) == t);
    }
}

/// Whether `Bearer` starts at position `i` of `s`.
fn is_marker_at(s: &[u8], i: usize) -> (b: bool)
    ensures
        b == marker_at(s@, i as int),
{
    if i > s.len() || s.len() - i < 6 {
        return false;
    }
    let found = s[i] == 66 && s[i + 1] == 101 && s[i + 2] == 97 && s[i + 3] == 114 && s[i + 4]
        == 101 && s[i + 5] == 114;
    assert(found ==> s@.subrange(i as int, i + 6) =~= bearer_marker());
    assert(s@.subrange(i as int, i + 6) == bearer_marker() ==> found) by {
        if s@.subrange(i as int, i + 6) == bearer_marker() {
            assert(s@.subrange(i as int, i + 6)[0] == s@[i as int]);
            assert(s@.subrange(i as int, i + 6)[1] == s@[i + 1]);
            assert(s@.subrange(i as int, i + 6)[2] == s@[i + 2]);
            assert(s@.subrange(i as int, i + 6)[3] == s@[i + 3]);
            assert(s@.subrange(i as int, i + 6)[4] == s@[i + 4]);
            assert(s@.subrange(i as int, i + 6)[5] == s@[i + 5]);
        }
    }
    found
}

/// The first position at or after `from` where `Bearer` starts, or the length of `s`.
fn find_marker(s: &[u8], from: usize) -> (pos: usize)
    requires
        from <= s@.len(),
    ensures
        pos == next_marker(s@, from as int),
{
    let mut i = from;
    while i < s.len()
        invariant
            from <= i <= s@.len(),
            next_marker(s@, from as int) == next_marker(s@, i as int),
        decreases s@.len() - i,
    {
        if s.len() - i < 6 {
            return s.len();
        }
        if is_marker_at(s, i) {
            return i;
        }
        i = i + 1;
    }
    s.len()
}

/// Whether the header value `value` reads as text.
pub fn header_is_text(value: &[u8]) -> (b: bool)
    ensures
        b == is_header_text(value@),
{
    let mut i: usize = 0;
    while i < value.len()
        invariant
            i <= value@.len(),
            forall|j: int| 0 <= j < i ==> #[trigger] is_visible_ascii(value@[j]),
        decreases value@.len() - i,
    {
        let b = value[i];
        if !((32 <= b && b < 127) || b == 9) {
            assert(!is_visible_ascii(value@[i as int]));
            return false;
        }
        i = i + 1;
    }
    true
}

/// Whether the word `Bearer` occurs in the header value `value`.
pub fn has_bearer_marker(value: &[u8]) -> (b: bool)
    ensures
        b == has_marker(value@),
{
    find_marker(value, 0) < value.len()
}

/// The bounds of `s[lo..hi]` without its leading and trailing whitespace.
fn trimmed_bounds(s: &[u8], lo: usize, hi: usize) -> (r: (usize, usize))
    requires
        lo <= hi <= s@.len(),
    ensures
        lo <= r.0 <= r.1 <= hi,
        s@.subrange(r.0 as int, r.1 as int) == trim(s@.subrange(lo as int, hi as int)),
{
    let mut a = lo;
    while a < hi && (9 <= s[a] && s[a] <= 13 || s[a] == 32)
        invariant
            lo <= a <= hi <= s@.len(),
            trim_start(s@.subrange(lo as int, hi as int)) == trim_start(
                s@.subrange(a as int, hi as int),
            ),
        decreases hi - a,
    {
        assert(s@.subrange(a as int, hi as int).drop_first() =~= s@.subrange(a + 1, hi as int));
        a = a + 1;
    }
    assert(trim_start(s@.subrange(a as int, hi as int)) == s@.subrange(a as int, hi as int));
    let mut b = hi;
    while b > a && (9 <= s[b - 1] && s[b - 1] <= 13 || s[b - 1] == 32)
        invariant
            lo <= a <= b <= hi <= s@.len(),
            trim(s@.subrange(lo as int, hi as int)) == trim_end(s@.subrange(a as int, b as int)),
        decreases b - a,
    {
        assert(s@.subrange(a as int, b as int).drop_last() =~= s@.subrange(a as int, b - 1));
        b = b - 1;
    }
    (a, b)
}

/// The token of a header value that holds the word `Bearer`: the text
/// between the first `Bearer` and the next one (or the end), trimmed.
pub fn bearer_token(value: &[u8]) -> (token: Vec<u8>)
    requires
        has_marker(value@),
    ensures
        token@ == spec_bearer_token(value@),
        is_header_text(value@) ==> is_header_text(token@),
{
    proof {
        if is_header_text(value@) {
            lemma_token_is_text(value@);
        }
    }
    let n = value.len();
    let first = find_marker(value, 0);
    proof {
        lemma_next_marker_bounds(value@, 0);
        assert(marker_at(value@, first as int));
        assert(first + 6 <= value@.len());
    }
    let start = first + 6;
    let end = find_marker(value, start);
    proof {
        lemma_next_marker_bounds(value@, start as int);
    }
    let (a, b) = trimmed_bounds(value, start, end);
    let mut token: Vec<u8> = Vec::new();
    let mut i = a;
    while i < b
        invariant
            a <= i <= b <= value@.len(),
            token@ == value@.subrange(a as int, i as int),
        decreases b - i,
    {
        token.push(value[i]);
        assert(token@ =~= value@.subrange(a as int, i + 1));
        i = i + 1;
    }
    token
}

impl UserClaims {
    /// The claims that a handler receives: those the authentication layer
    /// attached to the request, or `Unauthorized` where it attached none.
    pub fn from_request(attached: Option<UserClaims>) -> (r: Result<UserClaims, Error>)
        ensures
            match attached {
                Some(c) => r == Ok::<UserClaims, Error>(c),
                None => r matches Err(Error::Unauthorized),
            },
    {
        match attached {
            None => Err(Error::Unauthorized),
            Some(claims) => Ok(claims),
        }
    }
}

impl JwtAuth {
    /// The PEM text of the public key held by the layer.
    pub closed spec fn key(&self) -> Seq<char> {
        self.pub_key@
    }

    /// The authentication layer that checks tokens against the public key
    /// whose PEM text is `pub_key`.
    pub fn new(pub_key: String) -> (auth: JwtAuth)
        ensures
            auth.key() == pub_key@,
    {
        JwtAuth { pub_key }
    }

    /// The PEM text of the public key.
    pub fn pub_key(&self) -> (key: &String)
        ensures
            key@ == self.key(),
    {
        &self.pub_key
    }

    /// The layer wrapped around `service`, with the same key.
    pub fn new_transform<S>(&self, service: S) -> (m: JwtAuthMiddleware<S>)
        ensures
            m.guarded() == service,
            m.key() == self.key(),
    {
        JwtAuthMiddleware { service, pub_key: self.pub_key.clone() }
    }
}

impl<S> JwtAuthMiddleware<S> {
    /// The service behind the layer.
    pub closed spec fn guarded(&self) -> S {
        self.service
    }

    /// The PEM text of the public key held by the layer.
    pub closed spec fn key(&self) -> Seq<char> {
        self.pub_key@
    }

    /// The service behind the layer.
    pub fn service(&self) -> (service: &S)
        ensures
            *service == self.guarded(),
    {
        &self.service
    }

    /// The PEM text of the public key.
    pub fn pub_key(&self) -> (key: &String)
        ensures
            key@ == self.key(),
    {
        &self.pub_key
    }

    /// The bytes of the PEM text of the public key.
    pub closed spec fn key_bytes(&self) -> Seq<u8> {
        vstd::utf8::encode_utf8(self.pub_key@)
    }

    /// Whether the held key is a public RSA key that tokens can be checked against.
    pub fn key_is_valid(&self) -> (ok: bool)
        ensures
            ok == is_rsa_public_key_pem(self.key_bytes()),
    {
        rsa_key_parses(self.pub_key.as_str().as_bytes())
    }

    /// The claims to attach to a request: `parsed`, the claims read from its
    /// token, where the token verified, and none where it did not.
    pub fn claims_to_attach(verified: bool, parsed: Option<UserClaims>) -> (c: Option<UserClaims>)
        ensures
            c == (if verified {
                parsed
            } else {
                None::<UserClaims>
            }),
    {
        if verified {
            parsed
        } else {
            None
        }
    }

    /// Checks `token` against the held key, and gives the claims to attach:
    /// `parsed` where the check passes, none where it fails. Claims are
    /// attached only for a token signed with RS256 by the held key.
    pub fn attach_claims(&self, token: &[u8], parsed: Option<UserClaims>) -> (c: Option<UserClaims>)
        ensures
            c is Some ==> rs256_signed_by(token@, self.key_bytes()) && c == parsed,
            parsed is None ==> c is None,
    {
        let verified = token_verifies(token, self.pub_key.as_str().as_bytes());
        Self::claims_to_attach(verified, parsed)
    }

    /// What the layer does with a request whose `Authorization` header is
    /// `header`. A readable header must hold the word `Bearer`.
    pub fn auth_step(&self, header: Option<&[u8]>) -> (step: AuthStep)
        requires
            match header {
                Some(h) => is_header_text(h@) ==> has_marker(h@),
                None => true,
            },
        ensures
            step@ == spec_auth_step(
                match header {
                    Some(h) => Some(h@),
                    None => None,
                },
            ),
            step matches AuthStep::Decode(t) ==> is_header_text(t@),
    {
        match header {
            None => AuthStep::NoHeader,
            Some(h) => {
                if header_is_text(h) {
                    AuthStep::Decode(bearer_token(h))
                } else {
                    AuthStep::UnreadableHeader
                }
            },
        }
    }
}

} // verus!
