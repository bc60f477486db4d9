//! Signed bearer tokens: issuing them, checking them against a clock, and
//! pulling them out of an `Authorization` header.
use vstd::prelude::*;
use crate::error::Error;
use crate::roles::{any_role_allowed, grants};
use crate::text::{
    chars_of, contains, occurs_at, find_from_exec, lemma_find_from, second_piece, trim, trimmed, views,
};
use cataclysm::http::Request;
use jsonwebtoken::{Algorithm, DecodingKey, EncodingKey, Header, Validation};

verus! {

/// cataclysm's HTTP request, opaque here: only its `Authorization` values
/// are read, through `authorization_values`.
#[verifier::external_type_specification]
#[verifier::external_body]
pub struct ExRequest(cataclysm::http::Request);

/// What a token asserts: who it is for, which roles they hold, and the
/// unix time (seconds) from which it is no longer accepted.
#[derive(Debug)]
pub struct BasicClaim {
    pub exp: u64,
    pub sub: String,
    pub roles: Vec<String>,
}

/// The two kinds of token; they differ only in how long they live.
#[derive(Clone, Copy, Debug, PartialEq, Eq, Structural)]
pub enum TokenType {
    Refresh,
    Access,
}

/// The signing secret and the base lifetime of tokens, in minutes. A
/// refresh token lives the base lifetime; an access token one minute more.
pub struct SigningConfig {
    pub secret: Vec<u8>,
    pub expiration_minutes: u64,
}

impl SigningConfig {
    /// The configuration that signs with `secret` and gives tokens a base
    /// lifetime of `expiration_minutes`.
    pub fn new(secret: Vec<u8>, expiration_minutes: u64) -> (r: Self)
        ensures
            r.secret@ == secret@,
            r.expiration_minutes == expiration_minutes,
    {
        SigningConfig { secret, expiration_minutes }
    }
}

/// What a decoded token's payload held: each claim that was present with
/// the expected JSON type, `None` for one missing or of another type.
pub struct ClaimFields {
    pub exp: Option<u64>,
    pub sub: Option<String>,
    pub roles: Option<Vec<String>>,
}

/// The HS512 token whose payload holds `sub`, `roles` and `exp`, signed
/// with `secret`: what jsonwebtoken's `encode` returns for them, which
/// depends on these values alone.
pub uninterp spec fn signed_token(sub: Seq<char>, roles: Seq<Seq<char>>, exp: u64, secret: Seq<u8>) -> Seq<char>;

/// The HS512 signature of `message` under `secret`, base64url-encoded: what
/// jsonwebtoken's HMAC signing returns, which depends on these values alone.
pub uninterp spec fn hs512_signature(message: Seq<char>, secret: Seq<u8>) -> Seq<char>;

/// `token` ends in a correct HS512 signature, under `secret`, of all that
/// comes before its last separator.
pub open spec fn signed_with(token: Seq<char>, secret: Seq<u8>) -> bool {
    exists|m: Seq<char>| token == m + seq!['.'] + #[trigger] hs512_signature(m, secret)
}

/// `r` rejects a credential as bad, with a reason that reads `text`.
pub open spec fn rejected_with(r: Result<BasicClaim, Error>, text: Seq<char>) -> bool {
    match r {
        Err(Error::BadCredentialReceived(reason)) => reason@ == text,
        _ => false,
    }
}

/// `r` rejects a credential as bad, and says why.
pub open spec fn rejected_with_reason(r: Result<BasicClaim, Error>) -> bool {
    match r {
        Err(Error::BadCredentialReceived(reason)) => reason@.len() > 0,
        _ => false,
    }
}

/// How many minutes a token of `kind` lives.
pub open spec fn lifetime_minutes(kind: TokenType, config: SigningConfig) -> int {
    match kind {
        TokenType::Refresh => config.expiration_minutes as int,
        TokenType::Access => config.expiration_minutes + 1,
    }
}

/// The expiry of a token of `kind` issued at `now`.
pub open spec fn expires_at(kind: TokenType, config: SigningConfig, now: u64) -> int {
    now + lifetime_minutes(kind, config) * 60
}

/// The token issued at `now` for `sub` with `roles`.
pub open spec fn issued_token(
    kind: TokenType,
    sub: Seq<char>,
    roles: Seq<Seq<char>>,
    config: SigningConfig,
    now: u64,
) -> Seq<char> {
    signed_token(sub, roles, expires_at(kind, config, now) as u64, config.secret@)
}

/// `c` holds exactly `sub`, `roles` and `exp`.
pub open spec fn claim_is(c: BasicClaim, sub: Seq<char>, roles: Seq<Seq<char>>, exp: u64) -> bool {
    c.sub@ == sub && views(c.roles@) == roles && c.exp == exp
}

/// `f` holds exactly `sub`, `roles` and `exp`.
pub open spec fn fields_are(f: ClaimFields, sub: Seq<char>, roles: Seq<Seq<char>>, exp: u64) -> bool {
    &&& f.exp == Some(exp)
    &&& f.sub is Some && f.sub->0@ == sub
    &&& f.roles is Some && views(f.roles->0@) == roles
}

/// What validation owes on a token that was signed with `secret`: the
/// claims it was signed with while `now` is before their expiry, a
/// rejection from then on.
pub open spec fn verdict_on_signed(token: Seq<char>, secret: Seq<u8>, now: u64, r: Result<BasicClaim, Error>) -> bool {
    forall|sub: Seq<char>, roles: Seq<Seq<char>>, exp: u64|
        token == #[trigger] signed_token(sub, roles, exp, secret) ==> {
            if now < exp {
                r is Ok && claim_is(r->Ok_0, sub, roles, exp)
            } else {
                r is Err && r->Err_0 is BadCredentialReceived
            }
        }
}

/// The headers that a request holds: each name with its values, in the
/// order they arrived.
pub uninterp spec fn request_headers(req: Request) -> Map<Seq<char>, Seq<Seq<char>>>;

/// The values of the request's `Authorization` headers, if it has any.
pub open spec fn authorization_of(req: Request) -> Option<Seq<Seq<char>>> {
    if request_headers(req).contains_key("Authorization"@) {
        Some(request_headers(req)["Authorization"@])
    } else {
        None
    }
}

/// Everything that validating `token` under `secret` at `now` owes: on a
/// token signed with the secret, its claims before their expiry and a
/// rejection from then on; claims only from a correctly signed token and
/// before their expiry; and otherwise a bad-credential rejection with a
/// reason.
pub open spec fn validation_of(token: Seq<char>, secret: Seq<u8>, now: u64, r: Result<BasicClaim, Error>) -> bool {
    &&& verdict_on_signed(token, secret, now, r)
    &&& r is Ok ==> now < r->Ok_0.exp && signed_with(token, secret)
    &&& r is Err ==> rejected_with_reason(r)
}

/// What the bearer flow decides once validation has given `validated`: a
/// validation failure is passed on unchanged; a validated claim is allowed
/// where `claim_allowed` holds, and `Unauthorized` otherwise.
pub open spec fn bearer_decision(validated: Result<BasicClaim, Error>, allowed: Seq<char>) -> Result<BasicClaim, Error> {
    match validated {
        Err(e) => Err(e),
        Ok(c) => if claim_allowed(c, allowed) {
            Ok(c)
        } else {
            Err(Error::Unauthorized)
        },
    }
}

/// The first of `vs`, at or after `k`, that contains `p`.
pub open spec fn first_holding(vs: Seq<Seq<char>>, p: Seq<char>, k: int) -> Option<int>
    decreases vs.len() - k,
{
    if k < 0 || k >= vs.len() {
        None
    } else if contains(vs[k], p) {
        Some(k)
    } else {
        first_holding(vs, p, k + 1)
    }
}

/// The token that the header values `values` carry after `prefix`: the
/// first value that contains `prefix` is split at it, and its second piece,
/// trimmed, is the token. Absent where there are no values, none contains
/// the prefix, or nothing is left after trimming.
pub open spec fn bearer_of(values: Option<Seq<Seq<char>>>, prefix: Seq<char>) -> Option<Seq<char>> {
    match values {
        None => None,
        Some(vs) => match first_holding(vs, prefix, 0) {
            None => None,
            Some(k) => match second_piece(vs[k], prefix) {
                None => None,
                Some(piece) => if trimmed(piece).len() == 0 {
                    None
                } else {
                    Some(trimmed(piece))
                },
            },
        },
    }
}

/// The views of the strings of an optional list.
pub open spec fn opt_views(values: Option<&Vec<String>>) -> Option<Seq<Seq<char>>> {
    match values {
        None => None,
        Some(v) => Some(views(v@)),
    }
}

/// The view of an optional string.
pub open spec fn opt_view(t: Option<String>) -> Option<Seq<char>> {
    match t {
        None => None,
        Some(s) => Some(s@),
    }
}

/// What the bearer flow decides on a validated claim: every claim passes an
/// empty list of allowed roles; otherwise one of its roles must be listed.
pub open spec fn claim_allowed(c: BasicClaim, allowed: Seq<char>) -> bool {
    allowed.len() == 0 || grants(views(c.roles@), allowed)
}

/// Relies on jsonwebtoken::encode with an HS512 header and an HMAC key made
/// from `secret`: the payload is the JSON object of the claim's three fields.
/// It does not fail here: the key is an HMAC key as the header's algorithm
/// asks, HMAC signing always succeeds, and a map of strings, numbers and
/// lists always serialises.
#[verifier::external_body]
fn sign_claim(claim: &BasicClaim, secret: &Vec<u8>) -> (r: Result<String, String>)
    ensures
        r is Ok,
        r->Ok_0@ == signed_token(claim.sub@, views(claim.roles@), claim.exp, secret@),
{
    let mut payload = serde_json::Map::new();
    payload.insert("exp".to_string(), claim.exp.into());
    payload.insert("sub".to_string(), claim.sub.clone().into());
    payload.insert("roles".to_string(), claim.roles.clone().into());
    let key = EncodingKey::from_secret(secret);
    jsonwebtoken::encode(&Header::new(Algorithm::HS512), &payload, &key).map_err(|e| e.to_string())
}

/// Relies on jsonwebtoken::decode with HS512 and an HMAC key made from
/// `secret`, with its own expiry check switched off: it checks the signature
/// and reads the JSON payload. On a token that `jsonwebtoken::encode` signed
/// with the same secret it gives back the claims signed. It accepts a token
/// only where its last piece is the HS512 signature, under `secret`, of what
/// comes before it. A failure comes back as the text of jsonwebtoken's
/// error, which is never empty.
#[verifier::external_body]
fn open_claim(token: &str, secret: &Vec<u8>) -> (r: Result<ClaimFields, String>)
    ensures
        r is Ok ==> exists|m: Seq<char>| token@ == m + seq!['.'] + #[trigger] hs512_signature(m, secret@),
        r is Err ==> r->Err_0@.len() > 0,
        forall|sub: Seq<char>, roles: Seq<Seq<char>>, exp: u64|
            token@ == #[trigger] signed_token(sub, roles, exp, secret@) ==> r is Ok && fields_are(r->Ok_0, sub, roles, exp),
{
    let mut check = Validation::new(Algorithm::HS512);
    check.validate_exp = false;
    let key = DecodingKey::from_secret(secret);
    let decoded = jsonwebtoken::decode::<serde_json::Map<String, serde_json::Value>>(token, &key, &check);
    let mut payload = decoded.map_err(|e| e.to_string())?.claims;
    Ok(ClaimFields {
        exp: payload.remove("exp").and_then(|v| serde_json::from_value(v).ok()),
        sub: payload.remove("sub").and_then(|v| serde_json::from_value(v).ok()),
        roles: payload.remove("roles").and_then(|v| serde_json::from_value(v).ok()),
    })
}

/// The expiry of a token of `kind` issued at `now`: `now` plus its lifetime.
pub fn expiration(kind: TokenType, config: &SigningConfig, now: u64) -> (r: u64)
    requires
        expires_at(kind, *config, now) <= u64::MAX,
    ensures
        r == expires_at(kind, *config, now),
{
    let minutes: u64 = match kind {
        TokenType::Refresh => config.expiration_minutes,
        TokenType::Access => config.expiration_minutes + 1,
    };
    now + minutes * 60
}

/// Issues a token of `token_type` for `sub` with `roles`, expiring its
/// lifetime after `now`. Fails only where signing fails.
pub fn create(token_type: TokenType, sub: String, roles: Vec<String>, config: &SigningConfig, now: u64) -> (r: Result<String, Error>)
    requires
        expires_at(token_type, *config, now) <= u64::MAX,
    ensures
        r is Ok,
        r->Ok_0@ == issued_token(token_type, sub@, views(roles@), *config, now),
{
    let exp = expiration(token_type, config, now);
    let claim = BasicClaim { exp, sub, roles };
    match sign_claim(&claim, &config.secret) {
        Ok(token) => Ok(token),
        Err(reason) => Err(Error::BadCredential(reason)),
    }
}

/// The claims of a decoded payload, accepted while `now` is before their
/// expiry. A decoding failure, a missing or mistyped claim, or an expired
/// one is rejected as a bad credential; the reason is the decoder's text,
/// `missing or malformed claims`, or `ExpiredSignature`.
pub fn accept_claim(decoded: Result<ClaimFields, String>, now: u64) -> (r: Result<BasicClaim, Error>)
    ensures
        match decoded {
            Err(reason) => r == Err::<BasicClaim, Error>(Error::BadCredentialReceived(reason)),
            Ok(f) => {
                if !(f.exp is Some && f.sub is Some && f.roles is Some) {
                    rejected_with(r, "missing or malformed claims"@)
                } else if now < f.exp->0 {
                    r is Ok && claim_is(r->Ok_0, f.sub->0@, views(f.roles->0@), f.exp->0)
                } else {
                    rejected_with(r, "ExpiredSignature"@)
                }
            },
        },
{
    match decoded {
        Err(reason) => Err(Error::BadCredentialReceived(reason)),
        Ok(f) => match (f.exp, f.sub, f.roles) {
            (Some(exp), Some(sub), Some(roles)) => {
                if now < exp {
                    Ok(BasicClaim { exp, sub, roles })
                } else {
                    Err(Error::BadCredentialReceived("ExpiredSignature".to_string()))
                }
            },
            _ => Err(Error::BadCredentialReceived("missing or malformed claims".to_string())),
        },
    }
}

/// Checks `jwt` against the signing secret and the clock `now`: its claims
/// if the signature holds and `now` is before their expiry, a bad
/// credential otherwise.
pub fn validate(jwt: String, config: &SigningConfig, now: u64) -> (r: Result<BasicClaim, Error>)
    ensures
        validation_of(jwt@, config.secret@, now, r),
{
    proof {
        reveal_strlit("missing or malformed claims");
        reveal_strlit("ExpiredSignature");
    }
    accept_claim(open_claim(jwt.as_str(), &config.secret), now)
}

/// Relies on cataclysm's Request::header, a lookup in the request's header
/// map: the values of its `Authorization` headers, if it has any.
#[verifier::external_body]
fn authorization_values(req: &Request) -> (r: Option<Vec<String>>)
    ensures
        r is Some <==> request_headers(*req).contains_key("Authorization"@),
        r matches Some(v) ==> views(v@) == request_headers(*req)["Authorization"@],
{
    req.header("Authorization").cloned()
}

/// The token that the header values `values` carry after `prefix`.
pub fn bearer_token(values: Option<&Vec<String>>, prefix: &str) -> (r: Option<String>)
    ensures
        opt_view(r) == bearer_of(opt_views(values), prefix@),
{
    let vs = match values {
        None => return None,
        Some(vs) => vs,
    };
    let ghost all = views(vs@);
    assert(opt_views(values) == Some(all));
    let p = chars_of(prefix);
    let mut k: usize = 0;
    while k < vs.len()
        invariant
            k <= vs.len(),
            all == views(vs@),
            opt_views(values) == Some(all),
            p@ == prefix@,
            first_holding(all, prefix@, 0) == first_holding(all, prefix@, k as int),
        decreases vs.len() - k,
    {
        let s = vs[k].as_str();
        let cs = chars_of(s);
        let n = cs.len();
        proof {
            lemma_find_from(cs@, p@, 0);
            assert(all[k as int] == cs@);
        }
        match find_from_exec(&cs, &p, 0) {
            Some(i) => {
                assert(occurs_at(cs@, p@, i as int));
                assert(contains(all[k as int], prefix@));
                let a = i + p.len();
                let end = if p.len() == 0 && a == cs.len() {
                    cs.len()
                } else {
                    let from = if p.len() == 0 { a + 1 } else { a };
                    proof {
                        lemma_find_from(cs@, p@, from as int);
                    }
                    match find_from_exec(&cs, &p, from) {
                        Some(j) => j,
                        None => cs.len(),
                    }
                };
                assert(second_piece(all[k as int], prefix@) == Some(cs@.subrange(a as int, end as int)));
                let token = trim(s.substring_char(a, end));
                assert(token@ == trimmed(cs@.subrange(a as int, end as int)));
                if token.as_str().is_empty() {
                    return None;
                }
                return Some(token);
            },
            None => {
                assert(!contains(all[k as int], prefix@));
            },
        }
        k = k + 1;
    }
    None
}

/// The token that the request's `Authorization` header carries after
/// `prefix`.
pub fn extact_from_request(req: Request, prefix: &str) -> (r: Option<String>)
    ensures
        opt_view(r) == bearer_of(authorization_of(req), prefix@),
{
    let values = authorization_values(&req);
    let r = match values {
        None => bearer_token(None, prefix),
        Some(vs) => bearer_token(Some(&vs), prefix),
    };
    r
}

/// The bearer flow's role check on a validated claim: the claim itself
/// where `all_allowed_roles` is empty or names one of its roles, and
/// `Unauthorized` otherwise.
pub fn authorize_claim(claim: BasicClaim, all_allowed_roles: &str) -> (r: Result<BasicClaim, Error>)
    ensures
        claim_allowed(claim, all_allowed_roles@) ==> r == Ok::<BasicClaim, Error>(claim),
        !claim_allowed(claim, all_allowed_roles@) ==> r == Err::<BasicClaim, Error>(Error::Unauthorized),
{
    if all_allowed_roles.is_empty() || any_role_allowed(&claim.roles, all_allowed_roles) {
        Ok(claim)
    } else {
        Err(Error::Unauthorized)
    }
}

/// The bearer flow's decision on a validation result: a failure passed on
/// unchanged, else the role check of `authorize_claim`.
pub fn decide_access(validated: Result<BasicClaim, Error>, all_allowed_roles: &str) -> (r: Result<BasicClaim, Error>)
    ensures
        r == bearer_decision(validated, all_allowed_roles@),
{
    match validated {
        Err(e) => Err(e),
        Ok(claim) => authorize_claim(claim, all_allowed_roles),
    }
}

/// Validates `token` and checks its roles against `all_allowed_roles`.
pub fn validate_access(token: String, all_allowed_roles: &str, config: &SigningConfig, now: u64) -> (r: Result<BasicClaim, Error>)
    ensures
        forall|sub: Seq<char>, roles: Seq<Seq<char>>, exp: u64|
            token@ == #[trigger] signed_token(sub, roles, exp, config.secret@) ==> {
                if now >= exp {
                    r is Err && r->Err_0 is BadCredentialReceived
                } else if all_allowed_roles@.len() == 0 || grants(roles, all_allowed_roles@) {
                    r is Ok && claim_is(r->Ok_0, sub, roles, exp)
                } else {
                    r == Err::<BasicClaim, Error>(Error::Unauthorized)
                }
            },
        exists|validated: Result<BasicClaim, Error>|
            validation_of(token@, config.secret@, now, validated) && r == #[trigger] bearer_decision(validated, all_allowed_roles@),
        r is Ok ==> now < r->Ok_0.exp && claim_allowed(r->Ok_0, all_allowed_roles@),
        r is Err ==> r->Err_0 is BadCredentialReceived || r->Err_0 is Unauthorized,
{
    let validated = validate(token, config, now);
    let ghost seen = validated;
    let r = decide_access(validated, all_allowed_roles);
    assert(validation_of(token@, config.secret@, now, seen) && r == bearer_decision(seen, all_allowed_roles@));
    r
}

/// The bearer guard on header values: `CredentialMissing` where they carry
/// no token after `prefix`, else what `validate_access` decides on it.
pub fn bearer_guard(values: Option<&Vec<String>>, prefix: &str, all_allowed_roles: &str, config: &SigningConfig, now: u64) -> (r: Result<BasicClaim, Error>)
    ensures
        bearer_of(opt_views(values), prefix@) is None ==> r == Err::<BasicClaim, Error>(Error::CredentialMissing),
        bearer_of(opt_views(values), prefix@) matches Some(t) ==> exists|validated: Result<BasicClaim, Error>|
            validation_of(t, config.secret@, now, validated) && r == #[trigger] bearer_decision(validated, all_allowed_roles@),
        bearer_of(opt_views(values), prefix@) matches Some(t) ==> forall|sub: Seq<char>, roles: Seq<Seq<char>>, exp: u64|
            t == #[trigger] signed_token(sub, roles, exp, config.secret@) ==> {
                if now >= exp {
                    r is Err && r->Err_0 is BadCredentialReceived
                } else if all_allowed_roles@.len() == 0 || grants(roles, all_allowed_roles@) {
                    r is Ok && claim_is(r->Ok_0, sub, roles, exp)
                } else {
                    r == Err::<BasicClaim, Error>(Error::Unauthorized)
                }
            },
        r is Ok ==> now < r->Ok_0.exp && claim_allowed(r->Ok_0, all_allowed_roles@),
{
    match bearer_token(values, prefix) {
        None => Err(Error::CredentialMissing),
        Some(token) => validate_access(token, all_allowed_roles, config, now),
    }
}

/// The bearer guard on a request: `CredentialMissing` where its
/// `Authorization` header carries no token after `prefix`, else what
/// `validate_access` decides on that token.
pub fn protect_request(req: Request, prefix: &str, all_allowed_roles: &str, config: &SigningConfig, now: u64) -> (r: Result<BasicClaim, Error>)
    ensures
        bearer_of(authorization_of(req), prefix@) is None ==> r == Err::<BasicClaim, Error>(Error::CredentialMissing),
        bearer_of(authorization_of(req), prefix@) matches Some(t) ==> exists|validated: Result<BasicClaim, Error>|
            validation_of(t, config.secret@, now, validated) && r == #[trigger] bearer_decision(validated, all_allowed_roles@),
        bearer_of(authorization_of(req), prefix@) matches Some(t) ==> forall|sub: Seq<char>, roles: Seq<Seq<char>>, exp: u64|
            t == #[trigger] signed_token(sub, roles, exp, config.secret@) ==> {
                if now >= exp {
                    r is Err && r->Err_0 is BadCredentialReceived
                } else if all_allowed_roles@.len() == 0 || grants(roles, all_allowed_roles@) {
                    r is Ok && claim_is(r->Ok_0, sub, roles, exp)
                } else {
                    r == Err::<BasicClaim, Error>(Error::Unauthorized)
                }
            },
        r is Ok ==> now < r->Ok_0.exp && claim_allowed(r->Ok_0, all_allowed_roles@),
        r is Err ==> r->Err_0 is CredentialMissing || r->Err_0 is BadCredentialReceived || r->Err_0 is Unauthorized,
{
    match extact_from_request(req, prefix) {
        None => Err(Error::CredentialMissing),
        Some(token) => validate_access(token, all_allowed_roles, config, now),
    }
}

/// Round trip: a token issued at `now`, for a kind whose lifetime is not
/// zero, is accepted when validated at that same `now`, and gives back the
/// subject and roles it was issued for and the expiry of its kind.
pub proof fn lemma_round_trip(
    kind: TokenType,
    sub: Seq<char>,
    roles: Seq<Seq<char>>,
    config: SigningConfig,
    now: u64,
    validated: Result<BasicClaim, Error>,
)
    requires
        lifetime_minutes(kind, config) > 0,
        expires_at(kind, config, now) <= u64::MAX,
        validation_of(issued_token(kind, sub, roles, config, now), config.secret@, now, validated),
    ensures
        validated is Ok,
        claim_is(validated->Ok_0, sub, roles, expires_at(kind, config, now) as u64),
{
    let exp = expires_at(kind, config, now) as u64;
    assert(issued_token(kind, sub, roles, config, now) == signed_token(sub, roles, exp, config.secret@));
}

/// Expiry boundary: a token issued at `issued_at` is rejected as a bad
/// credential when validated exactly at its expiry, and accepted one second
/// before it.
pub proof fn lemma_expiry_boundary(
    kind: TokenType,
    sub: Seq<char>,
    roles: Seq<Seq<char>>,
    config: SigningConfig,
    issued_at: u64,
    at_expiry: Result<BasicClaim, Error>,
    just_before: Result<BasicClaim, Error>,
)
    requires
        1 <= expires_at(kind, config, issued_at) <= u64::MAX,
        validation_of(
            issued_token(kind, sub, roles, config, issued_at),
            config.secret@,
            expires_at(kind, config, issued_at) as u64,
            at_expiry,
        ),
        validation_of(
            issued_token(kind, sub, roles, config, issued_at),
            config.secret@,
            (expires_at(kind, config, issued_at) - 1) as u64,
            just_before,
        ),
    ensures
        at_expiry is Err && at_expiry->Err_0 is BadCredentialReceived,
        just_before is Ok && claim_is(just_before->Ok_0, sub, roles, expires_at(kind, config, issued_at) as u64),
{
    let exp = expires_at(kind, config, issued_at) as u64;
    assert(issued_token(kind, sub, roles, config, issued_at) == signed_token(sub, roles, exp, config.secret@));
}

} // verus!
