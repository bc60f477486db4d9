//! Role lists carried in a session, and the session settings.
use vstd::prelude::*;
use crate::error::Error;
use crate::roles::{any_role_allowed, grants};
use crate::text::{role_list, split_trimmed, views};
use cataclysm::session::Session;

verus! {

/// cataclysm's session, opaque here: its entries are read through
/// `session_value`.
#[verifier::external_type_specification]
#[verifier::external_body]
#[verifier::reject_recursive_types(B)]
#[verifier::reject_recursive_types(P)]
pub struct ExSession<B, P>(cataclysm::session::Session<B, P>);

/// The parser that cataclysm's default session type names.
#[verifier::external_type_specification]
#[verifier::external_body]
pub struct ExJsonSessionParser(cataclysm::session::JsonSessionParser);

/// The string entries that a session holds, by key; empty where the request
/// has no session.
pub uninterp spec fn session_entries(s: Session) -> Map<Seq<char>, Seq<char>>;

/// Relies on cataclysm's Session, which dereferences to its optional
/// string-to-string map: the value stored under `key`, if any.
#[verifier::external_body]
fn session_value(session: &Session, key: &str) -> (r: Option<String>)
    ensures
        r is Some <==> session_entries(*session).contains_key(key@),
        r is Some ==> r->0@ == session_entries(*session)[key@],
{
    session.as_ref().and_then(|entries| entries.get(key)).cloned()
}

/// The roles that a session value lists: its comma-separated pieces,
/// trimmed, empty ones kept; `CredentialMissing` where there is no value.
pub fn roles_from_value(value: Option<&String>) -> (r: Result<Vec<String>, Error>)
    ensures
        value is None ==> r == Err::<Vec<String>, Error>(Error::CredentialMissing),
        value matches Some(v) ==> r is Ok && views(r->Ok_0@) == role_list(v@),
{
    match value {
        None => Err(Error::CredentialMissing),
        Some(v) => Ok(split_trimmed(v.as_str())),
    }
}

/// The roles listed under `key` in the session.
pub fn extract_roles(key: &str, session: Session) -> (r: Result<Vec<String>, Error>)
    ensures
        !session_entries(session).contains_key(key@) ==> r == Err::<Vec<String>, Error>(Error::CredentialMissing),
        session_entries(session).contains_key(key@) ==> r is Ok && views(r->Ok_0@) == role_list(session_entries(session)[key@]),
{
    match session_value(&session, key) {
        None => roles_from_value(None),
        Some(v) => roles_from_value(Some(&v)),
    }
}

/// Whether `user_roles` holds one of the comma-separated `all_allowed_roles`;
/// an empty list of allowed roles grants nothing by itself.
pub fn validate_access(user_roles: Vec<String>, all_allowed_roles: &str) -> (r: Result<(), Error>)
    ensures
        grants(views(user_roles@), all_allowed_roles@) ==> r is Ok,
        !grants(views(user_roles@), all_allowed_roles@) ==> r == Err::<(), Error>(Error::Unauthorized),
{
    if any_role_allowed(&user_roles, all_allowed_roles) {
        Ok(())
    } else {
        Err(Error::Unauthorized)
    }
}

/// The cookie guard on a session value: the roles it lists where one of
/// them is allowed; `CredentialMissing` without a value, `Unauthorized`
/// where none is allowed.
pub fn cookie_guard(value: Option<&String>, all_allowed_roles: &str) -> (r: Result<Vec<String>, Error>)
    ensures
        value is None ==> r == Err::<Vec<String>, Error>(Error::CredentialMissing),
        value matches Some(v) ==> {
            if grants(role_list(v@), all_allowed_roles@) {
                r is Ok && views(r->Ok_0@) == role_list(v@)
            } else {
                r == Err::<Vec<String>, Error>(Error::Unauthorized)
            }
        },
{
    let roles = match roles_from_value(value) {
        Ok(roles) => roles,
        Err(e) => return Err(e),
    };
    if any_role_allowed(&roles, all_allowed_roles) {
        Ok(roles)
    } else {
        Err(Error::Unauthorized)
    }
}

/// The cookie guard on the session's value under `key`.
pub fn session_guard(key: &str, session: &Session, all_allowed_roles: &str) -> (r: Result<Vec<String>, Error>)
    ensures
        !session_entries(*session).contains_key(key@) ==> r == Err::<Vec<String>, Error>(Error::CredentialMissing),
        session_entries(*session).contains_key(key@) ==> {
            let listed = role_list(session_entries(*session)[key@]);
            if grants(listed, all_allowed_roles@) {
                r is Ok && views(r->Ok_0@) == listed
            } else {
                r == Err::<Vec<String>, Error>(Error::Unauthorized)
            }
        },
{
    match session_value(session, key) {
        None => cookie_guard(None, all_allowed_roles),
        Some(v) => cookie_guard(Some(&v), all_allowed_roles),
    }
}

/// The settings of the session cookie.
pub struct CookieSession {
    pub name: String,
    pub secret: String,
    pub domain: String,
    pub max_age_secs: u64,
    pub secure: bool,
}

/// The letter-case-folded code of an ASCII letter; other characters keep
/// their code.
pub open spec fn ascii_folded(c: char) -> u32 {
    let u = c as u32;
    if 0x41 <= u && u <= 0x5a {
        (u + 0x20) as u32
    } else {
        u
    }
}

/// `s` reads `true` in any letter case.
pub open spec fn reads_true(s: Seq<char>) -> bool {
    &&& s.len() == 4
    &&& ascii_folded(s[0]) == 0x74
    &&& ascii_folded(s[1]) == 0x72
    &&& ascii_folded(s[2]) == 0x75
    &&& ascii_folded(s[3]) == 0x65
}

fn ascii_folded_exec(c: char) -> (r: u32)
    ensures
        r == ascii_folded(c),
{
    let u = c as u32;
    if 0x41 <= u && u <= 0x5a {
        u + 0x20
    } else {
        u
    }
}

/// Whether `s` reads `true` in any letter case.
pub fn is_true_flag(s: &str) -> (r: bool)
    ensures
        r == reads_true(s@),
{
    if s.unicode_len() != 4 {
        return false;
    }
    ascii_folded_exec(s.get_char(0)) == 0x74 && ascii_folded_exec(s.get_char(1)) == 0x72
        && ascii_folded_exec(s.get_char(2)) == 0x75 && ascii_folded_exec(s.get_char(3)) == 0x65
}

impl CookieSession {
    /// The settings from what configuration supplied: the name defaults to
    /// `cataclysm-auth`, an unset or empty domain to `localhost`, the
    /// maximum age to 60 seconds; the cookie is secure unless a flag is
    /// given that does not read `true`.
    pub fn from_settings(
        secret: String,
        name: Option<String>,
        domain: Option<String>,
        max_age_secs: Option<u64>,
        secure: Option<String>,
    ) -> (r: Self)
        ensures
            r.secret == secret,
            name matches Some(n) ==> r.name == n,
            name is None ==> r.name@ == "cataclysm-auth"@,
            domain is Some && domain->0@.len() > 0 ==> r.domain == domain->0,
            !(domain is Some && domain->0@.len() > 0) ==> r.domain@ == "localhost"@,
            max_age_secs matches Some(m) ==> r.max_age_secs == m,
            max_age_secs is None ==> r.max_age_secs == 60,
            secure matches Some(flag) ==> r.secure == reads_true(flag@),
            secure is None ==> r.secure,
    {
        let name = match name {
            Some(n) => n,
            None => "cataclysm-auth".to_string(),
        };
        let domain = match domain {
            Some(d) => if d.as_str().is_empty() {
                "localhost".to_string()
            } else {
                d
            },
            None => "localhost".to_string(),
        };
        let max_age_secs = match max_age_secs {
            Some(m) => m,
            None => 60,
        };
        let secure = match secure {
            Some(flag) => is_true_flag(flag.as_str()),
            None => true,
        };
        CookieSession { name, secret, domain, max_age_secs, secure }
    }
}

} // verus!
