use cataclysm_auth::error::Error;
use cataclysm_auth::jwt::{
    accept_claim, authorize_claim, bearer_guard, decide_access, bearer_token, create, expiration, validate,
    validate_access, BasicClaim, ClaimFields, SigningConfig, TokenType,
};

const NOW: u64 = 1_700_000_000;

fn config() -> SigningConfig {
    SigningConfig::new(b"a signing secret".to_vec(), 5)
}

fn roles(list: &[&str]) -> Vec<String> {
    list.iter().map(|r| r.to_string()).collect()
}

fn issue(kind: TokenType, sub: &str, list: &[&str]) -> String {
    create(kind, sub.to_owned(), roles(list), &config(), NOW).unwrap()
}

#[test]
fn access_outlives_refresh_by_one_minute() {
    let c = config();
    assert_eq!(expiration(TokenType::Access, &c, NOW), NOW + 6 * 60);
    assert_eq!(expiration(TokenType::Refresh, &c, NOW), NOW + 5 * 60);
}

#[test]
fn round_trip_gives_back_the_claims() {
    for (kind, minutes) in [(TokenType::Access, 6), (TokenType::Refresh, 5)] {
        let token = issue(kind, "S1", &["admin", "visor"]);
        assert_eq!(token.split('.').count(), 3);
        let claim = validate(token, &config(), NOW).unwrap();
        assert_eq!(claim.sub, "S1");
        assert_eq!(claim.roles, roles(&["admin", "visor"]));
        assert_eq!(claim.exp, NOW + minutes * 60);
    }
}

#[test]
fn round_trip_keeps_unusual_text() {
    let token = create(
        TokenType::Access,
        "sü\"b\\ject\n".to_owned(),
        roles(&["", " spaced ", "ünï"]),
        &config(),
        NOW,
    )
    .unwrap();
    let claim = validate(token, &config(), NOW).unwrap();
    assert_eq!(claim.sub, "sü\"b\\ject\n");
    assert_eq!(claim.roles, roles(&["", " spaced ", "ünï"]));
}

#[test]
fn expiry_boundary() {
    let token = issue(TokenType::Access, "S1", &["admin"]);
    let exp = NOW + 6 * 60;
    match validate(token.clone(), &config(), exp) {
        Err(Error::BadCredentialReceived(_)) => {}
        other => panic!("accepted at expiry: {:?}", other.map(|c| c.exp)),
    }
    assert_eq!(validate(token, &config(), exp - 1).unwrap().exp, exp);
}

#[test]
fn refresh_with_no_lifetime_is_expired_at_once() {
    let c = SigningConfig::new(b"k".to_vec(), 0);
    let token = create(TokenType::Refresh, "S1".to_owned(), vec![], &c, NOW).unwrap();
    assert!(matches!(validate(token, &c, NOW), Err(Error::BadCredentialReceived(_))));
}

#[test]
fn tampered_signature_is_rejected() {
    let token = issue(TokenType::Access, "S1", &["admin"]);
    let cut = token.rfind('.').unwrap() + 1;
    let bytes = token.as_bytes();
    for i in cut..bytes.len() {
        let mut forged = bytes.to_vec();
        forged[i] = if bytes[i] == b'A' { b'B' } else { b'A' };
        let forged = String::from_utf8(forged).unwrap();
        assert!(
            matches!(validate(forged, &config(), NOW), Err(Error::BadCredentialReceived(_))),
            "byte {} of the signature",
            i
        );
    }
}

#[test]
fn other_secret_or_garbage_is_rejected() {
    let token = issue(TokenType::Access, "S1", &["admin"]);
    let other = SigningConfig::new(b"another secret".to_vec(), 5);
    assert!(matches!(validate(token, &other, NOW), Err(Error::BadCredentialReceived(_))));
    assert!(matches!(validate("abc".to_owned(), &config(), NOW), Err(Error::BadCredentialReceived(_))));
    assert!(matches!(validate(String::new(), &config(), NOW), Err(Error::BadCredentialReceived(_))));
}

#[test]
fn accept_claim_checks_fields_and_clock() {
    let complete = || ClaimFields {
        exp: Some(NOW + 1),
        sub: Some("S1".to_owned()),
        roles: Some(roles(&["admin"])),
    };
    let claim = accept_claim(Ok(complete()), NOW).unwrap();
    assert_eq!((claim.exp, claim.sub.as_str()), (NOW + 1, "S1"));
    assert!(matches!(accept_claim(Ok(complete()), NOW + 1), Err(Error::BadCredentialReceived(_))));
    let mut missing = complete();
    missing.roles = None;
    assert!(matches!(accept_claim(Ok(missing), NOW), Err(Error::BadCredentialReceived(_))));
    match accept_claim(Err("InvalidSignature".to_owned()), NOW) {
        Err(Error::BadCredentialReceived(reason)) => assert_eq!(reason, "InvalidSignature"),
        _ => panic!("decoding failure not passed on"),
    }
}

#[test]
fn bearer_extraction() {
    let header = vec!["Bearer abc123".to_owned()];
    assert_eq!(bearer_token(Some(&header), "Bearer"), Some("abc123".to_owned()));
    assert_eq!(bearer_token(None, "Bearer"), None);
    let basic = vec!["Basic xyz".to_owned()];
    assert_eq!(bearer_token(Some(&basic), "Bearer"), None);
}

#[test]
fn bearer_extraction_edges() {
    let bare = vec!["Bearer   ".to_owned()];
    assert_eq!(bearer_token(Some(&bare), "Bearer"), None);
    let several = vec!["Basic xyz".to_owned(), "Bearer  first ".to_owned(), "Bearer second".to_owned()];
    assert_eq!(bearer_token(Some(&several), "Bearer"), Some("first".to_owned()));
    let repeated = vec!["Bearer a Bearer b".to_owned()];
    assert_eq!(bearer_token(Some(&repeated), "Bearer"), Some("a".to_owned()));
    let inside = vec!["Token: Bearer\tzz\u{3000}".to_owned()];
    assert_eq!(bearer_token(Some(&inside), "Bearer"), Some("zz".to_owned()));
    let empty = vec![];
    assert_eq!(bearer_token(Some(&empty), "Bearer"), None);
    let plain = vec!["abc".to_owned()];
    assert_eq!(bearer_token(Some(&plain), ""), Some("a".to_owned()));
}

fn admin_visor() -> BasicClaim {
    BasicClaim { exp: NOW + 60, sub: "S1".to_owned(), roles: roles(&["admin", "visor"]) }
}

#[test]
fn bearer_role_authorization() {
    assert!(authorize_claim(admin_visor(), "").is_ok());
    assert!(matches!(authorize_claim(admin_visor(), "super"), Err(Error::Unauthorized)));
    assert!(authorize_claim(admin_visor(), "visor,editor").is_ok());
    assert!(authorize_claim(admin_visor(), " editor , admin ").is_ok());
    assert!(matches!(authorize_claim(admin_visor(), "Admin"), Err(Error::Unauthorized)));
}

#[test]
fn validate_access_on_a_token() {
    let token = issue(TokenType::Access, "S1", &["admin", "visor"]);
    assert_eq!(validate_access(token.clone(), "visor", &config(), NOW).unwrap().sub, "S1");
    assert!(matches!(validate_access(token.clone(), "owner", &config(), NOW), Err(Error::Unauthorized)));
    let late = NOW + 6 * 60;
    assert!(matches!(validate_access(token, "", &config(), late), Err(Error::BadCredentialReceived(_))));
}

#[test]
fn end_to_end_bearer_guard() {
    let token = issue(TokenType::Access, "S1", &["admin", "visor"]);
    let header = vec![format!("Bearer {}", token)];
    let allowed = bearer_guard(Some(&header), "Bearer", "admin", &config(), NOW).unwrap();
    assert_eq!(allowed.sub, "S1");
    assert!(matches!(
        bearer_guard(Some(&header), "Bearer", "owner", &config(), NOW),
        Err(Error::Unauthorized)
    ));
    assert!(matches!(
        bearer_guard(None, "Bearer", "admin", &config(), NOW),
        Err(Error::CredentialMissing)
    ));
    let forged = vec!["Bearer not.a.token".to_owned()];
    assert!(matches!(
        bearer_guard(Some(&forged), "Bearer", "admin", &config(), NOW),
        Err(Error::BadCredentialReceived(_))
    ));
}

#[test]
fn error_messages() {
    assert_eq!(Error::CredentialMissing.message(), "Invalid credential for this resource");
    assert_eq!(Error::Unauthorized.message(), "Unauthorized for this resource");
    assert_eq!(
        Error::BadCredentialReceived("InvalidSignature".to_owned()).message(),
        "Malformed credential: `InvalidSignature`"
    );
    assert_eq!(Error::BadCredential("key".to_owned()).message(), "Can't create credential: `key`");
}

#[test]
fn rejections_say_why() {
    let expired = ClaimFields { exp: Some(NOW), sub: Some("S1".to_owned()), roles: Some(vec![]) };
    match accept_claim(Ok(expired), NOW) {
        Err(Error::BadCredentialReceived(reason)) => assert_eq!(reason, "ExpiredSignature"),
        _ => panic!("expired claim accepted"),
    }
    let partial = ClaimFields { exp: Some(NOW + 1), sub: None, roles: Some(vec![]) };
    match accept_claim(Ok(partial), NOW) {
        Err(Error::BadCredentialReceived(reason)) => assert_eq!(reason, "missing or malformed claims"),
        _ => panic!("partial claim accepted"),
    }
    match validate("a.b.c".to_owned(), &config(), NOW) {
        Err(Error::BadCredentialReceived(reason)) => assert!(!reason.is_empty()),
        _ => panic!("garbage accepted"),
    }
}

#[test]
fn validation_failure_is_passed_on() {
    let failed: Result<BasicClaim, Error> = Err(Error::BadCredentialReceived("InvalidSignature".to_owned()));
    match decide_access(failed, "") {
        Err(Error::BadCredentialReceived(reason)) => assert_eq!(reason, "InvalidSignature"),
        _ => panic!("failure not passed on"),
    }
    assert!(decide_access(Ok(admin_visor()), "").is_ok());
    assert!(matches!(decide_access(Ok(admin_visor()), "owner"), Err(Error::Unauthorized)));
    let token = issue(TokenType::Access, "S1", &["admin"]);
    let other = SigningConfig::new(b"another secret".to_vec(), 5);
    assert!(matches!(validate_access(token, "owner", &other, NOW), Err(Error::BadCredentialReceived(_))));
}

#[test]
fn same_inputs_give_the_same_token() {
    assert_eq!(issue(TokenType::Refresh, "S1", &["a"]), issue(TokenType::Refresh, "S1", &["a"]));
}
