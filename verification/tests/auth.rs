use attendance::auth::{
    authorize, authorize_claims, jwt_from_header, token_claims, Claims, LoginRequest, Role, BEARER,
    PERMANENT_TOKEN_LIFETIME, TOKEN_LIFETIME,
};
use attendance::error::Error;
use attendance::password::generate_password;

const ID: u128 = 0x67e5504410b1426f9247bb680e5fe0c8;
const ID_TEXT: &str = "67e55044-10b1-426f-9247-bb680e5fe0c8";

fn claims(role: &str, sub: &str, now: i64, lifetime: i64) -> Claims {
    Claims::issued_at(sub.to_string(), role.to_string(), now, lifetime)
}

#[test]
fn role_names_parse() {
    assert_eq!(Role::parse("Admin"), Ok(Role::Admin));
    assert_eq!(Role::parse("User"), Ok(Role::User));
    assert_eq!(Role::parse("admin"), Err(()));
    assert_eq!(Role::parse("Admin "), Err(()));
    assert_eq!(Role::parse(""), Err(()));
    assert_eq!("User".parse::<Role>(), Ok(Role::User));
    assert_eq!("Guest".parse::<Role>(), Err(()));
}

#[test]
fn role_names_round_trip() {
    assert_eq!(Role::Admin.to_string(), "Admin");
    assert_eq!(Role::User.to_string(), "User");
    for r in [Role::Admin, Role::User] {
        assert_eq!(Role::parse(&r.to_string()), Ok(r));
    }
}

#[test]
fn header_missing_or_not_text() {
    assert_eq!(jwt_from_header(None), Err(Error::NoAuthHeaderError));
    assert_eq!(jwt_from_header(Some(&[0x42, 0xff, 0x20])), Err(Error::NoAuthHeaderError));
}

#[test]
fn header_without_bearer_scheme() {
    assert_eq!(jwt_from_header(Some(b"Basic abc")), Err(Error::InvalidAuthHeaderError));
    assert_eq!(jwt_from_header(Some(b"bearer abc")), Err(Error::InvalidAuthHeaderError));
    assert_eq!(jwt_from_header(Some(b"Bearer")), Err(Error::InvalidAuthHeaderError));
    assert_eq!(jwt_from_header(Some(b"")), Err(Error::InvalidAuthHeaderError));
}

#[test]
fn header_with_bearer_token() {
    assert_eq!(jwt_from_header(Some(b"Bearer abc.def.ghi")), Ok("abc.def.ghi".to_string()));
    assert_eq!(jwt_from_header(Some(b"Bearer ")), Ok(String::new()));
    assert_eq!(jwt_from_header(Some(b"Bearer  x")), Ok(" x".to_string()));
    assert_eq!(jwt_from_header(Some("Bearer tök".as_bytes())), Ok("tök".to_string()));
}

#[test]
fn header_with_repeated_bearer_prefix() {
    assert_eq!(jwt_from_header(Some(b"Bearer Bearer Bearer t")), Ok("t".to_string()));
    assert_eq!(jwt_from_header(Some(b"Bearer Bearert")), Ok("Bearert".to_string()));
    let header = format!("{}{}", BEARER, "token");
    assert_eq!(jwt_from_header(Some(header.as_bytes())), Ok("token".to_string()));
}

#[test]
fn issued_claims_fields() {
    let c = claims("User", ID_TEXT, 1_000, 3_600);
    assert_eq!(c.iat, 1_000);
    assert_eq!(c.exp, 4_600);
    assert_eq!(c.role, "User");
    assert_eq!(c.sub, ID_TEXT);
}

#[test]
fn new_claims_last_an_hour() {
    let c = Claims::new("sub".to_string(), "Admin".to_string());
    assert_eq!(c.exp - c.iat, 3_600);
    assert_eq!(TOKEN_LIFETIME, 3_600);
    assert_eq!(c.role, "Admin");
    assert_eq!(c.sub, "sub");
    assert!(c.iat > 1_600_000_000);
}

#[test]
fn permanent_claims_last_52_weeks() {
    let c = Claims::new_permanent("sub".to_string(), "User".to_string());
    assert_eq!(c.exp - c.iat, 52 * 7 * 24 * 3_600);
    assert_eq!(PERMANENT_TOKEN_LIFETIME as usize, c.exp - c.iat);
}

#[test]
fn token_claims_name_the_employee() {
    let c = token_claims(ID, Role::User, false);
    assert_eq!(c.sub, ID_TEXT);
    assert_eq!(c.role, "User");
    assert_eq!(c.exp - c.iat, 3_600);
    let p = token_claims(ID, Role::Admin, true);
    assert_eq!(p.sub, ID_TEXT);
    assert_eq!(p.role, "Admin");
    assert_eq!(p.exp - p.iat, 31_449_600);
    assert_eq!(token_claims(0, Role::User, false).sub, "00000000-0000-0000-0000-000000000000");
}

#[test]
fn valid_token_admits_its_holder() {
    let c = claims("User", ID_TEXT, 1_000, 3_600);
    assert_eq!(authorize_claims(Role::User, &c, 1_000), Ok(ID));
    assert_eq!(authorize_claims(Role::User, &c, 4_600), Ok(ID));
    let upper = claims("User", "67E55044-10B1-426F-9247-BB680E5FE0C8", 1_000, 3_600);
    assert_eq!(authorize_claims(Role::User, &upper, 2_000), Ok(ID));
    let simple = claims("User", "67e5504410b1426f9247bb680e5fe0c8", 1_000, 3_600);
    assert_eq!(authorize_claims(Role::User, &simple, 2_000), Ok(ID));
}

#[test]
fn expired_token_refused() {
    let c = claims("User", ID_TEXT, 1_000, 3_600);
    assert_eq!(authorize_claims(Role::User, &c, 4_601), Err(Error::JWTExpiredError));
    assert_eq!(authorize_claims(Role::Admin, &c, 4_601), Err(Error::JWTExpiredError));
}

#[test]
fn wrong_role_refused() {
    let c = claims("User", ID_TEXT, 1_000, 3_600);
    assert_eq!(authorize_claims(Role::Admin, &c, 2_000), Err(Error::NoPermissionError));
    let a = claims("Admin", ID_TEXT, 1_000, 3_600);
    assert_eq!(authorize_claims(Role::User, &a, 2_000), Err(Error::NoPermissionError));
    assert_eq!(authorize_claims(Role::Admin, &a, 2_000), Ok(ID));
}

#[test]
fn unreadable_claims_refused() {
    let bad_role = claims("Manager", ID_TEXT, 1_000, 3_600);
    assert_eq!(authorize_claims(Role::User, &bad_role, 2_000), Err(Error::ParseError));
    assert_eq!(authorize_claims(Role::User, &bad_role, 9_999), Err(Error::ParseError));
    let bad_sub = claims("User", "not-a-uuid", 1_000, 3_600);
    assert_eq!(authorize_claims(Role::User, &bad_sub, 2_000), Err(Error::ParseError));
    assert_eq!(authorize_claims(Role::User, &bad_sub, 9_999), Err(Error::JWTExpiredError));
}

#[test]
fn fresh_token_admits_now() {
    let c = token_claims(ID, Role::Admin, false);
    assert_eq!(authorize(Role::Admin, &c), Ok(ID));
    assert_eq!(authorize(Role::User, &c), Err(Error::NoPermissionError));
    let old = claims("Admin", ID_TEXT, 1_000, 3_600);
    assert_eq!(authorize(Role::Admin, &old), Err(Error::JWTExpiredError));
}

fn login(password: &str, permanent: Option<bool>) -> LoginRequest {
    LoginRequest { email: "a@b".to_string(), password: password.to_string(), permanent }
}

#[test]
fn login_with_stored_password() {
    let stored = generate_password("secret", ID);
    assert_eq!(login("secret", None).check(ID, &stored, "User"), Ok(Role::User));
    assert_eq!(login("secret", Some(false)).check(ID, &stored, "Admin"), Ok(Role::Admin));
}

#[test]
fn login_with_wrong_password() {
    let stored = generate_password("secret", ID);
    assert_eq!(login("Secret", None).check(ID, &stored, "User"), Err(Error::WrongCredentialsError));
    assert_eq!(login("secret", None).check(ID + 1, &stored, "User"), Err(Error::WrongCredentialsError));
    assert_eq!(login("secret", None).check(ID, &stored, "Boss"), Err(Error::ParseError));
    assert_eq!(login("x", None).check(ID, &stored, "Boss"), Err(Error::WrongCredentialsError));
}

#[test]
fn login_token_lifetime() {
    let short = login("p", None).token_claims(ID, Role::User);
    assert_eq!(short.exp - short.iat, 3_600);
    let short2 = login("p", Some(false)).token_claims(ID, Role::User);
    assert_eq!(short2.exp - short2.iat, 3_600);
    let long = login("p", Some(true)).token_claims(ID, Role::User);
    assert_eq!(long.exp - long.iat, 31_449_600);
    assert_eq!(long.sub, ID_TEXT);
    assert_eq!(long.role, "User");
}

#[test]
fn access_token_cookie_text() {
    assert_eq!(attendance::auth::access_token_cookie("a.b.c"), "access_token=a.b.c");
    assert_eq!(attendance::auth::access_token_cookie(""), "access_token=");
}
