//! Roles, access-token claims, and the rules that decide whether a request
//! carries a valid token.

use vstd::prelude::*;
use vstd::string::StrSliceExecFns;
use vstd::utf8::{decode_utf8, valid_utf8};

use crate::error::Error;
use crate::ids::{parse_uuid, uuid_parse, uuid_text, uuid_to_text};

verus! {

/// What an employee may do.
#[derive(Clone, Copy, Debug, PartialEq, Eq, Structural)]
pub enum Role {
    Admin,
    User,
}

/// The name under which a role is stored and carried in tokens.
pub open spec fn role_name(r: Role) -> Seq<char> {
    match r {
        Role::Admin => "Admin"@,
        Role::User => "User"@,
    }
}

/// The role that a name stands for, if any.
pub open spec fn role_parse(s: Seq<char>) -> Option<Role> {
    if s == "Admin"@ {
        Some(Role::Admin)
    } else if s == "User"@ {
        Some(Role::User)
    } else {
        None
    }
}

impl Role {
    /// Reads a role from its name; any other text is refused.
    pub fn parse(s: &str) -> (r: Result<Role, ()>)
        ensures
            r == (match role_parse(s@) {
                Some(role) => Ok(role),
                None => Err(()),
            }),
    {
        if crate::text::str_eq(s, "Admin") {
            Ok(Role::Admin)
        } else if crate::text::str_eq(s, "User") {
            Ok(Role::User)
        } else {
            Err(())
        }
    }

    /// The role's name.
    pub fn to_string(&self) -> (s: String)
        ensures
            s@ == role_name(*self),
    {
        match self {
            Role::Admin => "Admin".to_owned(),
            Role::User => "User".to_owned(),
        }
    }
}

impl std::str::FromStr for Role {
    type Err = ();

    fn from_str(s: &str) -> (r: Result<Role, ()>)
        ensures
            r == (match role_parse(s@) {
                Some(role) => Ok(role),
                None => Err(()),
            }),
    {
        Role::parse(s)
    }
}

/// The claims that an access token carries: expiry and issue time (Unix
/// seconds), the holder's role name, and the holder's identifier
/// (hyphenated form).
pub struct Claims {
    pub exp: usize,
    pub iat: usize,
    pub role: String,
    pub sub: String,
}

/// How long an ordinary token lasts: one hour, in seconds.
pub const TOKEN_LIFETIME: i64 = 3600;

/// How long a permanent token lasts: 52 weeks, in seconds.
pub const PERMANENT_TOKEN_LIFETIME: i64 = 31_449_600;

/// The last second that chrono's `DateTime<Utc>` can hold
/// (31 December 262142, 23:59:59 UTC).
pub const MAX_TIMESTAMP: i64 = 8_210_266_876_799;

/// Whether `c` was issued at `now` for `lifetime` seconds to the holder
/// `sub` with role name `role`.
pub open spec fn issued(c: Claims, sub: Seq<char>, role: Seq<char>, now: i64, lifetime: i64) -> bool {
    &&& c.iat == now as usize
    &&& c.exp == (now + lifetime) as usize
    &&& c.sub@ == sub
    &&& c.role@ == role
}

/// `chrono::Utc::now().timestamp()`: the current time in whole seconds
/// since the Unix epoch. chrono panics when the system clock reads before
/// the epoch and never yields a time past `MAX_TIMESTAMP`; which time comes
/// out is left open.
#[verifier::external_body]
fn utc_now_timestamp() -> (t: i64)
    ensures
        0 <= t <= MAX_TIMESTAMP,
{
    chrono::Utc::now().timestamp()
}

impl Claims {
    /// Claims issued at `now` that expire `lifetime` seconds later.
    pub fn issued_at(sub: String, role: String, now: i64, lifetime: i64) -> (c: Claims)
        requires
            i64::MIN <= now + lifetime <= i64::MAX,
        ensures
            issued(c, sub@, role@, now, lifetime),
    {
        let exp = now + lifetime;
        Claims { exp: exp as usize, iat: now as usize, role, sub }
    }

    /// Claims issued now that expire in an hour.
    pub fn new(sub: String, role: String) -> (c: Claims)
        ensures
            exists|now: i64|
                0 <= now <= MAX_TIMESTAMP && #[trigger] issued(c, sub@, role@, now, TOKEN_LIFETIME),
    {
        let now = utc_now_timestamp();
        let c = Claims::issued_at(sub, role, now, TOKEN_LIFETIME);
        assert(issued(c, sub@, role@, now, TOKEN_LIFETIME));
        c
    }

    /// Claims issued now that expire in 52 weeks.
    pub fn new_permanent(sub: String, role: String) -> (c: Claims)
        ensures
            exists|now: i64|
                0 <= now <= MAX_TIMESTAMP && #[trigger] issued(
                    c,
                    sub@,
                    role@,
                    now,
                    PERMANENT_TOKEN_LIFETIME,
                ),
    {
        let now = utc_now_timestamp();
        let c = Claims::issued_at(sub, role, now, PERMANENT_TOKEN_LIFETIME);
        assert(issued(c, sub@, role@, now, PERMANENT_TOKEN_LIFETIME));
        c
    }
}

/// How long a token lasts, permanent or not.
pub open spec fn token_lifetime(permanent: bool) -> i64 {
    if permanent {
        PERMANENT_TOKEN_LIFETIME
    } else {
        TOKEN_LIFETIME
    }
}

/// The claims of a token for employee `id` with `role`, lasting 52 weeks
/// if `permanent`, else an hour.
pub fn token_claims(id: u128, role: Role, permanent: bool) -> (c: Claims)
    ensures
        exists|now: i64|
            0 <= now <= MAX_TIMESTAMP && #[trigger] issued(
                c,
                uuid_text(id),
                role_name(role),
                now,
                token_lifetime(permanent),
            ),
{
    let sub = uuid_to_text(id);
    let name = role.to_string();
    let ghost lifetime = token_lifetime(permanent);
    let c = if permanent {
        Claims::new_permanent(sub, name)
    } else {
        Claims::new(sub, name)
    };
    proof {
        let now = choose|now: i64|
            0 <= now <= MAX_TIMESTAMP && #[trigger] issued(c, uuid_text(id), role_name(role), now, lifetime);
        assert(issued(c, uuid_text(id), role_name(role), now, token_lifetime(permanent)));
    }
    c
}

/// The identifier that a token's subject names: the identifier whose
/// hyphenated form it is, if there is one, else what the UUID parser reads
/// from it.
pub open spec fn subject_id(sub: Seq<char>) -> Option<u128> {
    if exists|id: u128| sub == uuid_text(id) {
        Some(choose|id: u128| sub == uuid_text(id))
    } else {
        uuid_parse(sub)
    }
}

/// The answer to a request that needs `required` and carries a token
/// with role name `claim_role`, expiry `exp` and subject `sub`, at time
/// `now`: the holder's identifier, or why the request is refused.
pub open spec fn authorization(
    required: Role,
    claim_role: Seq<char>,
    exp: usize,
    sub: Seq<char>,
    now: usize,
) -> Result<u128, Error> {
    match role_parse(claim_role) {
        None => Err(Error::ParseError),
        Some(held) => if exp < now {
            Err(Error::JWTExpiredError)
        } else if required != held {
            Err(Error::NoPermissionError)
        } else {
            match subject_id(sub) {
                Some(id) => Ok(id),
                None => Err(Error::ParseError),
            }
        },
    }
}

/// Decides a request that needs `required` and carries `claims`, at time
/// `now`.
pub fn authorize_claims(required: Role, claims: &Claims, now: usize) -> (r: Result<u128, Error>)
    ensures
        r == authorization(required, claims.role@, claims.exp, claims.sub@, now),
{
    let held = match Role::parse(claims.role.as_str()) {
        Ok(role) => role,
        Err(()) => {
            return Err(Error::ParseError);
        },
    };
    if claims.exp < now {
        return Err(Error::JWTExpiredError);
    }
    if required != held {
        return Err(Error::NoPermissionError);
    }
    let parsed = parse_uuid(claims.sub.as_str());
    proof {
        if exists|id: u128| claims.sub@ == uuid_text(id) {
            let id = choose|id: u128| claims.sub@ == uuid_text(id);
            assert(parsed == Some(id));
        }
    }
    match parsed {
        Some(id) => Ok(id),
        None => Err(Error::ParseError),
    }
}

/// Decides a request that needs `required` and carries `claims`, now.
pub fn authorize(required: Role, claims: &Claims) -> (r: Result<u128, Error>)
    ensures
        exists|now: i64|
            0 <= now <= MAX_TIMESTAMP && r == #[trigger] authorization(
                required,
                claims.role@,
                claims.exp,
                claims.sub@,
                now as usize,
            ),
{
    let now = utc_now_timestamp();
    let r = authorize_claims(required, claims, now as usize);
    assert(r == authorization(required, claims.role@, claims.exp, claims.sub@, now as usize));
    r
}

/// The scheme that starts an `Authorization` header carrying a token.
pub const BEARER: &'static str = "Bearer ";

/// `s` with every leading copy of `p` removed (`str::trim_start_matches`
/// with a non-empty string pattern).
pub open spec fn trim_prefixes(s: Seq<char>, p: Seq<char>) -> Seq<char>
    decreases s.len(),
{
    if p.len() > 0 && p.is_prefix_of(s) {
        trim_prefixes(s.subrange(p.len() as int, s.len() as int), p)
    } else {
        s
    }
}

/// The token that an `Authorization` header holds, or why there is none:
/// a missing header, or one that is not UTF-8, counts as no header; one
/// that does not start with `"Bearer "` is invalid; otherwise the token
/// is the rest after every leading `"Bearer "`.
pub open spec fn header_token(header: Option<Seq<u8>>) -> Result<Seq<char>, Error> {
    match header {
        None => Err(Error::NoAuthHeaderError),
        Some(bytes) => if !valid_utf8(bytes) {
            Err(Error::NoAuthHeaderError)
        } else if !BEARER@.is_prefix_of(decode_utf8(bytes)) {
            Err(Error::InvalidAuthHeaderError)
        } else {
            Ok(trim_prefixes(decode_utf8(bytes), BEARER@))
        },
    }
}

/// `std::str::from_utf8(bytes).ok()`: the text that `bytes` encode, if
/// they are valid UTF-8.
#[verifier::external_body]
fn utf8_text(bytes: &[u8]) -> (r: Option<&str>)
    ensures
        r is Some <==> valid_utf8(bytes@),
        r matches Some(s) ==> s@ == decode_utf8(bytes@),
{
    std::str::from_utf8(bytes).ok()
}

/// Whether `s` from character `start` on begins with `p`.
fn prefix_at(s: &str, p: &str, start: usize) -> (r: bool)
    requires
        start <= s@.len(),
    ensures
        r == p@.is_prefix_of(s@.subrange(start as int, s@.len() as int)),
{
    let n = s.unicode_len();
    let m = p.unicode_len();
    if m > n - start {
        return false;
    }
    let ghost rest = s@.subrange(start as int, s@.len() as int);
    let mut i: usize = 0;
    while i < m
        invariant
            n == s@.len(),
            m == p@.len(),
            start + m <= n,
            i <= m,
            rest == s@.subrange(start as int, n as int),
            forall|j: int| 0 <= j < i ==> p@[j] == rest[j],
        decreases m - i,
    {
        if s.get_char(start + i) != p.get_char(i) {
            assert(rest[i as int] == s@[start + i]);
            assert(p@[i as int] != rest.subrange(0, m as int)[i as int]);
            return false;
        }
        i = i + 1;
    }
    assert(p@ == rest.subrange(0, m as int));
    true
}

/// The token carried by an `Authorization` header (its bytes, if present).
pub fn jwt_from_header(header: Option<&[u8]>) -> (r: Result<String, Error>)
    ensures
        header_token(
            match header {
                Some(h) => Some(h@),
                None => None,
            },
        ) == (match r {
            Ok(t) => Ok(t@),
            Err(e) => Err(e),
        }),
{
    proof {
        reveal_strlit("Bearer ");
    }
    let bytes = match header {
        Some(h) => h,
        None => {
            return Err(Error::NoAuthHeaderError);
        },
    };
    let text = match utf8_text(bytes) {
        Some(t) => t,
        None => {
            return Err(Error::NoAuthHeaderError);
        },
    };
    if !prefix_at(text, BEARER, 0) {
        assert(text@.subrange(0, text@.len() as int) == text@);
        return Err(Error::InvalidAuthHeaderError);
    }
    let n = text.unicode_len();
    let m = BEARER.unicode_len();
    let mut start: usize = 0;
    assert(text@.subrange(0, n as int) == text@);
    while prefix_at(text, BEARER, start)
        invariant
            n == text@.len(),
            m == BEARER@.len(),
            m == 7,
            start <= n,
            trim_prefixes(text@, BEARER@) == trim_prefixes(
                text@.subrange(start as int, n as int),
                BEARER@,
            ),
        decreases n - start,
    {
        let ghost rest = text@.subrange(start as int, n as int);
        assert(rest.subrange(m as int, rest.len() as int) == text@.subrange(start + m, n as int));
        start = start + m;
    }
    Ok(text.substring_char(start, n).to_owned())
}

/// What a sign-in with `password` comes to for the employee `id` whose
/// stored password hash is `stored` and stored role name `stored_role`.
pub open spec fn login_outcome(
    password: Seq<char>,
    id: u128,
    stored: Seq<char>,
    stored_role: Seq<char>,
) -> Result<Role, Error> {
    if crate::password::password_hash(password, id) == stored {
        match role_parse(stored_role) {
            Some(role) => Ok(role),
            None => Err(Error::ParseError),
        }
    } else {
        Err(Error::WrongCredentialsError)
    }
}

/// A sign-in request.
pub struct LoginRequest {
    pub email: String,
    pub password: String,
    pub permanent: Option<bool>,
}

impl LoginRequest {
    /// Whether the request asks for a permanent token.
    pub open spec fn asks_permanent(&self) -> bool {
        self.permanent == Some(true)
    }

    /// Checks the request's password against the stored hash of the
    /// employee `id` found under its email, and reads the stored role.
    pub fn check(&self, id: u128, stored_password: &str, stored_role: &str) -> (r: Result<Role, Error>)
        requires
            crate::password::hashable(self.password@),
        ensures
            r == login_outcome(self.password@, id, stored_password@, stored_role@),
    {
        let hashed = crate::password::generate_password(self.password.as_str(), id);
        if crate::text::str_eq(hashed.as_str(), stored_password) {
            match Role::parse(stored_role) {
                Ok(role) => Ok(role),
                Err(()) => Err(Error::ParseError),
            }
        } else {
            Err(Error::WrongCredentialsError)
        }
    }

    /// The claims of the token that a successful sign-in of employee `id`
    /// with `role` receives: permanent (52 weeks) if the request asks for
    /// it, else lasting an hour.
    pub fn token_claims(&self, id: u128, role: Role) -> (c: Claims)
        ensures
            exists|now: i64|
                0 <= now <= MAX_TIMESTAMP && #[trigger] issued(
                    c,
                    uuid_text(id),
                    role_name(role),
                    now,
                    token_lifetime(self.asks_permanent()),
                ),
    {
        let permanent = match self.permanent {
            Some(p) => p,
            None => false,
        };
        let c = token_claims(id, role, permanent);
        proof {
            let now = choose|now: i64|
                0 <= now <= MAX_TIMESTAMP && #[trigger] issued(
                    c,
                    uuid_text(id),
                    role_name(role),
                    now,
                    token_lifetime(permanent),
                );
            assert(issued(c, uuid_text(id), role_name(role), now, token_lifetime(self.asks_permanent())));
        }
        c
    }
}

/// The `set-cookie` value that hands a signed-in client its token.
pub fn access_token_cookie(token: &str) -> (c: String)
    ensures
        c@ == "access_token="@ + token@,
{
    let mut out: Vec<char> = Vec::new();
    crate::text::push_str(&mut out, "access_token=");
    crate::text::push_str(&mut out, token);
    crate::text::string_from_chars(out.as_slice())
}

/// A role's name reads back as that role.
pub proof fn lemma_role_name_parses(r: Role)
    ensures
        role_parse(role_name(r)) == Some(r),
{
    reveal_strlit("Admin");
    reveal_strlit("User");
    assert("Admin"@.len() == 5);
    assert("User"@.len() == 4);
    assert("Admin"@ != "User"@);
}

/// The only names that read as a role are the roles' names.
pub proof fn lemma_role_parse_names(s: Seq<char>)
    ensures
        role_parse(s) matches Some(r) ==> role_name(r) == s,
{
}

/// Removing every leading copy of a non-empty pattern leaves a text that
/// does not start with it.
pub proof fn lemma_trimmed_has_no_prefix(s: Seq<char>, p: Seq<char>)
    requires
        p.len() > 0,
    ensures
        !p.is_prefix_of(trim_prefixes(s, p)),
    decreases s.len(),
{
    if p.is_prefix_of(s) {
        lemma_trimmed_has_no_prefix(s.subrange(p.len() as int, s.len() as int), p);
    }
}

/// A header `"Bearer <token>"` yields the token, where the token does not
/// itself start with `"Bearer "`; and any token that a header yields does
/// not start with `"Bearer "`.
pub proof fn lemma_bearer_header(token: Seq<char>, header: Option<Seq<u8>>)
    ensures
        !BEARER@.is_prefix_of(token) ==> header_token(
            Some(vstd::utf8::encode_utf8(BEARER@ + token)),
        ) == Ok::<Seq<char>, Error>(token),
        header_token(header) matches Ok(t) ==> !BEARER@.is_prefix_of(t),
{
    reveal_strlit("Bearer ");
    let text = BEARER@ + token;
    vstd::utf8::encode_utf8_valid_utf8(text);
    vstd::utf8::encode_utf8_decode_utf8(text);
    assert(text.subrange(0, BEARER@.len() as int) == BEARER@);
    assert(text.subrange(BEARER@.len() as int, text.len() as int) == token);
    assert(BEARER@.is_prefix_of(text));
    assert(decode_utf8(vstd::utf8::encode_utf8(text)) == text);
    if !BEARER@.is_prefix_of(token) {
        assert(trim_prefixes(token, BEARER@) == token);
        assert(trim_prefixes(text, BEARER@) == token);
    }
    if let Some(bytes) = header {
        if valid_utf8(bytes) {
            lemma_trimmed_has_no_prefix(decode_utf8(bytes), BEARER@);
        }
    }
}

/// The hyphenated form of an identifier names that identifier.
pub proof fn lemma_subject_id(id: u128)
    ensures
        subject_id(uuid_text(id)) == Some(id),
{
    let other = choose|x: u128| uuid_text(id) == uuid_text(x);
    crate::ids::lemma_uuid_text_injective(id, other);
}

/// A token held by employee `id` with role `held`, checked at `now` for a
/// request that needs `required`: refused as expired once `now` is past
/// its expiry; otherwise refused for want of permission if the roles
/// differ, and else answered with `id`.
pub proof fn lemma_token_decision(required: Role, held: Role, id: u128, exp: usize, now: usize)
    ensures
        authorization(required, role_name(held), exp, uuid_text(id), now) == (if exp < now {
            Err(Error::JWTExpiredError)
        } else if required != held {
            Err(Error::NoPermissionError)
        } else {
            Ok::<u128, Error>(id)
        }),
{
    lemma_role_name_parses(held);
    lemma_subject_id(id);
}

/// The claims issued to employee `id` with `role` at `now` admit that
/// employee to every request that needs `role` at any time up to their
/// expiry, while the issue time and expiry are within `usize`.
pub proof fn lemma_issued_claims_admit(c: Claims, id: u128, role: Role, now: i64, lifetime: i64, t: int)
    requires
        issued(c, uuid_text(id), role_name(role), now, lifetime),
        0 <= now <= t <= now + lifetime <= usize::MAX,
    ensures
        authorization(role, c.role@, c.exp, c.sub@, t as usize) == Ok::<u128, Error>(id),
{
    lemma_token_decision(role, role, id, c.exp, t as usize);
}

/// A sign-in with the password whose hash is stored succeeds with the
/// stored role; a password with a different hash is refused.
pub proof fn lemma_login(password: Seq<char>, other: Seq<char>, id: u128, role: Role)
    ensures
        login_outcome(password, id, crate::password::password_hash(password, id), role_name(role))
            == Ok::<Role, Error>(role),
        crate::password::password_hash(other, id) != crate::password::password_hash(password, id)
            ==> login_outcome(other, id, crate::password::password_hash(password, id), role_name(role))
            == Err::<Role, Error>(Error::WrongCredentialsError),
{
    lemma_role_name_parses(role);
}

} // verus!
