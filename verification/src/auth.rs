//! How a request is authenticated: which check applies to its bearer token, and the
//! checks themselves that need no outside service.
use vstd::prelude::*;
use vstd::string::*;

verus! {

/// Whether two tokens hold the same bytes, comparing every byte whatever the first
/// difference, so that the time taken does not tell where they differ.
pub fn constant_time_eq(a: &str, b: &str) -> (r: bool)
    ensures
        r == (a.spec_bytes() == b.spec_bytes()),
{
    let a = a.as_bytes();
    let b = b.as_bytes();
    if a.len() != b.len() {
        return false;
    }
    let mut acc: u8 = 0;
    let mut i: usize = 0;
    while i < a.len()
        invariant
            a@.len() == b@.len(),
            i <= a@.len(),
            acc == 0 <==> forall|j: int| 0 <= j < i ==> a@[j] == b@[j],
        decreases a@.len() - i,
    {
        let x = a[i];
        let y = b[i];
        let next = acc | (x ^ y);
        assert(next == 0 <==> (acc == 0 && x == y)) by (bit_vector)
            requires
                next == acc | (x ^ y),
        ;
        acc = next;
        i = i + 1;
    }
    assert(acc == 0 ==> a@ =~= b@);
    acc == 0
}

/// The number of `.` bytes of a token.
pub open spec fn dot_count(s: Seq<u8>) -> nat
    decreases s.len(),
{
    if s.len() == 0 {
        0
    } else {
        dot_count(s.drop_last()) + if s.last() == 46u8 { 1nat } else { 0 }
    }
}

/// Whether a token has the `header.payload.signature` shape of a JWT: exactly two dots.
pub fn looks_like_jwt(token: &str) -> (b: bool)
    ensures
        b == (dot_count(token.spec_bytes()) == 2),
{
    let bytes = token.as_bytes();
    let mut count: usize = 0;
    let mut i: usize = 0;
    while i < bytes.len()
        invariant
            i <= bytes@.len(),
            count == dot_count(bytes@.subrange(0, i as int)),
            count <= i,
        decreases bytes@.len() - i,
    {
        assert(bytes@.subrange(0, i + 1).drop_last() =~= bytes@.subrange(0, i as int));
        if bytes[i] == 46u8 {
            count = count + 1;
        }
        i = i + 1;
    }
    assert(bytes@.subrange(0, bytes@.len() as int) =~= bytes@);
    count == 2
}

/// Which check decides on a request's bearer token.
#[derive(Clone, Copy, Debug, PartialEq, Eq, Structural)]
pub enum AuthRoute {
    /// The configured admin token: full access.
    Admin,
    /// Permissions found for this token a moment ago.
    Cached,
    /// A JWT, verified with the configured key.
    Jwt,
    /// An auth token, verified by the auth-token module.
    AuthToken,
}

/// Why a request was not authenticated.
#[derive(Clone, Copy, Debug, PartialEq, Eq, Structural)]
pub enum AuthError {
    /// There is no bearer token.
    AuthRequired,
    /// The token is not valid.
    InvalidToken,
    /// The JWT did not verify.
    InvalidJwt,
    /// The auth token names no role.
    MissingRole,
}

impl AuthError {
    /// The error's code, and its message.
    pub fn code_and_message(&self) -> (r: (&'static str, &'static str))
        ensures
            r.0@ == (match self {
                AuthError::AuthRequired => "auth_required"@,
                AuthError::MissingRole => "internal"@,
                _ => "invalid_token"@,
            }),
            r.1@ == (match self {
                AuthError::AuthRequired => "`Authorization` header required"@,
                AuthError::InvalidToken => "Invalid token."@,
                AuthError::InvalidJwt => "Invalid JWT token."@,
                AuthError::MissingRole => "couldn't find role in auth token metadata"@,
            }),
    {
        match self {
            AuthError::AuthRequired => ("auth_required", "`Authorization` header required"),
            AuthError::InvalidToken => ("invalid_token", "Invalid token."),
            AuthError::InvalidJwt => ("invalid_token", "Invalid JWT token."),
            AuthError::MissingRole => ("internal", "couldn't find role in auth token metadata"),
        }
    }
}

pub open spec fn auth_route_spec(token: Option<&str>, admin_token: Option<&str>, cached: bool, has_jwt_verifier: bool) -> Result<AuthRoute, AuthError> {
    match token {
        None => Err(AuthError::AuthRequired),
        Some(t) => if admin_token matches Some(a) && a.spec_bytes() == t.spec_bytes() {
            Ok(AuthRoute::Admin)
        } else if cached {
            Ok(AuthRoute::Cached)
        } else if has_jwt_verifier && dot_count(t.spec_bytes()) == 2 {
            Ok(AuthRoute::Jwt)
        } else {
            Ok(AuthRoute::AuthToken)
        },
    }
}

/// A request needs a bearer token. The admin token grants everything; else cached
/// permissions are used; else a token shaped like a JWT goes to the JWT verifier where one
/// is configured; else it is checked as an auth token.
pub fn auth_route(token: Option<&str>, admin_token: Option<&str>, cached: bool, has_jwt_verifier: bool) -> (r: Result<AuthRoute, AuthError>)
    ensures
        r == auth_route_spec(token, admin_token, cached, has_jwt_verifier),
{
    match token {
        None => Err(AuthError::AuthRequired),
        Some(t) => {
            let is_admin = match admin_token {
                Some(a) => constant_time_eq(a, t),
                None => false,
            };
            if is_admin {
                Ok(AuthRoute::Admin)
            } else if cached {
                Ok(AuthRoute::Cached)
            } else if has_jwt_verifier && looks_like_jwt(t) {
                Ok(AuthRoute::Jwt)
            } else {
                Ok(AuthRoute::AuthToken)
            }
        },
    }
}

/// The role of a verified auth token: unknown tokens are invalid, and a token must carry
/// its role in its metadata.
pub fn auth_token_role(verified: bool, role: Option<String>) -> (r: Result<String, AuthError>)
    ensures
        match r {
            Ok(s) => verified && role == Some(s),
            Err(e) => if !verified { e == AuthError::InvalidToken } else { role is None && e == AuthError::MissingRole },
        },
{
    if !verified {
        return Err(AuthError::InvalidToken);
    }
    match role {
        Some(s) => Ok(s),
        None => Err(AuthError::MissingRole),
    }
}

pub open spec fn flatten_found<R>(policies: Seq<Option<Vec<R>>>) -> Seq<R>
    decreases policies.len(),
{
    if policies.len() == 0 {
        Seq::empty()
    } else {
        flatten_found(policies.drop_last()) + match policies.last() {
            Some(rules) => rules@,
            None => Seq::empty(),
        }
    }
}

/// The access rules of a role: its own, then those of each of its policies that exists,
/// in order.
pub fn collect_rules<R>(role_rules: Vec<R>, policies: Vec<Option<Vec<R>>>) -> (r: Vec<R>)
    ensures
        r@ == role_rules@ + flatten_found(policies@),
{
    let mut rules = role_rules;
    let ghost base = rules@;
    let ghost all = policies@;
    let mut i: usize = 0;
    let total = policies.len();
    let mut rest = policies;
    assert(all.subrange(0, 0) =~= Seq::<Option<Vec<R>>>::empty());
    while rest.len() > 0
        invariant
            i + rest@.len() == all.len(),
            all.len() == total,
            rest@ == all.subrange(i as int, all.len() as int),
            rules@ == base + flatten_found(all.subrange(0, i as int)),
        decreases rest@.len(),
    {
        let p = rest.remove(0);
        assert(p == all[i as int]);
        assert(all.subrange(0, i + 1).drop_last() =~= all.subrange(0, i as int));
        match p {
            Some(mut extra) => {
                rules.append(&mut extra);
                assert(rules@ =~= base + flatten_found(all.subrange(0, i + 1)));
            },
            None => {
                assert(rules@ =~= base + flatten_found(all.subrange(0, i + 1)));
            },
        }
        assert(rest@ =~= all.subrange(i + 1, all.len() as int));
        i = i + 1;
    }
    assert(all.subrange(0, all.len() as int) =~= all);
    rules
}

} // verus!
