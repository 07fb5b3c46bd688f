//! Who is asking: a user or a restaurant.
//!
//! A session token names its holder and the moment it expires. Checking the
//! token's signature is the caller's part; what the header must look like and
//! when the claims still count is decided here.

use crate::order::Id;
use vstd::prelude::*;
use vstd::slice::slice_subrange;

verus! {

/// How long a session lasts from the moment it is issued: one week, in seconds.
pub const SESSION_SECS: i64 = 604_800;

/// A signed-in user.
#[derive(Clone, Copy, Debug, PartialEq, Eq, Structural)]
pub struct AuthUser {
    pub user_id: Id,
}

/// A user who may or may not be signed in.
#[derive(Clone, Copy, Debug)]
pub struct MaybeAuthUser(pub Option<AuthUser>);

/// A signed-in restaurant.
#[derive(Clone, Copy, Debug, PartialEq, Eq, Structural)]
pub struct AuthRestaurant {
    pub restaurant_id: Id,
}

/// A restaurant that may or may not be signed in.
#[derive(Clone, Copy, Debug)]
pub struct MaybeAuthRestaurant(pub Option<AuthRestaurant>);

/// The actor behind a request.
#[derive(Clone, Copy, Debug, PartialEq, Eq, Structural)]
pub enum Auth {
    User(AuthUser),
    Restaurant(AuthRestaurant),
}

/// The bytes of `Bearer `, the scheme that an authorization header must begin
/// with.
pub open spec fn scheme_prefix() -> Seq<u8> {
    seq![66u8, 101u8, 97u8, 114u8, 101u8, 114u8, 32u8]
}

/// Whether a header begins with the scheme.
pub open spec fn has_scheme(header: Seq<u8>) -> bool {
    header.len() >= 7 && header.subrange(0, 7) == scheme_prefix()
}

/// Whether claims that expire at `exp` still count at `now`: they do up to and
/// including the moment of expiry.
pub open spec fn current(exp: int, now: int) -> bool {
    exp >= now
}

/// The token of an authorization header: what follows `Bearer `. A header that
/// does not begin with that scheme holds no token.
pub fn bearer_token(header: &[u8]) -> (token: Option<&[u8]>)
    ensures
        match token {
            Some(rest) => has_scheme(header@) && rest@ == header@.skip(7),
            None => !has_scheme(header@),
        },
{
    if header.len() < 7 {
        return None;
    }
    let matches = header[0] == 66 && header[1] == 101 && header[2] == 97 && header[3] == 114
        && header[4] == 101 && header[5] == 114 && header[6] == 32;
    if !matches {
        assert(header@.subrange(0, 7)[0] == header@[0]);
        assert(header@.subrange(0, 7)[1] == header@[1]);
        assert(header@.subrange(0, 7)[2] == header@[2]);
        assert(header@.subrange(0, 7)[3] == header@[3]);
        assert(header@.subrange(0, 7)[4] == header@[4]);
        assert(header@.subrange(0, 7)[5] == header@[5]);
        assert(header@.subrange(0, 7)[6] == header@[6]);
        return None;
    }
    assert(header@.subrange(0, 7) =~= scheme_prefix());
    let rest = slice_subrange(header, 7, header.len());
    assert(rest@ =~= header@.skip(7));
    Some(rest)
}

/// When a session that is issued at `now` expires, where that moment can be
/// represented.
pub fn session_expiry(now: i64) -> (exp: Option<i64>)
    ensures
        exp == (if now + SESSION_SECS <= i64::MAX {
            Some((now + SESSION_SECS) as i64)
        } else {
            None
        }),
{
    now.checked_add(SESSION_SECS)
}

impl AuthUser {
    /// The user named by verified claims, if the claims still count at `now`.
    pub fn from_authorization(user_id: Id, exp: i64, now: i64) -> (auth: Option<AuthUser>)
        ensures
            auth == (if current(exp as int, now as int) {
                Some(AuthUser { user_id })
            } else {
                None
            }),
    {
        if exp < now {
            None
        } else {
            Some(AuthUser { user_id })
        }
    }
}

impl MaybeAuthUser {
    /// The identifier of the signed-in user, if there is one.
    pub fn restaurant_id(&self) -> (id: Option<Id>)
        ensures
            id == (match self.0 {
                Some(auth) => Some(auth.user_id),
                None => None,
            }),
    {
        match self.0 {
            Some(auth) => Some(auth.user_id),
            None => None,
        }
    }
}

impl AuthRestaurant {
    /// The restaurant named by verified claims, if the claims still count at
    /// `now`.
    pub fn from_authorization(restaurant_id: Id, exp: i64, now: i64) -> (auth: Option<
        AuthRestaurant,
    >)
        ensures
            auth == (if current(exp as int, now as int) {
                Some(AuthRestaurant { restaurant_id })
            } else {
                None
            }),
    {
        if exp < now {
            None
        } else {
            Some(AuthRestaurant { restaurant_id })
        }
    }
}

impl MaybeAuthRestaurant {
    /// The identifier of the signed-in restaurant, if there is one.
    pub fn user_id(&self) -> (id: Option<Id>)
        ensures
            id == (match self.0 {
                Some(auth) => Some(auth.restaurant_id),
                None => None,
            }),
    {
        match self.0 {
            Some(auth) => Some(auth.restaurant_id),
            None => None,
        }
    }
}

impl Auth {
    /// The actor of a request whose token was tried as a user's and as a
    /// restaurant's. A user's claim wins; with neither there is no actor.
    pub fn resolve(user: Option<AuthUser>, restaurant: Option<AuthRestaurant>) -> (auth: Option<
        Auth,
    >)
        ensures
            auth == (match (user, restaurant) {
                (Some(u), _) => Some(Auth::User(u)),
                (None, Some(r)) => Some(Auth::Restaurant(r)),
                (None, None) => None,
            }),
    {
        match user {
            Some(u) => Some(Auth::User(u)),
            None => match restaurant {
                Some(r) => Some(Auth::Restaurant(r)),
                None => None,
            },
        }
    }
}

} // verus!
