use vstd::prelude::*;

verus! {

/// What the payload of a bearer token says, read without checking its
/// signature.
#[derive(Debug, Clone)]
pub struct Claims {
    pub id: String,
    pub collection_id: String,
    /// Expiry, in whole seconds since the Unix epoch.
    pub exp: i64,
    pub refreshable: bool,
    pub ty: String,
}

/// The result of a successful authentication. A token is never changed
/// field by field: a refresh replaces it whole.
#[derive(Debug, Clone)]
pub struct Token {
    /// The collection the authenticated record belongs to.
    pub collection: String,
    /// The id of the authenticated record.
    pub user: String,
    /// The bearer string sent as the `Authorization` header.
    pub auth: String,
    /// Expiry, in whole seconds since the Unix epoch.
    pub expires: i64,
    pub refreshable: bool,
    pub ty: String,
}

/// The token that an authentication for `collection` yields, given the
/// bearer string and what its payload says.
pub open spec fn token_of(collection: String, auth: String, claims: Claims) -> Token {
    Token {
        collection: collection,
        user: claims.id,
        auth: auth,
        expires: claims.exp,
        refreshable: claims.refreshable,
        ty: claims.ty,
    }
}

impl Token {
    /// A token is valid strictly before its expiry: at the expiry second
    /// itself it is no longer valid. No margin is applied.
    pub open spec fn valid_at(&self, now: int) -> bool {
        now < self.expires
    }

    /// Builds the token for `collection` from a bearer string and its payload.
    pub fn from_claims(collection: String, auth: String, claims: Claims) -> (r: Token)
        ensures
            r == token_of(collection, auth, claims),
    {
        Token {
            collection,
            user: claims.id,
            auth,
            expires: claims.exp,
            refreshable: claims.refreshable,
            ty: claims.ty,
        }
    }

    /// Whether the token is still valid at `now` (seconds since the epoch).
    pub fn is_valid_at(&self, now: i64) -> (r: bool)
        ensures
            r == self.valid_at(now as int),
    {
        now < self.expires
    }

    /// Whether the token has expired at `now` (seconds since the epoch): the
    /// expiry second has been reached, so the token is no longer valid.
    pub fn is_expired_at(&self, now: i64) -> (r: bool)
        ensures
            r == (self.expires <= now),
            r == !self.valid_at(now as int),
    {
        self.expires <= now
    }

    /// Whether the token has expired at the current time.
    pub fn is_expired(&self) -> bool {
        self.is_expired_at(now_seconds())
    }
}

/// Relies on chrono's `Utc::now` and `DateTime::timestamp`: the current time,
/// rounded down to whole seconds since the Unix epoch. Nothing is promised of
/// the value.
#[verifier::external_body]
pub(crate) fn now_seconds() -> (r: i64) {
    chrono::Utc::now().timestamp()
}

} // verus!
