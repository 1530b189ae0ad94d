use vstd::prelude::*;
use vstd::string::*;

use crate::batch::BatchBuilder;
use crate::collection::CollectionBuilder;
use crate::error::{Error, FieldError};
use crate::files::FilesBuilder;
use crate::names::names_ascending;
use crate::text::{trimmed_base, without_trailing_slashes};
use crate::token::{now_seconds, token_of, Claims, Token};

verus! {

/// A session with one server: its address and at most one token.
///
/// The session performs no I/O itself. A refresh is carried out in two steps:
/// `auth_refresh_request` describes the one call to make, and the caller hands
/// the server's reply to `auth_refresh_complete`.
#[derive(Debug, Clone)]
pub struct PocketBase {
    pub base_uri: String,
    pub token: Option<Token>,
}

/// The one call that refreshes a token: `POST url` with the old bearer string
/// as the `Authorization` header.
#[derive(Debug, Clone)]
pub struct RefreshRequest {
    pub url: String,
    pub authorization: String,
    /// The collection of the token being refreshed.
    pub collection: String,
}

/// The server's answer to an authentication or refresh call.
#[derive(Debug)]
pub enum AuthResult {
    /// The server refused; `message` is absent when it gave none.
    Error { status: u16, message: Option<String>, data: Vec<(String, FieldError)> },
    /// The server issued `token`; `claims` is what its payload says, or the
    /// text of why the payload could not be read.
    Success { token: String, claims: Result<Claims, String> },
}

impl AuthResult {
    /// Well-formed: the rejected fields of a refusal are keyed by strictly
    /// ascending names, as the server's map of them is.
    pub open spec fn wf(&self) -> bool {
        match self {
            AuthResult::Error { data, .. } => names_ascending(data@),
            AuthResult::Success { .. } => true,
        }
    }
}

/// What an authenticated call needs to do before it is sent.
#[derive(Debug)]
pub enum AuthStep {
    /// The token has expired: make this call, then hand its reply to
    /// `authenticate_complete`.
    Refresh(RefreshRequest),
    /// Send the call now, with this `Authorization` header if there is one.
    Ready(Option<String>),
}

/// `{base}/api/collections/{collection}/auth-refresh`, with the trailing
/// slashes of `base` left out.
pub open spec fn refresh_url(base: Seq<char>, collection: Seq<char>) -> Seq<char> {
    without_trailing_slashes(base) + "/api/collections/"@ + collection + "/auth-refresh"@
}

/// The refresh call for token `t` on a server at `base`.
pub open spec fn is_refresh_request_for(r: RefreshRequest, base: String, t: Token) -> bool {
    &&& r.url@ == refresh_url(base@, t.collection@)
    &&& r.authorization == t.auth
    &&& r.collection == t.collection
}

/// A token that the server can be asked to refresh: its collection and its
/// bearer string are not empty.
pub open spec fn can_refresh(t: Token) -> bool {
    t.collection@.len() > 0 && t.auth@.len() > 0
}

/// The bearer string of a token, if there is one.
pub open spec fn bearer_of(token: Option<Token>) -> Option<String> {
    match token {
        Some(t) => Some(t.auth),
        None => None,
    }
}

/// The message of a refusal, or a fixed text when the server gave none.
pub open spec fn refusal_text(message: Option<String>) -> Seq<char> {
    match message {
        Some(m) => m@,
        None => "failed to authenticate user"@,
    }
}

/// A reply that yields a new token: an issued token whose payload was read.
pub open spec fn issues_token(result: AuthResult) -> bool {
    result is Success && result->Success_claims is Ok
}

/// The token that a reply issues for `collection`.
pub open spec fn issued_token(collection: String, result: AuthResult) -> Token
    recommends
        issues_token(result),
{
    token_of(collection, result->Success_token, result->Success_claims->Ok_0)
}

/// The error that a reply which issues no token amounts to: `Authorization`
/// with the server's message and field errors for a refusal, `Custom` with
/// the reason for a payload that could not be read.
pub open spec fn refusal_error(result: AuthResult, e: Error) -> bool {
    match result {
        AuthResult::Error { message, data, .. } => {
            &&& e is Authorization
            &&& e->Authorization_message@ == refusal_text(message)
            &&& e->Authorization_data == data
        },
        AuthResult::Success { claims, .. } => {
            &&& claims is Err
            &&& e == Error::Custom(claims->Err_0)
        },
    }
}

/// The refresh call for token `t` on a server at `base`.
fn refresh_request(base: &String, t: Token) -> (r: RefreshRequest)
    ensures
        is_refresh_request_for(r, *base, t),
{
    let mut url = trimmed_base(base);
    url.append("/api/collections/");
    url.append(t.collection.as_str());
    url.append("/auth-refresh");
    RefreshRequest { url, authorization: t.auth, collection: t.collection }
}

impl PocketBase {
    /// The session holds a token that is valid at `now`.
    pub open spec fn valid_at(&self, now: int) -> bool {
        self.token is Some && self.token->Some_0.valid_at(now)
    }

    /// An authenticated call at `now` refreshes first: there is a token and it
    /// is no longer valid.
    pub open spec fn needs_refresh(&self, now: int) -> bool {
        self.token is Some && !self.valid_at(now)
    }

    /// A session with no token.
    pub fn new(base_uri: &str) -> (r: PocketBase)
        ensures
            r.base_uri@ == base_uri@,
            r.token is None,
    {
        PocketBase { base_uri: base_uri.to_string(), token: None }
    }

    /// Whether a token is present and valid at `now` (seconds since the epoch).
    pub fn is_valid_at(&self, now: i64) -> (r: bool)
        ensures
            r == self.valid_at(now as int),
    {
        match &self.token {
            Some(t) => t.is_valid_at(now),
            None => false,
        }
    }

    /// Whether a token is present and valid at the current time.
    pub fn is_valid(&self) -> (r: bool)
        ensures
            r ==> self.token is Some,
    {
        self.is_valid_at(now_seconds())
    }

    /// Starts a refresh: takes the token out of the session and describes the
    /// one call that renews it. Without a token, or with one whose collection
    /// or bearer string is empty, it fails with `Unauthorized`, describes no
    /// call and leaves the session as it is.
    pub fn auth_refresh_request(&mut self) -> (r: Result<RefreshRequest, Error>)
        ensures
            final(self).base_uri == old(self).base_uri,
            r is Ok <==> (old(self).token is Some && can_refresh(old(self).token->Some_0)),
            r is Ok ==> final(self).token is None,
            r is Ok ==> is_refresh_request_for(r->Ok_0, old(self).base_uri, old(self).token->Some_0),
            r is Err ==> r->Err_0 is Unauthorized,
            r is Err ==> *final(self) == *old(self),
    {
        match self.token.take() {
            Some(t) => if t.collection.as_str().is_empty() || t.auth.as_str().is_empty() {
                self.token = Some(t);
                Err(Error::Unauthorized)
            } else {
                Ok(refresh_request(&self.base_uri, t))
            },
            None => Err(Error::Unauthorized),
        }
    }

    /// Finishes a refresh with the server's reply to `request`. An issued
    /// token whose payload was read replaces the session's token whole;
    /// anything else leaves the session as it is and fails.
    pub fn auth_refresh_complete(&mut self, request: RefreshRequest, result: AuthResult) -> (r: Result<(), Error>)
        ensures
            final(self).base_uri == old(self).base_uri,
            r is Ok <==> issues_token(result),
            r is Ok ==> final(self).token == Some(issued_token(request.collection, result)),
            r is Err ==> final(self).token == old(self).token,
            r is Err ==> refusal_error(result, r->Err_0),
            r is Err && result.wf() ==> r->Err_0.wf(),
    {
        self.install_auth(request.collection, result)
    }

    /// Finishes a password authentication on `collection` with the server's
    /// reply, in the same way as a refresh.
    pub fn auth_with_password_complete(&mut self, collection: &str, result: AuthResult) -> (r: Result<(), Error>)
        ensures
            final(self).base_uri == old(self).base_uri,
            r is Ok <==> issues_token(result),
            r is Ok ==> final(self).token is Some,
            r is Ok ==> final(self).token->Some_0.collection@ == collection@,
            r is Ok ==> final(self).token->Some_0.auth == result->Success_token,
            r is Ok ==> final(self).token->Some_0.expires == result->Success_claims->Ok_0.exp,
            r is Ok ==> final(self).token->Some_0.user == result->Success_claims->Ok_0.id,
            r is Ok ==> final(self).token->Some_0.refreshable == result->Success_claims->Ok_0.refreshable,
            r is Ok ==> final(self).token->Some_0.ty == result->Success_claims->Ok_0.ty,
            r is Err ==> final(self).token == old(self).token,
            r is Err ==> refusal_error(result, r->Err_0),
            r is Err && result.wf() ==> r->Err_0.wf(),
    {
        self.install_auth(collection.to_string(), result)
    }

    fn install_auth(&mut self, collection: String, result: AuthResult) -> (r: Result<(), Error>)
        ensures
            final(self).base_uri == old(self).base_uri,
            r is Ok <==> issues_token(result),
            r is Ok ==> final(self).token == Some(issued_token(collection, result)),
            r is Err ==> final(self).token == old(self).token,
            r is Err ==> refusal_error(result, r->Err_0),
            r is Err && result.wf() ==> r->Err_0.wf(),
    {
        match result {
            AuthResult::Error { message, data, .. } => {
                let message = match message {
                    Some(m) => m,
                    None => String::from_str("failed to authenticate user"),
                };
                Err(Error::Authorization { message, data })
            },
            AuthResult::Success { token, claims } => match claims {
                Ok(c) => {
                    self.token = Some(Token::from_claims(collection, token, c));
                    Ok(())
                },
                Err(reason) => Err(Error::Custom(reason)),
            },
        }
    }

    /// The calls on one collection of this server.
    pub fn collection(&self, identifier: &str) -> (r: CollectionBuilder)
        ensures
            r.base_uri == self.base_uri,
            r.identifier@ == identifier@,
    {
        CollectionBuilder { base_uri: self.base_uri.clone(), identifier: identifier.to_string() }
    }

    /// Addresses of stored files on this server.
    pub fn files(&self) -> (r: FilesBuilder)
        ensures
            r.base_uri == self.base_uri,
    {
        FilesBuilder { base_uri: self.base_uri.clone() }
    }

    /// An empty batch of record calls for this server.
    pub fn create_batch(&self) -> (r: BatchBuilder)
        ensures
            r.requests@.len() == 0,
    {
        BatchBuilder::new()
    }

    /// `GET` address of the server's health check.
    pub fn health_url(&self) -> (r: String)
        ensures
            r@ == without_trailing_slashes(self.base_uri@) + "/api/health"@,
    {
        let mut url = trimmed_base(&self.base_uri);
        url.append("/api/health");
        url
    }

    /// `POST` address of a batch of record calls.
    pub fn batch_url(&self) -> (r: String)
        ensures
            r@ == without_trailing_slashes(self.base_uri@) + "/api/batch"@,
    {
        let mut url = trimmed_base(&self.base_uri);
        url.append("/api/batch");
        url
    }

    /// The first step of an authenticated call at `now`: when the session
    /// holds a token that is no longer valid, the refresh call to make first,
    /// or the refresh's `Unauthorized` error when that token cannot be
    /// refreshed; otherwise the header to attach, with the session left as it
    /// is.
    pub fn authenticate_at(&mut self, now: i64) -> (r: Result<AuthStep, Error>)
        ensures
            final(self).base_uri == old(self).base_uri,
            (r is Ok && r->Ok_0 is Refresh) <==> (old(self).needs_refresh(now as int) && can_refresh(
                old(self).token->Some_0,
            )),
            r is Err <==> (old(self).needs_refresh(now as int) && !can_refresh(old(self).token->Some_0)),
            r is Ok && r->Ok_0 is Refresh ==> is_refresh_request_for(
                r->Ok_0->Refresh_0,
                old(self).base_uri,
                old(self).token->Some_0,
            ),
            r is Ok && r->Ok_0 is Refresh ==> final(self).token is None,
            r is Ok && r->Ok_0 is Ready ==> *final(self) == *old(self),
            r is Ok && r->Ok_0 is Ready ==> r->Ok_0->Ready_0 == bearer_of(old(self).token),
            r is Err ==> r->Err_0 is Unauthorized,
            r is Err ==> *final(self) == *old(self),
    {
        match self.token.take() {
            Some(t) => if t.is_valid_at(now) {
                let header = t.auth.clone();
                self.token = Some(t);
                Ok(AuthStep::Ready(Some(header)))
            } else {
                self.token = Some(t);
                match self.auth_refresh_request() {
                    Ok(request) => Ok(AuthStep::Refresh(request)),
                    Err(e) => Err(e),
                }
            },
            None => Ok(AuthStep::Ready(None)),
        }
    }

    /// The first step of an authenticated call at the current time. It
    /// succeeds whenever the session holds no token (the call is then sent
    /// without a header) or holds one that can be refreshed; it fails with
    /// `Unauthorized` only for a token that has expired and cannot be.
    pub fn authenticate(&mut self) -> (r: Result<AuthStep, Error>)
        ensures
            final(self).base_uri == old(self).base_uri,
            r is Ok && r->Ok_0 is Refresh ==> old(self).token is Some,
            r is Ok && r->Ok_0 is Refresh ==> is_refresh_request_for(
                r->Ok_0->Refresh_0,
                old(self).base_uri,
                old(self).token->Some_0,
            ),
            r is Ok && r->Ok_0 is Refresh ==> final(self).token is None,
            r is Ok && r->Ok_0 is Ready ==> *final(self) == *old(self),
            r is Ok && r->Ok_0 is Ready ==> r->Ok_0->Ready_0 == bearer_of(old(self).token),
            r is Err ==> r->Err_0 is Unauthorized,
            r is Err ==> *final(self) == *old(self),
            r is Err ==> (old(self).token is Some && !can_refresh(old(self).token->Some_0)),
            (old(self).token is None || can_refresh(old(self).token->Some_0)) ==> r is Ok,
            old(self).token is None ==> (r is Ok && r->Ok_0 is Ready && r->Ok_0->Ready_0 is None),
    {
        self.authenticate_at(now_seconds())
    }

    /// The second step of an authenticated call that had to refresh: settles
    /// the refresh with the server's reply and gives the header to attach.
    /// It never asks for another refresh.
    pub fn authenticate_complete(&mut self, request: RefreshRequest, result: AuthResult) -> (r: Result<Option<String>, Error>)
        ensures
            final(self).base_uri == old(self).base_uri,
            r is Ok <==> issues_token(result),
            r is Ok ==> final(self).token == Some(issued_token(request.collection, result)),
            r is Ok ==> r->Ok_0 == Some(result->Success_token),
            r is Err ==> final(self).token == old(self).token,
            r is Err ==> refusal_error(result, r->Err_0),
            r is Err && result.wf() ==> r->Err_0.wf(),
    {
        match self.auth_refresh_complete(request, result) {
            Ok(()) => {
                let header = match &self.token {
                    Some(t) => Some(t.auth.clone()),
                    None => None,
                };
                Ok(header)
            },
            Err(e) => Err(e),
        }
    }
}

/// A token is valid strictly before its expiry second: a session holding it
/// is valid at every earlier second and at no later one, the expiry itself
/// included.
pub proof fn lemma_valid_strictly_before_expiry(s: PocketBase, now: int)
    requires
        s.token is Some,
    ensures
        s.valid_at(now) <==> now < s.token->Some_0.expires,
        !s.valid_at(s.token->Some_0.expires as int),
        s.valid_at(s.token->Some_0.expires - 1),
{
}

/// A refresh that succeeds installs the bearer string the server issued, for
/// the same collection, and leaves the session valid at any time before the
/// new expiry. When the server issues a bearer other than the old one, the
/// session's bearer changes.
pub proof fn lemma_refresh_renews(before: PocketBase, request: RefreshRequest, result: AuthResult, now: int)
    requires
        before.token is Some,
        is_refresh_request_for(request, before.base_uri, before.token->Some_0),
        issues_token(result),
        now < result->Success_claims->Ok_0.exp,
        result->Success_token != before.token->Some_0.auth,
    ensures
        ({
            let after = PocketBase { base_uri: before.base_uri, token: Some(issued_token(request.collection, result)) };
            &&& after.valid_at(now)
            &&& bearer_of(after.token) != bearer_of(before.token)
            &&& after.token->Some_0.collection == before.token->Some_0.collection
        }),
{
}

/// An authenticated call refreshes only when the session is not valid at
/// the call's time, and at most once: once a refresh has installed a token
/// that expires later than that time, the session needs no further refresh.
pub proof fn lemma_decorator_refreshes_at_most_once(s: PocketBase, request: RefreshRequest, result: AuthResult, now: int)
    requires
        issues_token(result),
        now < result->Success_claims->Ok_0.exp,
    ensures
        s.needs_refresh(now) ==> !s.valid_at(now),
        !(PocketBase { base_uri: s.base_uri, token: Some(issued_token(request.collection, result)) }).needs_refresh(now),
{
}

} // verus!
