//! The authorization server: the authorization-code flow, the exchange of
//! codes and refresh tokens for bearer tokens, and the check that guards a
//! protected resource.

use crate::authorizer::{redeem_outcome, Authorizer};
use crate::consent::{consent_decision, consent_page, consent_page_html, consent_query_pairs, decision_of, form_encoded, ConsentDecision};
use crate::grant::{parse_scope_text, scope_allows, scope_text_ok, scope_tokens, scope_words, Grant, GrantView};
use crate::issuer::{policy_until, Issuer, IssuerError, IssuerView};
use crate::registry::{bound_redirect_of, text_of, Client, ClientRegistry, ClientView, RegistryError};
use oxide_auth::primitives::generator::RandomGenerator;
use oxide_auth::primitives::scope::Scope;
use vstd::prelude::*;

verus! {

/// How long an authorization code stays redeemable, in seconds.
pub const CODE_LIFETIME: i64 = 600;

/// How long a grant lasts after its refresh token is exchanged, in seconds.
pub const REFRESH_LIFETIME: i64 = 3600;

/// Why a flow did not succeed.
#[derive(Debug, PartialEq, Eq, Structural, Clone, Copy)]
pub enum FlowError {
    /// A required parameter is missing or malformed.
    InvalidRequest,
    /// No client is registered under the requested identifier.
    UnknownClient,
    /// The redirect URI is not the one registered for the client.
    RedirectMismatch,
    /// The owner refused, or no owner could be identified.
    ConsentDenied,
    /// The code is unknown, already redeemed, expired, or was issued for
    /// another client or redirect URI.
    InvalidOrExpiredCode,
    /// The refresh token is unknown, already used, or its grant expired.
    InvalidOrExpiredRefreshToken,
    /// No bearer token, or one that is unknown or expired.
    InvalidToken,
    /// The scope asked for is not covered by the grant.
    InsufficientScope,
    /// No token could be drawn, or internal state disagreed.
    Fatal,
}

/// An authorization request as the client sent it.
pub struct AuthorizationRequest {
    pub response_type: Option<String>,
    pub client_id: Option<String>,
    pub redirect_uri: Option<String>,
    pub scope: Option<String>,
    pub state: Option<String>,
}

/// Where the owner's consent stands for an authorization request.
pub enum Consent {
    /// The owner has not been asked yet.
    Prompt,
    /// The consent form came back; `owner` is who the session identifies.
    Answer { allowed: bool, owner: Option<String> },
}

/// What the authorization flow hands back.
pub enum AuthorizationOutcome {
    /// A page asking the owner for consent.
    ConsentPage(String),
    /// Send the owner's agent to `redirect_uri` with `code` and `state`.
    Redirect { redirect_uri: String, code: String, state: Option<String> },
}

/// A request to exchange an authorization code.
pub struct TokenRequest {
    pub grant_type: Option<String>,
    pub code: Option<String>,
    pub redirect_uri: Option<String>,
    pub client_id: Option<String>,
}

/// A request to exchange a refresh token, optionally for a narrower scope.
pub struct RefreshRequest {
    pub grant_type: Option<String>,
    pub refresh_token: Option<String>,
    pub scope: Option<String>,
}

/// A successful token response.
pub struct TokenResponse {
    pub access_token: String,
    pub refresh_token: String,
    /// Seconds until the tokens expire.
    pub expires_in: u64,
    pub until: i64,
}

/// The text of an optional string.
pub open spec fn opt_text(o: Option<String>) -> Option<Seq<char>> {
    match o {
        Some(s) => Some(s@),
        None => None,
    }
}

/// `now + d`, held within the range of `i64`.
pub open spec fn add_clamped(now: i64, d: i64) -> int {
    policy_until(Some(d), now, 0)
}

/// The redirect URI that an authorization request is bound to, or why it is
/// refused before any consent is sought.
pub open spec fn authorization_target(clients: Map<Seq<char>, ClientView>, req: AuthorizationRequest) -> Result<
    Seq<char>,
    FlowError,
> {
    match req.client_id {
        None => Err(FlowError::InvalidRequest),
        Some(id) => match bound_redirect_of(clients, id@, opt_text(req.redirect_uri)) {
            Err(RegistryError::UnknownClient) => Err(FlowError::UnknownClient),
            Err(RegistryError::RedirectMismatch) => Err(FlowError::RedirectMismatch),
            Ok(u) => if opt_text(req.response_type) == Some("code"@) {
                Ok(u)
            } else {
                Err(FlowError::InvalidRequest)
            },
        },
    }
}

/// The owner that a consent answer authorizes, if any.
pub open spec fn consent_owner(consent: Consent) -> Option<Seq<char>> {
    match consent {
        Consent::Prompt => None,
        Consent::Answer { allowed, owner } => decision_of(allowed, opt_text(owner)),
    }
}

/// The grant that an approved authorization request becomes.
pub open spec fn authorized_grant(client: ClientView, owner: Seq<char>, redirect_uri: Seq<char>, now: i64) -> GrantView {
    GrantView {
        owner_id: owner,
        client_id: client.client_id,
        redirect_uri,
        scope: client.scope,
        until: add_clamped(now, CODE_LIFETIME),
    }
}

/// A code exchange request names the authorization-code grant type and
/// carries the code, the client and the redirect URI.
pub open spec fn token_request_ok(req: TokenRequest) -> bool {
    &&& opt_text(req.grant_type) == Some("authorization_code"@)
    &&& req.code is Some
    &&& req.client_id is Some
    &&& req.redirect_uri is Some
}

/// A redeemed grant may be exchanged by this request at `now`.
pub open spec fn code_grant_ok(g: GrantView, req: TokenRequest, now: i64) -> bool {
    &&& Some(g.client_id) == opt_text(req.client_id)
    &&& Some(g.redirect_uri) == opt_text(req.redirect_uri)
    &&& g.until > now
}

/// A refresh request names the refresh-token grant type and carries a token.
pub open spec fn refresh_request_ok(req: RefreshRequest) -> bool {
    &&& opt_text(req.grant_type) == Some("refresh_token"@)
    &&& req.refresh_token is Some
}

/// The grant that a refresh at `now` asks for: the old one, narrowed to
/// the requested scope when one is given, lasting `REFRESH_LIFETIME` from `now`.
pub open spec fn refreshed_grant(g: GrantView, scope: Option<Seq<char>>, now: i64) -> GrantView {
    let narrowed = match scope {
        None => g,
        Some(s) => GrantView { scope: scope_words(s), ..g },
    };
    narrowed.with_until(add_clamped(now, REFRESH_LIFETIME))
}

/// Why a refresh of a grant `g` (the one the token belongs to, if any) is
/// refused before any token is drawn.
pub open spec fn refresh_refusal(g: Option<GrantView>, scope: Option<Seq<char>>, now: i64) -> Option<FlowError> {
    match g {
        None => Some(FlowError::InvalidOrExpiredRefreshToken),
        Some(g) => if g.until <= now {
            Some(FlowError::InvalidOrExpiredRefreshToken)
        } else {
            match scope {
                None => None,
                Some(s) => if !scope_text_ok(s) {
                    Some(FlowError::InvalidRequest)
                } else if !scope_words(s).subset_of(g.scope) {
                    Some(FlowError::InsufficientScope)
                } else {
                    None
                },
            }
        },
    }
}

/// The token of an `Authorization` header of the form `Bearer <token>`.
pub open spec fn bearer_of(header: Seq<char>) -> Option<Seq<char>> {
    if header.len() > 7 && header.subrange(0, 7) == "Bearer "@ {
        Some(header.subrange(7, header.len() as int))
    } else {
        None
    }
}

/// What a request to a resource that requires scope `required` gets, given
/// its `Authorization` header and the live tokens.
pub open spec fn resource_outcome(
    tokens: IssuerView,
    header: Option<Seq<char>>,
    required: Set<Seq<char>>,
    now: i64,
) -> Result<GrantView, FlowError> {
    match header {
        None => Err(FlowError::InvalidToken),
        Some(h) => match bearer_of(h) {
            None => Err(FlowError::InvalidToken),
            Some(t) => match tokens.access_grant(t) {
                None => Err(FlowError::InvalidToken),
                Some(g) => if g.until <= now {
                    Err(FlowError::InvalidToken)
                } else if !required.subset_of(g.scope) {
                    Err(FlowError::InsufficientScope)
                } else {
                    Ok(g)
                },
            },
        },
    }
}

/// Whether `s` is the text `lit`.
fn text_is(s: &String, lit: &str) -> (r: bool)
    ensures
        r == (s@ == lit@),
{
    let l: String = lit.to_owned();
    *s == l
}

/// Whether an optional string is present and is the text `lit`.
fn opt_text_is(s: &Option<String>, lit: &str) -> (r: bool)
    ensures
        r == (opt_text(*s) == Some(lit@)),
{
    match s {
        Some(t) => text_is(t, lit),
        None => false,
    }
}

/// The token of an `Authorization` header of the form `Bearer <token>`.
pub fn bearer_token(header: &str) -> (r: Option<String>)
    ensures
        r matches Some(t) ==> bearer_of(header@) == Some(t@),
        r is None ==> bearer_of(header@) is None,
{
    let n = header.unicode_len();
    if n <= 7 {
        return None;
    }
    let prefix: String = header.substring_char(0, 7).to_owned();
    if !text_is(&prefix, "Bearer ") {
        return None;
    }
    Some(header.substring_char(7, n).to_owned())
}

/// The registry, the pending codes and the live tokens of one server.
pub struct AuthServer {
    registry: ClientRegistry,
    authorizer: Authorizer,
    issuer: Issuer,
    consent_route: String,
}

impl AuthServer {
    /// The registered clients.
    pub closed spec fn clients(&self) -> Map<Seq<char>, ClientView> {
        self.registry@
    }

    /// The pending authorization codes.
    pub closed spec fn codes(&self) -> Map<Seq<char>, GrantView> {
        self.authorizer@
    }

    /// The live tokens.
    pub closed spec fn tokens(&self) -> IssuerView {
        self.issuer@
    }

    /// The issuer's duration policy.
    pub closed spec fn duration(&self) -> Option<i64> {
        self.issuer.duration()
    }

    /// The path that consent forms are posted to.
    pub closed spec fn route(&self) -> Seq<char> {
        self.consent_route@
    }

    /// The registry files each client under its identifier and the token
    /// indices agree.
    pub closed spec fn wf(&self) -> bool {
        self.registry.wf() && self.issuer@.wf()
    }

    /// A server over the given parts, with consent forms posted to `consent_route`.
    pub fn new(registry: ClientRegistry, authorizer: Authorizer, issuer: Issuer, consent_route: String) -> (r: AuthServer)
        requires
            registry.wf(),
            issuer@.wf(),
        ensures
            r.wf(),
            r.clients() == registry@,
            r.codes() == authorizer@,
            r.tokens() == issuer@,
            r.duration() == issuer.duration(),
            r.route() == consent_route@,
    {
        AuthServer { registry, authorizer, issuer, consent_route }
    }

    /// The client registry.
    pub fn registry(&self) -> (r: &ClientRegistry)
        ensures
            r@ == self.clients(),
    {
        &self.registry
    }

    /// The issuer.
    pub fn issuer(&self) -> (r: &Issuer)
        ensures
            r@ == self.tokens(),
    {
        &self.issuer
    }

    /// The authorization flow. The request is checked against the registry
    /// first; then a prompt renders the consent page, and an answer either
    /// binds a fresh code to the grant the owner approved or is refused.
    /// Approval without an identified owner is refused like a denial.
    pub fn authorization_flow(&mut self, req: &AuthorizationRequest, consent: Consent, now: i64) -> (r: Result<
        AuthorizationOutcome,
        FlowError,
    >)
        requires
            old(self).wf(),
        ensures
            final(self).wf(),
            final(self).clients() == old(self).clients(),
            final(self).tokens() == old(self).tokens(),
            final(self).duration() == old(self).duration(),
            final(self).route() == old(self).route(),
            authorization_target(old(self).clients(), *req) matches Err(e) ==> r == Err::<
                AuthorizationOutcome,
                FlowError,
            >(e),
            r is Err ==> final(self).codes() == old(self).codes(),
            authorization_target(old(self).clients(), *req) is Ok && consent is Answer
                && consent_owner(consent) is None ==> r == Err::<AuthorizationOutcome, FlowError>(
                FlowError::ConsentDenied,
            ),
            r matches Ok(AuthorizationOutcome::ConsentPage(page)) ==> {
                let u = authorization_target(old(self).clients(), *req)->Ok_0;
                let c = old(self).clients()[req.client_id->0@];
                &&& authorization_target(old(self).clients(), *req) is Ok
                &&& consent is Prompt
                &&& final(self).codes() == old(self).codes()
                &&& page@ == consent_page(
                    old(self).route(),
                    c.client_id,
                    u,
                    c.scope_text,
                    form_encoded(consent_query_pairs(c.client_id, u, opt_text(req.state))),
                )
            },
            r matches Ok(AuthorizationOutcome::Redirect { redirect_uri, code, state }) ==> {
                let u = authorization_target(old(self).clients(), *req)->Ok_0;
                let c = old(self).clients()[req.client_id->0@];
                &&& authorization_target(old(self).clients(), *req) is Ok
                &&& consent_owner(consent) is Some
                &&& redirect_uri@ == u
                &&& opt_text(state) == opt_text(req.state)
                &&& code@.len() > 0
                &&& !old(self).codes().contains_key(code@)
                &&& final(self).codes() == old(self).codes().insert(
                    code@,
                    authorized_grant(c, consent_owner(consent)->0, u, now),
                )
            },
            authorization_target(old(self).clients(), *req) is Ok && consent is Prompt ==> r is Ok,
            consent_owner(consent) is Some && r is Err ==> authorization_target(
                old(self).clients(),
                *req,
            ) is Err || r == Err::<AuthorizationOutcome, FlowError>(FlowError::Fatal),
    {
        let client_id = match &req.client_id {
            None => return Err(FlowError::InvalidRequest),
            Some(id) => id,
        };
        let redirect = match &req.redirect_uri {
            None => None,
            Some(u) => Some(u.as_str()),
        };
        let bound = match self.registry.bound_redirect(client_id.as_str(), redirect) {
            Err(RegistryError::UnknownClient) => return Err(FlowError::UnknownClient),
            Err(RegistryError::RedirectMismatch) => return Err(FlowError::RedirectMismatch),
            Ok(u) => u,
        };
        if !opt_text_is(&req.response_type, "code") {
            return Err(FlowError::InvalidRequest);
        }
        let client = match self.registry.lookup(client_id.as_str()) {
            None => return Err(FlowError::Fatal),
            Some(c) => c,
        };
        let state = match &req.state {
            None => None,
            Some(s) => Some(s.as_str()),
        };
        let decision = match consent {
            Consent::Prompt => ConsentDecision::InProgress,
            Consent::Answer { allowed, owner } => consent_decision(allowed, owner),
        };
        match decision {
            ConsentDecision::InProgress => {
                let page = consent_page_html(
                    self.consent_route.as_str(),
                    client.client_id.as_str(),
                    bound.as_str(),
                    client.scope_text.as_str(),
                    state,
                );
                assert(opt_text(req.state) == match state {
                    Some(s) => Some(s@),
                    None => None::<Seq<char>>,
                });
                Ok(AuthorizationOutcome::ConsentPage(page))
            },
            ConsentDecision::Denied => Err(FlowError::ConsentDenied),
            ConsentDecision::Authorized(owner) => {
                let until = if now > i64::MAX - CODE_LIFETIME {
                    i64::MAX
                } else {
                    now + CODE_LIFETIME
                };
                let grant = Grant {
                    owner_id: owner,
                    client_id: client.client_id.clone(),
                    redirect_uri: bound.clone(),
                    scope: client.default_scope.clone(),
                    until,
                };
                match self.authorizer.issue(grant) {
                    Err(_) => Err(FlowError::Fatal),
                    Ok(code) => Ok(
                        AuthorizationOutcome::Redirect {
                            redirect_uri: bound,
                            code,
                            state: req.state.clone(),
                        },
                    ),
                }
            },
        }
    }

    /// Seconds from `now` until `until`, when that is later.
    fn seconds_until(until: i64, now: i64) -> (r: u64)
        requires
            until > now,
        ensures
            r as int == until - now,
    {
        (until as i128 - now as i128) as u64
    }

    /// The access-token flow: the code is redeemed (and so consumed), and
    /// when it was issued to this client for this redirect URI and has not
    /// expired, a fresh bearer token and refresh token are issued for its
    /// grant. Every refusal of the code looks the same to the client.
    pub fn access_token_flow(&mut self, req: &TokenRequest, now: i64) -> (r: Result<TokenResponse, FlowError>)
        requires
            old(self).wf(),
        ensures
            final(self).wf(),
            final(self).clients() == old(self).clients(),
            final(self).duration() == old(self).duration(),
            final(self).route() == old(self).route(),
            !token_request_ok(*req) ==> r == Err::<TokenResponse, FlowError>(FlowError::InvalidRequest)
                && final(self).codes() == old(self).codes(),
            token_request_ok(*req) ==> final(self).codes() == redeem_outcome(
                old(self).codes(),
                req.code->0@,
            ).1,
            token_request_ok(*req) && !(redeem_outcome(old(self).codes(), req.code->0@).0 matches Some(
                g,
            ) && code_grant_ok(g, *req, now)) ==> r == Err::<TokenResponse, FlowError>(
                FlowError::InvalidOrExpiredCode,
            ),
            token_request_ok(*req) && (redeem_outcome(old(self).codes(), req.code->0@).0 matches Some(g)
                && code_grant_ok(g, *req, now)) ==> r is Ok || r == Err::<TokenResponse, FlowError>(
                FlowError::Fatal,
            ),
            r is Err ==> final(self).tokens() == old(self).tokens(),
            r matches Err(e) ==> e == FlowError::InvalidRequest || e == FlowError::InvalidOrExpiredCode
                || e == FlowError::Fatal,
            r matches Ok(t) ==> {
                let g = redeem_outcome(old(self).codes(), req.code->0@).0->0;
                let issued = g.with_until(policy_until(old(self).duration(), now, g.until));
                &&& token_request_ok(*req)
                &&& code_grant_ok(g, *req, now)
                &&& old(self).tokens().fresh_pair(t.access_token@, t.refresh_token@)
                &&& t.until == issued.until
                &&& t.expires_in == (if t.until > now { t.until - now } else { 0 })
                &&& final(self).tokens() == old(self).tokens().issued(
                    issued,
                    t.access_token@,
                    t.refresh_token@,
                )
            },
    {
        if !opt_text_is(&req.grant_type, "authorization_code") {
            return Err(FlowError::InvalidRequest);
        }
        let (code, client_id, redirect_uri) = match (&req.code, &req.client_id, &req.redirect_uri) {
            (Some(c), Some(id), Some(u)) => (c, id, u),
            _ => return Err(FlowError::InvalidRequest),
        };
        let grant = match self.authorizer.redeem(code.as_str()) {
            Err(_) => return Err(FlowError::InvalidOrExpiredCode),
            Ok(g) => g,
        };
        if !(grant.client_id == *client_id) || !(grant.redirect_uri == *redirect_uri) {
            return Err(FlowError::InvalidOrExpiredCode);
        }
        if grant.is_expired(now) {
            return Err(FlowError::InvalidOrExpiredCode);
        }
        match self.issuer.issue_at(grant, now) {
            Err(_) => Err(FlowError::Fatal),
            Ok(t) => {
                let expires_in = if t.until > now {
                    Self::seconds_until(t.until, now)
                } else {
                    0
                };
                Ok(
                    TokenResponse {
                        access_token: t.token,
                        refresh_token: t.refresh,
                        expires_in,
                        until: t.until,
                    },
                )
            },
        }
    }

    /// The refresh flow: a live refresh token whose grant has not expired is
    /// exchanged for a fresh pair, on the same grant or on one narrowed to
    /// the requested scope, which then lasts `REFRESH_LIFETIME` seconds from
    /// `now`; the old pair stops working at once.
    pub fn refresh_flow(&mut self, req: &RefreshRequest, now: i64) -> (r: Result<TokenResponse, FlowError>)
        requires
            old(self).wf(),
        ensures
            final(self).wf(),
            final(self).clients() == old(self).clients(),
            final(self).codes() == old(self).codes(),
            final(self).duration() == old(self).duration(),
            final(self).route() == old(self).route(),
            r is Err ==> final(self).tokens() == old(self).tokens(),
            !refresh_request_ok(*req) ==> r == Err::<TokenResponse, FlowError>(FlowError::InvalidRequest),
            refresh_request_ok(*req) ==> match refresh_refusal(
                old(self).tokens().refresh_grant(req.refresh_token->0@),
                opt_text(req.scope),
                now,
            ) {
                Some(e) => r == Err::<TokenResponse, FlowError>(e),
                None => r is Ok || r == Err::<TokenResponse, FlowError>(FlowError::Fatal),
            },
            r matches Ok(t) ==> {
                let old_refresh = req.refresh_token->0@;
                let g = refreshed_grant(
                    old(self).tokens().refresh_grant(old_refresh)->0,
                    opt_text(req.scope),
                    now,
                );
                let issued = g.with_until(policy_until(old(self).duration(), now, g.until));
                &&& refresh_request_ok(*req)
                &&& old(self).tokens().refresh.contains_key(old_refresh)
                &&& old(self).tokens().fresh_pair(t.access_token@, t.refresh_token@)
                &&& t.until == issued.until
                &&& t.expires_in == (if t.until > now { t.until - now } else { 0 })
                &&& final(self).tokens() == old(self).tokens().rotated(
                    old_refresh,
                    issued,
                    t.access_token@,
                    t.refresh_token@,
                )
            },
    {
        if !opt_text_is(&req.grant_type, "refresh_token") {
            return Err(FlowError::InvalidRequest);
        }
        let token = match &req.refresh_token {
            None => return Err(FlowError::InvalidRequest),
            Some(t) => t,
        };
        let mut grant = match self.issuer.recover_by_refresh(token.as_str()) {
            None => return Err(FlowError::InvalidOrExpiredRefreshToken),
            Some(g) => g,
        };
        if grant.is_expired(now) {
            return Err(FlowError::InvalidOrExpiredRefreshToken);
        }
        match &req.scope {
            None => {},
            Some(text) => {
                let scope = match parse_scope_text(text.as_str()) {
                    None => return Err(FlowError::InvalidRequest),
                    Some(sc) => sc,
                };
                if !scope_allows(&scope, &grant.scope) {
                    return Err(FlowError::InsufficientScope);
                }
                grant.scope = scope;
            },
        }
        grant.until = if now > i64::MAX - REFRESH_LIFETIME {
            i64::MAX
        } else {
            now + REFRESH_LIFETIME
        };
        match self.issuer.refresh_at(token.as_str(), grant, now) {
            Err(IssuerError::NotFound) => Err(FlowError::InvalidOrExpiredRefreshToken),
            Err(IssuerError::Fatal) => Err(FlowError::Fatal),
            Ok(t) => {
                let expires_in = if t.until > now {
                    Self::seconds_until(t.until, now)
                } else {
                    0
                };
                Ok(
                    TokenResponse {
                        access_token: t.token,
                        refresh_token: t.refresh,
                        expires_in,
                        until: t.until,
                    },
                )
            },
        }
    }

    /// The resource flow: the bearer token of the `Authorization` header must
    /// be live, unexpired, and granted a scope that covers `required`; the
    /// grant it was issued for is handed back.
    pub fn resource_flow(&self, authorization: Option<&str>, required: &Scope, now: i64) -> (r: Result<
        Grant,
        FlowError,
    >)
        requires
            self.wf(),
        ensures
            r matches Ok(g) ==> resource_outcome(
                self.tokens(),
                text_of(authorization),
                scope_tokens(*required),
                now,
            ) == Ok::<GrantView, FlowError>(g@),
            r matches Err(e) ==> resource_outcome(
                self.tokens(),
                text_of(authorization),
                scope_tokens(*required),
                now,
            ) == Err::<GrantView, FlowError>(e),
    {
        let header = match authorization {
            None => return Err(FlowError::InvalidToken),
            Some(h) => h,
        };
        let token = match bearer_token(header) {
            None => return Err(FlowError::InvalidToken),
            Some(t) => t,
        };
        let grant = match self.issuer.recover_by_access(token.as_str()) {
            None => return Err(FlowError::InvalidToken),
            Some(g) => g,
        };
        if grant.is_expired(now) {
            return Err(FlowError::InvalidToken);
        }
        if !scope_allows(required, &grant.scope) {
            return Err(FlowError::InsufficientScope);
        }
        Ok(grant)
    }

    /// The server as deployed: one public client, `LocalClient`, redirected
    /// to `http://localhost:8000/clientside/endpoint` with scope
    /// `default-scope`; codes and tokens drawn from 16 random bytes; no
    /// duration policy, so tokens live as long as their code's grant.
    pub fn preconfigured() -> (r: AuthServer)
        ensures
            r.wf(),
            r.clients().dom() == set!["LocalClient"@],
            r.clients()["LocalClient"@].redirect_uri == "http://localhost:8000/clientside/endpoint"@,
            r.clients()["LocalClient"@].scope == scope_words("default-scope"@),
            r.codes() == Map::<Seq<char>, GrantView>::empty(),
            r.tokens().access == Map::<Seq<char>, crate::issuer::TokenView>::empty(),
            r.tokens().refresh == Map::<Seq<char>, Seq<char>>::empty(),
            r.duration() is None,
            r.route() == "/api/v1/authorize"@,
    {
        let mut registry = ClientRegistry::new();
        proof {
            reveal_strlit("default-scope");
        }
        assert(scope_text_ok("default-scope"@));
        match Client::public("LocalClient", "http://localhost:8000/clientside/endpoint", "default-scope") {
            Some(c) => registry.register(c),
            None => {},
        }
        assert(registry@.dom() =~= set!["LocalClient"@]);
        let authorizer = Authorizer::new(RandomGenerator::new(16));
        let issuer = Issuer::new(RandomGenerator::new(16));
        AuthServer::new(registry, authorizer, issuer, String::from_str("/api/v1/authorize"))
    }
}

} // verus!
