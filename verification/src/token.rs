//! The credential lifecycle: expiry detection, refresh, and the
//! interactive re-authorization fallback.
//!
//! Every network action is commanded, never performed, here: the caller
//! carries each command out and feeds the answer back as an event. The
//! decision functions are verified for every possible answer.

use vstd::prelude::*;
use vstd::string::StringExecFns;
use crate::credential::{
    Credential, TokenResponse, EXPIRY_MARGIN_SECS, spec_expires_at, spec_new_credential,
};
use crate::errors::AuthError;
use crate::strutil::{spec_trim, trim_str};

verus! {

/// Owner of the OAuth2 credential and of the decisions about it.
#[derive(Debug)]
pub struct TokenManager {
    pub app_key: String,
    pub app_secret: String,
    pub token_data: Option<Credential>,
}

/// The vendor's authorization page for `app_key`.
pub open spec fn spec_authorization_url(app_key: Seq<char>) -> Seq<char> {
    "https://openapi.baidu.com/oauth/2.0/"@ + "authorize?response_type=code&client_id="@ + app_key
        + "&redirect_uri=oob&scope=basic,netdisk"@
}

/// The authorization-code exchange request.
pub open spec fn spec_exchange_url(
    app_key: Seq<char>,
    app_secret: Seq<char>,
    code: Seq<char>,
) -> Seq<char> {
    "https://openapi.baidu.com/oauth/2.0/"@ + "token?grant_type=authorization_code&code="@ + code
        + "&client_id="@ + app_key + "&client_secret="@ + app_secret + "&redirect_uri=oob"@
}

/// The refresh exchange request.
pub open spec fn spec_refresh_url(
    app_key: Seq<char>,
    app_secret: Seq<char>,
    refresh_token: Seq<char>,
) -> Seq<char> {
    "https://openapi.baidu.com/oauth/2.0/"@ + "token?grant_type=refresh_token&refresh_token="@
        + refresh_token + "&client_id="@ + app_key + "&client_secret="@ + app_secret
}

/// The account-identity request used to verify a fresh token.
pub open spec fn spec_uinfo_url(access_token: Seq<char>) -> Seq<char> {
    "https://pan.baidu.com/rest/2.0/xpan/nas?method=uinfo&access_token="@ + access_token
}

fn build_authorization_url(app_key: &str) -> (r: String)
    ensures
        r@ == spec_authorization_url(app_key@),
{
    let mut url = String::new();
    url.append("https://openapi.baidu.com/oauth/2.0/");
    url.append("authorize?response_type=code&client_id=");
    url.append(app_key);
    url.append("&redirect_uri=oob&scope=basic,netdisk");
    proof {
        assert(url@ =~= spec_authorization_url(app_key@));
    }
    url
}

fn build_exchange_url(app_key: &str, app_secret: &str, code: &str) -> (r: String)
    ensures
        r@ == spec_exchange_url(app_key@, app_secret@, code@),
{
    let mut url = String::new();
    url.append("https://openapi.baidu.com/oauth/2.0/");
    url.append("token?grant_type=authorization_code&code=");
    url.append(code);
    url.append("&client_id=");
    url.append(app_key);
    url.append("&client_secret=");
    url.append(app_secret);
    url.append("&redirect_uri=oob");
    proof {
        assert(url@ =~= spec_exchange_url(app_key@, app_secret@, code@));
    }
    url
}

fn build_refresh_url(app_key: &str, app_secret: &str, refresh_token: &str) -> (r: String)
    ensures
        r@ == spec_refresh_url(app_key@, app_secret@, refresh_token@),
{
    let mut url = String::new();
    url.append("https://openapi.baidu.com/oauth/2.0/");
    url.append("token?grant_type=refresh_token&refresh_token=");
    url.append(refresh_token);
    url.append("&client_id=");
    url.append(app_key);
    url.append("&client_secret=");
    url.append(app_secret);
    proof {
        assert(url@ =~= spec_refresh_url(app_key@, app_secret@, refresh_token@));
    }
    url
}

fn build_uinfo_url(access_token: &str) -> (r: String)
    ensures
        r@ == spec_uinfo_url(access_token@),
{
    let mut url = String::new();
    url.append("https://pan.baidu.com/rest/2.0/xpan/nas?method=uinfo&access_token=");
    url.append(access_token);
    proof {
        assert(url@ =~= spec_uinfo_url(access_token@));
    }
    url
}

/// Relies on chrono's Utc::now, read as Unix seconds. The result depends
/// on the machine clock, so nothing is promised of it; every decision that
/// matters takes the instant as an argument.
#[verifier::external_body]
fn now_unix() -> i64 {
    chrono::Utc::now().timestamp()
}

/// How a request for a valid access token is satisfied.
pub enum TokenQuery {
    /// The stored token is still valid: use it, with no network action.
    UseToken { access_token: String },
    /// The stored token is stale: send this one refresh exchange, then
    /// apply the answer with `apply_token_response`.
    Refresh { url: String },
    /// No way to produce a token without re-authorization.
    Reject { err: AuthError },
}

/// The manager updated by a successful grant `resp` obtained at `now`.
pub open spec fn spec_apply_ok(mgr: TokenManager, resp: TokenResponse, now: int) -> TokenManager {
    TokenManager {
        app_key: mgr.app_key,
        app_secret: mgr.app_secret,
        token_data: Some(spec_new_credential(resp, mgr.token_data, now)),
    }
}

impl TokenManager {
    /// The stored credential exists and is valid at `now`.
    pub open spec fn has_valid_token(self, now: int) -> bool {
        self.token_data is Some && self.token_data->Some_0.valid_at(now)
    }

    /// A refresh exchange can be attempted: a refresh token is stored.
    pub open spec fn refresh_available(self) -> bool {
        self.token_data is Some && self.token_data->Some_0.refresh_token is Some
    }

    pub fn new(app_key: String, app_secret: String) -> (r: TokenManager)
        ensures
            r.app_key == app_key,
            r.app_secret == app_secret,
            r.token_data is None,
    {
        TokenManager { app_key, app_secret, token_data: None }
    }

    /// Whether the stored credential is valid at the instant `now`.
    pub fn is_token_valid(&self, now: i64) -> (r: bool)
        ensures
            r == self.has_valid_token(now as int),
    {
        match &self.token_data {
            Some(cred) => now < cred.expires_at,
            None => false,
        }
    }

    /// Validity of the stored credential against the machine clock; the
    /// decision for a known instant is `is_token_valid`.
    pub fn is_token_valid_now(&self) -> (r: bool)
        ensures
            r ==> self.token_data is Some,
    {
        let now = now_unix();
        self.is_token_valid(now)
    }

    /// The vendor authorization page the operator must visit.
    pub fn get_authorization_url(&self) -> (r: String)
        ensures
            r@ == spec_authorization_url(self.app_key@),
    {
        build_authorization_url(self.app_key.as_str())
    }

    /// The refresh exchange for the stored refresh token, or the error
    /// when none is stored.
    pub fn refresh_access_token(&self) -> (r: Result<String, AuthError>)
        ensures
            self.refresh_available() ==> (r matches Ok(url) && url@ == spec_refresh_url(
                self.app_key@,
                self.app_secret@,
                self.token_data->Some_0.refresh_token->Some_0@,
            )),
            !self.refresh_available() ==> (r matches Err(e) && e is NoRefreshToken),
    {
        match &self.token_data {
            Some(cred) => match &cred.refresh_token {
                Some(rt) => Ok(
                    build_refresh_url(
                        self.app_key.as_str(),
                        self.app_secret.as_str(),
                        rt.as_str(),
                    ),
                ),
                None => Err(AuthError::NoRefreshToken),
            },
            None => Err(AuthError::NoRefreshToken),
        }
    }

    /// Decide how to satisfy a request for a valid bearer token at `now`.
    ///
    /// While the stored token is valid it is returned as it stands, with
    /// no network action commanded. A stale token with a stored refresh
    /// token commands exactly one refresh exchange. Otherwise the request
    /// is rejected and the caller must re-run the interactive flow.
    pub fn get_valid_access_token(&self, now: i64) -> (r: TokenQuery)
        ensures
            self.has_valid_token(now as int) ==> (r matches TokenQuery::UseToken { access_token }
                && access_token@ == self.token_data->Some_0.access_token@),
            !self.has_valid_token(now as int) && self.refresh_available() ==> (r
                matches TokenQuery::Refresh { url } && url@ == spec_refresh_url(
                self.app_key@,
                self.app_secret@,
                self.token_data->Some_0.refresh_token->Some_0@,
            )),
            !self.has_valid_token(now as int) && !self.refresh_available() ==> (r
                matches TokenQuery::Reject { err } && (if self.token_data is Some {
                err is NoRefreshToken
            } else {
                err is NoCredential
            })),
    {
        match &self.token_data {
            Some(cred) => {
                if now < cred.expires_at {
                    TokenQuery::UseToken { access_token: cred.access_token.clone() }
                } else {
                    match &cred.refresh_token {
                        Some(rt) => TokenQuery::Refresh {
                            url: build_refresh_url(
                                self.app_key.as_str(),
                                self.app_secret.as_str(),
                                rt.as_str(),
                            ),
                        },
                        None => TokenQuery::Reject { err: AuthError::NoRefreshToken },
                    }
                }
            },
            None => TokenQuery::Reject { err: AuthError::NoCredential },
        }
    }

    /// Record the answer of a token exchange obtained at `now`.
    ///
    /// A vendor error leaves the stored credential untouched and surfaces
    /// the error pair; a grant replaces the credential wholesale, keeping
    /// the prior refresh token when the vendor omitted a new one. The
    /// returned copy is what the caller must persist.
    pub fn apply_token_response(&mut self, resp: TokenResponse, now: i64) -> (r: Result<
        Credential,
        AuthError,
    >)
        requires
            resp.error is None ==> i64::MIN + EXPIRY_MARGIN_SECS <= resp.expires_in,
            resp.error is None ==> i64::MIN <= spec_expires_at(now as int, resp.expires_in as int)
                <= i64::MAX,
        ensures
            resp.error is Some ==> {
                &&& *final(self) == *old(self)
                &&& r matches Err(e)
                &&& e matches AuthError::VendorRejected { code, desc }
                &&& code@ == resp.error->Some_0@
                &&& desc@ == (if resp.error_description is Some {
                    resp.error_description->Some_0@
                } else {
                    resp.error->Some_0@
                })
            },
            resp.error is None ==> {
                &&& *final(self) == spec_apply_ok(*old(self), resp, now as int)
                &&& r matches Ok(cred)
                &&& cred == spec_new_credential(resp, old(self).token_data, now as int)
            },
    {
        match resp.error {
            Some(code) => {
                let desc = match resp.error_description {
                    Some(d) => d,
                    None => code.clone(),
                };
                Err(AuthError::VendorRejected { code, desc })
            },
            None => {
                let expires_at = now + (resp.expires_in - EXPIRY_MARGIN_SECS);
                let retained: Option<String> = match resp.refresh_token {
                    Some(t) => Some(t),
                    None => match &self.token_data {
                        Some(c) => match &c.refresh_token {
                            Some(rt) => Some(rt.clone()),
                            None => None,
                        },
                        None => None,
                    },
                };
                let access_copy = resp.access_token.clone();
                let retained_copy: Option<String> = match &retained {
                    Some(t) => Some(t.clone()),
                    None => None,
                };
                let cred = Credential {
                    access_token: resp.access_token,
                    refresh_token: retained,
                    expires_at,
                };
                let stored = Credential {
                    access_token: access_copy,
                    refresh_token: retained_copy,
                    expires_at,
                };
                self.token_data = Some(stored);
                Ok(cred)
            },
        }
    }
}

/// What a request for a valid token decides at `now`.
pub enum TokenDecision {
    UseStored,
    DoRefresh,
    RejectRequest,
}

/// The decision `get_valid_access_token` takes for a manager at `now`.
pub open spec fn spec_token_decision(mgr: TokenManager, now: int) -> TokenDecision {
    if mgr.has_valid_token(now) {
        TokenDecision::UseStored
    } else if mgr.refresh_available() {
        TokenDecision::DoRefresh
    } else {
        TokenDecision::RejectRequest
    }
}

/// Law: a valid credential is served as stored, with no network action:
/// the decision at any instant before the adjusted expiry is to use the
/// stored token unchanged.
pub proof fn lemma_valid_token_served_directly(mgr: TokenManager, now: int)
    requires
        mgr.has_valid_token(now),
    ensures
        spec_token_decision(mgr, now) == TokenDecision::UseStored,
{
}

/// Law: a stale credential with a refresh token the vendor accepts is
/// renewed by exactly one refresh exchange: the decision is a single
/// refresh command, and after the grant is applied the stored token is the
/// response's token and is served directly with no further exchange.
pub proof fn lemma_refresh_renews_once(mgr: TokenManager, resp: TokenResponse, now: int)
    requires
        !mgr.has_valid_token(now),
        mgr.refresh_available(),
        resp.error is None,
        resp.expires_in > EXPIRY_MARGIN_SECS,
        i64::MIN <= spec_expires_at(now, resp.expires_in as int) <= i64::MAX,
    ensures
        spec_token_decision(mgr, now) == TokenDecision::DoRefresh,
        spec_apply_ok(mgr, resp, now).has_valid_token(now),
        spec_apply_ok(mgr, resp, now).token_data->Some_0.access_token == resp.access_token,
        spec_token_decision(spec_apply_ok(mgr, resp, now), now) == TokenDecision::UseStored,
{
}

/// Law: applying a grant to a credential whose expiry has passed moves the
/// expiry strictly forward, and keeps the stored refresh token whenever
/// the vendor omitted a new one.
pub proof fn lemma_refresh_extends_expiry(mgr: TokenManager, resp: TokenResponse, now: int)
    requires
        mgr.token_data is Some,
        mgr.token_data->Some_0.expires_at <= now,
        resp.error is None,
        resp.expires_in > EXPIRY_MARGIN_SECS,
        spec_expires_at(now, resp.expires_in as int) <= i64::MAX,
    ensures
        spec_apply_ok(mgr, resp, now).token_data->Some_0.expires_at
            > mgr.token_data->Some_0.expires_at,
        resp.refresh_token is None ==> spec_apply_ok(mgr, resp, now).token_data->Some_0
            .refresh_token == mgr.token_data->Some_0.refresh_token,
{
}

/// Progress of the initialization flow, in the order its phases can occur.
#[derive(Debug, Clone, Copy, PartialEq, Eq, Structural)]
pub enum InitPhase {
    /// Waiting for the stored credential to be read.
    Idle,
    /// A refresh exchange for a stale stored credential is in flight.
    AwaitingRefresh,
    /// The operator was shown the authorization page and owes a code.
    AwaitingCode,
    /// The authorization-code exchange is in flight.
    AwaitingExchange,
    /// The identity check of the fresh token is in flight.
    AwaitingVerify,
    /// A valid credential is in hand.
    Ready,
    /// Initialization failed; the error was reported.
    Failed,
}

/// What the surrounding process reports back to the flow.
pub enum InitEvent {
    /// The credential store was read: its contents, or nothing.
    StoreLoaded { cred: Option<Credential> },
    /// The credential store exists but cannot be parsed.
    StoreCorrupt,
    /// The refresh exchange answered.
    RefreshResponse { resp: TokenResponse },
    /// The refresh exchange failed in transport.
    RefreshFailed,
    /// The operator pasted an authorization code.
    CodeEntered { code: String },
    /// The authorization-code exchange answered.
    ExchangeResponse { resp: TokenResponse },
    /// The authorization-code exchange failed in transport.
    ExchangeFailed,
    /// The identity check answered with this vendor code.
    VerifyResponse { errno: i32 },
    /// The identity check failed in transport.
    VerifyFailed,
}

/// What the flow commands the surrounding process to do next.
pub enum InitCmd {
    /// Send this refresh exchange and report the answer.
    SendRefresh { url: String },
    /// Show the operator this authorization page and collect a code.
    PromptCode { auth_url: String },
    /// Send this authorization-code exchange and report the answer.
    SendExchange { url: String },
    /// Persist this credential, then send this identity check.
    SendVerify { url: String, store: Credential },
    /// Initialization is complete; persist the credential if one is given.
    Done { persist: Option<Credential> },
    /// Initialization failed with this error.
    Fail { err: AuthError },
}

/// The command stripped of its payload.
#[derive(Debug, Clone, Copy, PartialEq, Eq, Structural)]
pub enum InitCmdKind {
    Refresh,
    Prompt,
    Exchange,
    Verify,
    Done,
    Fail,
}

pub open spec fn kind_of(cmd: InitCmd) -> InitCmdKind {
    match cmd {
        InitCmd::SendRefresh { .. } => InitCmdKind::Refresh,
        InitCmd::PromptCode { .. } => InitCmdKind::Prompt,
        InitCmd::SendExchange { .. } => InitCmdKind::Exchange,
        InitCmd::SendVerify { .. } => InitCmdKind::Verify,
        InitCmd::Done { .. } => InitCmdKind::Done,
        InitCmd::Fail { .. } => InitCmdKind::Fail,
    }
}

/// The initialization flow: phase plus the manager it builds up.
pub struct InitFlow {
    pub phase: InitPhase,
    pub mgr: TokenManager,
}

/// Which events a phase can consume. The two terminal phases consume none.
pub open spec fn accepts(phase: InitPhase, ev: InitEvent) -> bool {
    match (phase, ev) {
        (InitPhase::Idle, InitEvent::StoreLoaded { .. }) => true,
        (InitPhase::Idle, InitEvent::StoreCorrupt) => true,
        (InitPhase::AwaitingRefresh, InitEvent::RefreshResponse { .. }) => true,
        (InitPhase::AwaitingRefresh, InitEvent::RefreshFailed) => true,
        (InitPhase::AwaitingCode, InitEvent::CodeEntered { .. }) => true,
        (InitPhase::AwaitingExchange, InitEvent::ExchangeResponse { .. }) => true,
        (InitPhase::AwaitingExchange, InitEvent::ExchangeFailed) => true,
        (InitPhase::AwaitingVerify, InitEvent::VerifyResponse { .. }) => true,
        (InitPhase::AwaitingVerify, InitEvent::VerifyFailed) => true,
        _ => false,
    }
}

/// The flow after consuming `ev` at `now`.
pub open spec fn spec_init_next(flow: InitFlow, ev: InitEvent, now: int) -> InitFlow {
    match (flow.phase, ev) {
        (InitPhase::Idle, InitEvent::StoreLoaded { cred }) => {
            if cred is Some {
                let c = cred->Some_0;
                let mgr = TokenManager {
                    app_key: flow.mgr.app_key,
                    app_secret: flow.mgr.app_secret,
                    token_data: Some(c),
                };
                if c.valid_at(now) {
                    InitFlow { phase: InitPhase::Ready, mgr }
                } else if c.refresh_token is Some {
                    InitFlow { phase: InitPhase::AwaitingRefresh, mgr }
                } else {
                    InitFlow { phase: InitPhase::AwaitingCode, mgr }
                }
            } else {
                InitFlow { phase: InitPhase::AwaitingCode, mgr: flow.mgr }
            }
        },
        (InitPhase::Idle, InitEvent::StoreCorrupt) => InitFlow {
            phase: InitPhase::Failed,
            mgr: flow.mgr,
        },
        (InitPhase::AwaitingRefresh, InitEvent::RefreshResponse { resp }) => {
            if resp.error is None {
                InitFlow { phase: InitPhase::Ready, mgr: spec_apply_ok(flow.mgr, resp, now) }
            } else {
                InitFlow { phase: InitPhase::AwaitingCode, mgr: flow.mgr }
            }
        },
        (InitPhase::AwaitingRefresh, InitEvent::RefreshFailed) => InitFlow {
            phase: InitPhase::AwaitingCode,
            mgr: flow.mgr,
        },
        (InitPhase::AwaitingCode, InitEvent::CodeEntered { .. }) => InitFlow {
            phase: InitPhase::AwaitingExchange,
            mgr: flow.mgr,
        },
        (InitPhase::AwaitingExchange, InitEvent::ExchangeResponse { resp }) => {
            if resp.error is None {
                InitFlow {
                    phase: InitPhase::AwaitingVerify,
                    mgr: spec_apply_ok(flow.mgr, resp, now),
                }
            } else {
                InitFlow { phase: InitPhase::Failed, mgr: flow.mgr }
            }
        },
        (InitPhase::AwaitingExchange, InitEvent::ExchangeFailed) => InitFlow {
            phase: InitPhase::Failed,
            mgr: flow.mgr,
        },
        (InitPhase::AwaitingVerify, InitEvent::VerifyResponse { errno }) => {
            if errno == 0 {
                InitFlow { phase: InitPhase::Ready, mgr: flow.mgr }
            } else {
                InitFlow { phase: InitPhase::Failed, mgr: flow.mgr }
            }
        },
        (InitPhase::AwaitingVerify, InitEvent::VerifyFailed) => InitFlow {
            phase: InitPhase::Failed,
            mgr: flow.mgr,
        },
        _ => flow,
    }
}

/// The command the flow issues on consuming `ev` at `now`.
pub open spec fn spec_init_cmd(flow: InitFlow, ev: InitEvent, now: int) -> InitCmdKind {
    match (flow.phase, ev) {
        (InitPhase::Idle, InitEvent::StoreLoaded { cred }) => {
            if cred is Some {
                let c = cred->Some_0;
                if c.valid_at(now) {
                    InitCmdKind::Done
                } else if c.refresh_token is Some {
                    InitCmdKind::Refresh
                } else {
                    InitCmdKind::Prompt
                }
            } else {
                InitCmdKind::Prompt
            }
        },
        (InitPhase::Idle, InitEvent::StoreCorrupt) => InitCmdKind::Fail,
        (InitPhase::AwaitingRefresh, InitEvent::RefreshResponse { resp }) => {
            if resp.error is None {
                InitCmdKind::Done
            } else {
                InitCmdKind::Prompt
            }
        },
        (InitPhase::AwaitingRefresh, InitEvent::RefreshFailed) => InitCmdKind::Prompt,
        (InitPhase::AwaitingCode, InitEvent::CodeEntered { .. }) => InitCmdKind::Exchange,
        (InitPhase::AwaitingExchange, InitEvent::ExchangeResponse { resp }) => {
            if resp.error is None {
                InitCmdKind::Verify
            } else {
                InitCmdKind::Fail
            }
        },
        (InitPhase::AwaitingExchange, InitEvent::ExchangeFailed) => InitCmdKind::Fail,
        (InitPhase::AwaitingVerify, InitEvent::VerifyResponse { errno }) => {
            if errno == 0 {
                InitCmdKind::Done
            } else {
                InitCmdKind::Fail
            }
        },
        (InitPhase::AwaitingVerify, InitEvent::VerifyFailed) => InitCmdKind::Fail,
        _ => InitCmdKind::Fail,
    }
}

impl InitFlow {
    /// Begin initialization; the first duty of the surrounding process is
    /// to read the credential store and report `StoreLoaded` or
    /// `StoreCorrupt`.
    pub fn start(mgr: TokenManager) -> (r: InitFlow)
        ensures
            r.phase == InitPhase::Idle,
            r.mgr == mgr,
    {
        InitFlow { phase: InitPhase::Idle, mgr }
    }

    /// Consume one event and command the next action.
    pub fn step(&mut self, ev: InitEvent, now: i64) -> (cmd: InitCmd)
        requires
            accepts(old(self).phase, ev),
            ev matches InitEvent::RefreshResponse { resp } ==> (resp.error is None ==> i64::MIN
                + EXPIRY_MARGIN_SECS <= resp.expires_in && i64::MIN <= spec_expires_at(
                now as int,
                resp.expires_in as int,
            ) <= i64::MAX),
            ev matches InitEvent::ExchangeResponse { resp } ==> (resp.error is None ==> i64::MIN
                + EXPIRY_MARGIN_SECS <= resp.expires_in && i64::MIN <= spec_expires_at(
                now as int,
                resp.expires_in as int,
            ) <= i64::MAX),
        ensures
            *final(self) == spec_init_next(*old(self), ev, now as int),
            kind_of(cmd) == spec_init_cmd(*old(self), ev, now as int),
            cmd matches InitCmd::SendRefresh { url } ==> url@ == spec_refresh_url(
                old(self).mgr.app_key@,
                old(self).mgr.app_secret@,
                final(self).mgr.token_data->Some_0.refresh_token->Some_0@,
            ),
            cmd matches InitCmd::PromptCode { auth_url } ==> auth_url@ == spec_authorization_url(
                old(self).mgr.app_key@,
            ),
            cmd matches InitCmd::SendExchange { url } ==> (ev matches InitEvent::CodeEntered { code }
                && url@ == spec_exchange_url(
                old(self).mgr.app_key@,
                old(self).mgr.app_secret@,
                spec_trim(code@),
            )),
            cmd matches InitCmd::SendVerify { url, store } ==> (final(self).mgr.token_data
                == Some(store) && url@ == spec_uinfo_url(store.access_token@)),
            cmd matches InitCmd::Done { persist } ==> ((persist is Some <==> old(self).phase
                is AwaitingRefresh) && (persist is Some ==> final(self).mgr.token_data == Some(
            persist->Some_0))),
            cmd matches InitCmd::Fail { err } ==> ((old(self).phase is Idle
                ==> err is CorruptStore) && (old(self).phase is AwaitingExchange ==> (ev
                matches InitEvent::ExchangeResponse { resp } && err
                matches AuthError::VendorRejected { code, desc } && code@ == resp.error->Some_0@)
                || (ev is ExchangeFailed && err is Network)) && (old(self).phase is AwaitingVerify
                ==> (ev is VerifyResponse && err is VerificationFailed) || (ev is VerifyFailed
                && err is Network))),
    {
        let phase = self.phase;
        match (phase, ev) {
            (InitPhase::Idle, InitEvent::StoreLoaded { cred }) => {
                match cred {
                    Some(c) => {
                        let valid = now < c.expires_at;
                        let refresh_url = match &c.refresh_token {
                            Some(rt) => Some(
                                build_refresh_url(
                                    self.app_key_str(),
                                    self.app_secret_str(),
                                    rt.as_str(),
                                ),
                            ),
                            None => None,
                        };
                        self.mgr.token_data = Some(c);
                        if valid {
                            self.phase = InitPhase::Ready;
                            InitCmd::Done { persist: None }
                        } else {
                            match refresh_url {
                                Some(url) => {
                                    self.phase = InitPhase::AwaitingRefresh;
                                    InitCmd::SendRefresh { url }
                                },
                                None => {
                                    self.phase = InitPhase::AwaitingCode;
                                    InitCmd::PromptCode {
                                        auth_url: self.authorization_url_for_prompt(),
                                    }
                                },
                            }
                        }
                    },
                    None => {
                        self.phase = InitPhase::AwaitingCode;
                        InitCmd::PromptCode { auth_url: self.authorization_url_for_prompt() }
                    },
                }
            },
            (InitPhase::Idle, InitEvent::StoreCorrupt) => {
                self.phase = InitPhase::Failed;
                InitCmd::Fail { err: AuthError::CorruptStore }
            },
            (InitPhase::AwaitingRefresh, InitEvent::RefreshResponse { resp }) => {
                match self.mgr.apply_token_response(resp, now) {
                    Ok(cred) => {
                        self.phase = InitPhase::Ready;
                        InitCmd::Done { persist: Some(cred) }
                    },
                    Err(_) => {
                        self.phase = InitPhase::AwaitingCode;
                        InitCmd::PromptCode { auth_url: self.authorization_url_for_prompt() }
                    },
                }
            },
            (InitPhase::AwaitingRefresh, InitEvent::RefreshFailed) => {
                self.phase = InitPhase::AwaitingCode;
                InitCmd::PromptCode { auth_url: self.authorization_url_for_prompt() }
            },
            (InitPhase::AwaitingCode, InitEvent::CodeEntered { code }) => {
                self.phase = InitPhase::AwaitingExchange;
                let trimmed = trim_str(code.as_str());
                InitCmd::SendExchange {
                    url: build_exchange_url(
                        self.mgr.app_key.as_str(),
                        self.mgr.app_secret.as_str(),
                        trimmed,
                    ),
                }
            },
            (InitPhase::AwaitingExchange, InitEvent::ExchangeResponse { resp }) => {
                match self.mgr.apply_token_response(resp, now) {
                    Ok(cred) => {
                        self.phase = InitPhase::AwaitingVerify;
                        let url = build_uinfo_url(cred.access_token.as_str());
                        InitCmd::SendVerify { url, store: cred }
                    },
                    Err(err) => {
                        self.phase = InitPhase::Failed;
                        InitCmd::Fail { err }
                    },
                }
            },
            (InitPhase::AwaitingExchange, InitEvent::ExchangeFailed) => {
                self.phase = InitPhase::Failed;
                InitCmd::Fail { err: AuthError::Network }
            },
            (InitPhase::AwaitingVerify, InitEvent::VerifyResponse { errno }) => {
                if errno == 0 {
                    self.phase = InitPhase::Ready;
                    InitCmd::Done { persist: None }
                } else {
                    self.phase = InitPhase::Failed;
                    InitCmd::Fail { err: AuthError::VerificationFailed }
                }
            },
            (InitPhase::AwaitingVerify, InitEvent::VerifyFailed) => {
                self.phase = InitPhase::Failed;
                InitCmd::Fail { err: AuthError::Network }
            },
            _ => {
                InitCmd::Fail { err: AuthError::Network }
            },
        }
    }

    fn app_key_str(&self) -> (r: &str)
        ensures
            r@ == self.mgr.app_key@,
    {
        self.mgr.app_key.as_str()
    }

    fn app_secret_str(&self) -> (r: &str)
        ensures
            r@ == self.mgr.app_secret@,
    {
        self.mgr.app_secret.as_str()
    }

    fn authorization_url_for_prompt(&self) -> (r: String)
        ensures
            r@ == spec_authorization_url(self.mgr.app_key@),
    {
        build_authorization_url(self.mgr.app_key.as_str())
    }

    /// Hand the finished manager out once initialization has succeeded.
    pub fn into_manager(self) -> (r: TokenManager)
        requires
            self.phase == InitPhase::Ready,
        ensures
            r == self.mgr,
    {
        self.mgr
    }
}

/// Each phase's position in the one-way order of the flow.
pub open spec fn phase_rank(p: InitPhase) -> int {
    match p {
        InitPhase::Idle => 0,
        InitPhase::AwaitingRefresh => 1,
        InitPhase::AwaitingCode => 2,
        InitPhase::AwaitingExchange => 3,
        InitPhase::AwaitingVerify => 4,
        InitPhase::Ready => 5,
        InitPhase::Failed => 5,
    }
}

/// Law: every step moves the flow strictly forward; no phase is ever
/// revisited, so no action is ever commanded twice.
pub proof fn lemma_init_phase_advances(flow: InitFlow, ev: InitEvent, now: int)
    requires
        accepts(flow.phase, ev),
    ensures
        phase_rank(spec_init_next(flow, ev, now).phase) > phase_rank(flow.phase),
{
}

/// Law: a refresh exchange is commanded only from the initial phase, so at
/// most one refresh is ever commanded in a run of the flow.
pub proof fn lemma_refresh_only_from_idle(flow: InitFlow, ev: InitEvent, now: int)
    requires
        accepts(flow.phase, ev),
        spec_init_cmd(flow, ev, now) == InitCmdKind::Refresh,
    ensures
        flow.phase == InitPhase::Idle,
{
}

/// The commands the flow issues over a whole sequence of events, one
/// command per event, with `nows[i]` the instant event `i` arrives.
pub open spec fn spec_init_run(
    flow: InitFlow,
    evs: Seq<InitEvent>,
    nows: Seq<int>,
) -> Seq<InitCmdKind>
    decreases evs.len(),
{
    if evs.len() == 0 {
        Seq::empty()
    } else {
        seq![spec_init_cmd(flow, evs[0], nows[0])] + spec_init_run(
            spec_init_next(flow, evs[0], nows[0]),
            evs.drop_first(),
            nows.drop_first(),
        )
    }
}

/// Law: once the flow has left the initial phase, no continuation ever
/// commands a refresh: over any sequence of further events, not one
/// refresh exchange is issued. With `lemma_refresh_only_from_idle`, at
/// most one refresh occurs in any run, and none after the interactive
/// prompt.
pub proof fn lemma_no_refresh_after_idle(flow: InitFlow, evs: Seq<InitEvent>, nows: Seq<int>)
    requires
        phase_rank(flow.phase) >= 1,
    ensures
        spec_init_run(flow, evs, nows).len() == evs.len(),
        forall|i: int| 0 <= i < evs.len() ==> #[trigger] spec_init_run(flow, evs, nows)[i]
            != InitCmdKind::Refresh,
    decreases evs.len(),
{
    if evs.len() > 0 {
        let next = spec_init_next(flow, evs[0], nows[0]);
        assert(phase_rank(next.phase) >= 1);
        lemma_no_refresh_after_idle(next, evs.drop_first(), nows.drop_first());
    }
}

/// Law: if the refresh tried during initialization fails — whether the
/// vendor rejected it or transport failed — the flow falls back to the
/// interactive authorization, exactly once and never in the reverse
/// order: the prompt is commanded immediately, and no later phase can
/// command a refresh again.
pub proof fn lemma_refresh_failure_falls_back(flow: InitFlow, ev: InitEvent, now: int)
    requires
        flow.phase == InitPhase::AwaitingRefresh,
        accepts(flow.phase, ev),
        (ev is RefreshFailed) || (ev matches InitEvent::RefreshResponse { resp } && resp.error
            is Some),
    ensures
        spec_init_cmd(flow, ev, now) == InitCmdKind::Prompt,
        spec_init_next(flow, ev, now).phase == InitPhase::AwaitingCode,
        forall|f2: InitFlow, e2: InitEvent, n2: int|
            accepts(f2.phase, e2) && phase_rank(f2.phase) >= 2 ==> #[trigger] spec_init_cmd(
                f2,
                e2,
                n2,
            ) != InitCmdKind::Refresh,
{
}

} // verus!
