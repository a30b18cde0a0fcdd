use estan::credential::{Credential, TokenResponse};
use estan::errors::AuthError;
use estan::token::{
    InitCmd, InitEvent, InitFlow, InitPhase, TokenManager, TokenQuery,
};

fn cred(token: &str, refresh: Option<&str>, expires_at: i64) -> Credential {
    Credential {
        access_token: token.to_string(),
        refresh_token: refresh.map(|s| s.to_string()),
        expires_at,
    }
}

fn grant(token: &str, refresh: Option<&str>, expires_in: i64) -> TokenResponse {
    TokenResponse {
        access_token: token.to_string(),
        refresh_token: refresh.map(|s| s.to_string()),
        expires_in,
        error: None,
        error_description: None,
    }
}

fn rejection(code: &str, desc: Option<&str>) -> TokenResponse {
    TokenResponse {
        access_token: String::new(),
        refresh_token: None,
        expires_in: 0,
        error: Some(code.to_string()),
        error_description: desc.map(|s| s.to_string()),
    }
}

fn manager_with(c: Option<Credential>) -> TokenManager {
    let mut m = TokenManager::new("k".to_string(), "s".to_string());
    m.token_data = c;
    m
}

#[test]
fn valid_token_is_served_without_any_request() {
    let m = manager_with(Some(cred("tok", Some("r"), 1000)));
    assert!(m.is_token_valid(999));
    assert!(!m.is_token_valid(1000));
    match m.get_valid_access_token(999) {
        TokenQuery::UseToken { access_token } => assert_eq!(access_token, "tok"),
        _ => panic!("expected the stored token"),
    }
}

#[test]
fn stale_token_commands_exactly_one_refresh() {
    let mut m = manager_with(Some(cred("old", Some("rt"), 1000)));
    let url = match m.get_valid_access_token(1000) {
        TokenQuery::Refresh { url } => url,
        _ => panic!("expected a refresh command"),
    };
    assert_eq!(
        url,
        "https://openapi.baidu.com/oauth/2.0/token?grant_type=refresh_token&refresh_token=rt&client_id=k&client_secret=s"
    );
    let saved = m
        .apply_token_response(grant("new", Some("rt2"), 2592000), 1000)
        .unwrap();
    assert_eq!(saved.access_token, "new");
    assert_eq!(saved.refresh_token.as_deref(), Some("rt2"));
    assert_eq!(saved.expires_at, 1000 + 2592000 - 300);
    match m.get_valid_access_token(1000) {
        TokenQuery::UseToken { access_token } => assert_eq!(access_token, "new"),
        _ => panic!("expected the renewed token"),
    }
}

#[test]
fn refresh_keeps_prior_refresh_token_when_vendor_omits_one() {
    // A persisted credential whose expiry has passed, renewed by a grant
    // without a new refresh token: the expiry moves strictly forward and
    // the refresh token is unchanged.
    let mut m = manager_with(Some(cred("old", Some("keepme"), 500)));
    let saved = m.apply_token_response(grant("new", None, 3600), 800).unwrap();
    assert_eq!(saved.refresh_token.as_deref(), Some("keepme"));
    assert!(saved.expires_at > 500);
    assert_eq!(saved.expires_at, 800 + 3600 - 300);
}

#[test]
fn vendor_rejection_keeps_stored_credential() {
    let mut m = manager_with(Some(cred("old", Some("rt"), 1000)));
    let err = m
        .apply_token_response(rejection("invalid_grant", Some("expired")), 1000)
        .unwrap_err();
    match err {
        AuthError::VendorRejected { code, desc } => {
            assert_eq!(code, "invalid_grant");
            assert_eq!(desc, "expired");
        }
        _ => panic!("expected a vendor rejection"),
    }
    match m.get_valid_access_token(999) {
        TokenQuery::UseToken { access_token } => assert_eq!(access_token, "old"),
        _ => panic!("stored credential should be untouched"),
    }
}

#[test]
fn expired_token_without_refresh_is_rejected() {
    let m = manager_with(Some(cred("old", None, 1000)));
    assert!(matches!(
        m.get_valid_access_token(1000),
        TokenQuery::Reject { err: AuthError::NoRefreshToken }
    ));
    let none = manager_with(None);
    assert!(matches!(
        none.get_valid_access_token(0),
        TokenQuery::Reject { err: AuthError::NoCredential }
    ));
}

#[test]
fn init_with_valid_credential_does_nothing() {
    let mut flow = InitFlow::start(TokenManager::new("k".to_string(), "s".to_string()));
    let cmd = flow.step(
        InitEvent::StoreLoaded { cred: Some(cred("tok", Some("rt"), 1000)) },
        500,
    );
    assert!(matches!(cmd, InitCmd::Done { persist: None }));
    assert_eq!(flow.phase, InitPhase::Ready);
    let m = flow.into_manager();
    assert!(m.is_token_valid(500));
}

#[test]
fn init_without_credential_prompts_interactively() {
    let mut flow = InitFlow::start(TokenManager::new("k".to_string(), "s".to_string()));
    let cmd = flow.step(InitEvent::StoreLoaded { cred: None }, 500);
    match cmd {
        InitCmd::PromptCode { auth_url } => assert_eq!(
            auth_url,
            "https://openapi.baidu.com/oauth/2.0/authorize?response_type=code&client_id=k&redirect_uri=oob&scope=basic,netdisk"
        ),
        _ => panic!("expected the interactive prompt"),
    }
    assert_eq!(flow.phase, InitPhase::AwaitingCode);
}

#[test]
fn init_corrupt_store_is_a_hard_failure() {
    let mut flow = InitFlow::start(TokenManager::new("k".to_string(), "s".to_string()));
    let cmd = flow.step(InitEvent::StoreCorrupt, 500);
    assert!(matches!(cmd, InitCmd::Fail { err: AuthError::CorruptStore }));
    assert_eq!(flow.phase, InitPhase::Failed);
}

#[test]
fn failed_refresh_falls_back_to_authorization_once() {
    // Expired credential with a refresh token: initialization first tries
    // the refresh, and only on its failure prompts interactively.
    let mut flow = InitFlow::start(TokenManager::new("k".to_string(), "s".to_string()));
    let first = flow.step(
        InitEvent::StoreLoaded { cred: Some(cred("old", Some("rt"), 100)) },
        500,
    );
    assert!(matches!(first, InitCmd::SendRefresh { .. }));
    assert_eq!(flow.phase, InitPhase::AwaitingRefresh);

    let second = flow.step(
        InitEvent::RefreshResponse { resp: rejection("invalid_grant", None) },
        500,
    );
    assert!(matches!(second, InitCmd::PromptCode { .. }));
    assert_eq!(flow.phase, InitPhase::AwaitingCode);

    let third = flow.step(InitEvent::CodeEntered { code: " thecode \n".to_string() }, 500);
    match third {
        InitCmd::SendExchange { url } => assert_eq!(
            url,
            "https://openapi.baidu.com/oauth/2.0/token?grant_type=authorization_code&code=thecode&client_id=k&client_secret=s&redirect_uri=oob"
        ),
        _ => panic!("expected the code exchange"),
    }

    let fourth = flow.step(
        InitEvent::ExchangeResponse { resp: grant("fresh", Some("rt2"), 2592000) },
        500,
    );
    match fourth {
        InitCmd::SendVerify { url, store } => {
            assert_eq!(
                url,
                "https://pan.baidu.com/rest/2.0/xpan/nas?method=uinfo&access_token=fresh"
            );
            assert_eq!(store.access_token, "fresh");
        }
        _ => panic!("expected the identity check"),
    }

    let fifth = flow.step(InitEvent::VerifyResponse { errno: 0 }, 500);
    assert!(matches!(fifth, InitCmd::Done { persist: None }));
    assert_eq!(flow.phase, InitPhase::Ready);
}

#[test]
fn init_successful_refresh_skips_authorization() {
    let mut flow = InitFlow::start(TokenManager::new("k".to_string(), "s".to_string()));
    let first = flow.step(
        InitEvent::StoreLoaded { cred: Some(cred("old", Some("rt"), 100)) },
        500,
    );
    assert!(matches!(first, InitCmd::SendRefresh { .. }));
    let second = flow.step(
        InitEvent::RefreshResponse { resp: grant("fresh", None, 3600) },
        500,
    );
    match second {
        InitCmd::Done { persist: Some(c) } => {
            assert_eq!(c.access_token, "fresh");
            assert_eq!(c.refresh_token.as_deref(), Some("rt"));
            assert_eq!(c.expires_at, 500 + 3600 - 300);
        }
        _ => panic!("expected completion with a credential to persist"),
    }
    assert_eq!(flow.phase, InitPhase::Ready);
}

#[test]
fn init_failed_verification_fails_the_flow() {
    let mut flow = InitFlow::start(TokenManager::new("k".to_string(), "s".to_string()));
    flow.step(InitEvent::StoreLoaded { cred: None }, 500);
    flow.step(InitEvent::CodeEntered { code: "c".to_string() }, 500);
    flow.step(
        InitEvent::ExchangeResponse { resp: grant("fresh", Some("rt"), 3600) },
        500,
    );
    let cmd = flow.step(InitEvent::VerifyResponse { errno: -6 }, 500);
    assert!(matches!(cmd, InitCmd::Fail { err: AuthError::VerificationFailed }));
    assert_eq!(flow.phase, InitPhase::Failed);
}

#[test]
fn init_transport_failure_is_a_network_error() {
    let mut flow = InitFlow::start(TokenManager::new("k".to_string(), "s".to_string()));
    flow.step(InitEvent::StoreLoaded { cred: None }, 500);
    flow.step(InitEvent::CodeEntered { code: "c".to_string() }, 500);
    let cmd = flow.step(InitEvent::ExchangeFailed, 500);
    assert!(matches!(cmd, InitCmd::Fail { err: AuthError::Network }));
    assert_eq!(flow.phase, InitPhase::Failed);
}

#[test]
fn init_rejected_exchange_fails_the_flow() {
    let mut flow = InitFlow::start(TokenManager::new("k".to_string(), "s".to_string()));
    flow.step(InitEvent::StoreLoaded { cred: None }, 500);
    flow.step(InitEvent::CodeEntered { code: "bad".to_string() }, 500);
    let cmd = flow.step(
        InitEvent::ExchangeResponse { resp: rejection("invalid_code", Some("no such code")) },
        500,
    );
    match cmd {
        InitCmd::Fail { err: AuthError::VendorRejected { code, desc } } => {
            assert_eq!(code, "invalid_code");
            assert_eq!(desc, "no such code");
        }
        _ => panic!("expected a vendor rejection"),
    }
    assert_eq!(flow.phase, InitPhase::Failed);
}
