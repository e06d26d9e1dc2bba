use subvertpy::auth::{
    get_simple_prompt_provider, get_simple_provider, get_ssl_client_cert_file_provider,
    get_ssl_client_cert_prompt_provider, get_ssl_client_cert_pw_file_provider,
    get_ssl_server_trust_file_provider, get_ssl_server_trust_prompt_provider,
    get_username_prompt_provider, get_username_provider, may_save_prompt_response,
    prompt_response, simple_prompt_response, ssl_client_cert_prompt_response,
    ssl_server_trust_prompt_response, username_prompt_response, AuthProvider, CredKind,
    Credential, ProviderResponse, SimpleCredentials, SslClientCertCredentials, SslServerCertInfo,
    SslServerTrust,
};
use subvertpy::auth_chain::{Auth, AuthAction, AuthOutcome, CredentialStore, RequestStage};
use subvertpy::common::{ErrorChain, RaisedException, STATUS_GENERAL};
use subvertpy::session::RemoteAccess;

fn simple(user: &str, password: &str, may_save: bool) -> Credential {
    Credential::Simple(SimpleCredentials::new(user.to_string(), password.to_string(), may_save))
}

#[test]
fn a_failing_provider_is_tried_twice_before_the_next_one() {
    // A fails on each of its two tries, B succeeds.
    let auth = Auth::open(vec![get_simple_prompt_provider(2), get_simple_prompt_provider(3)]);
    let mut request = auth.first_credentials(CredKind::Simple, "realm");
    let mut calls: Vec<usize> = Vec::new();
    let granted = loop {
        match request.next_provider() {
            AuthAction::Invoke { provider, attempt } => {
                calls.push(provider);
                if provider == 0 {
                    assert!(attempt <= 2);
                    assert!(matches!(request.respond(ProviderResponse::Retry), AuthOutcome::Again));
                } else {
                    match request.respond(ProviderResponse::Success(simple("bob", "pw", false))) {
                        AuthOutcome::Granted(c) => break c,
                        _ => panic!("the credential fits the kind"),
                    }
                }
            }
            other => panic!("the chain is not spent: {:?}", other),
        }
    };
    assert_eq!(calls, vec![0, 0, 1]);
    assert_eq!(request.attempts(0), 2);
    assert_eq!(request.attempts(1), 1);
    assert_eq!(request.stage(), RequestStage::Granted);
    assert!(matches!(granted, Credential::Simple(c) if c.username == "bob"));
}

#[test]
fn attempts_are_counted_from_one() {
    let auth = Auth::open(vec![get_simple_prompt_provider(3)]);
    let mut request = auth.first_credentials(CredKind::Simple, "r");
    assert_eq!(request.next_provider(), AuthAction::Invoke { provider: 0, attempt: 1 });
    // No second pick while the provider has not answered.
    assert_eq!(request.next_provider(), AuthAction::OutOfTurn);
    assert!(matches!(request.respond(ProviderResponse::Retry), AuthOutcome::Again));
    assert_eq!(request.next_provider(), AuthAction::Invoke { provider: 0, attempt: 2 });
    assert!(matches!(request.respond(ProviderResponse::Retry), AuthOutcome::Again));
    assert_eq!(request.next_provider(), AuthAction::Invoke { provider: 0, attempt: 3 });
    assert!(matches!(request.respond(ProviderResponse::Retry), AuthOutcome::Again));
    assert_eq!(request.next_provider(), AuthAction::Exhausted);
    assert_eq!(request.stage(), RequestStage::Exhausted);
    assert_eq!(request.next_provider(), AuthAction::OutOfTurn);
    assert_eq!(request.attempts(0), 3);
    assert_eq!(request.attempts(9), 0);
}

#[test]
fn providers_of_another_kind_are_passed_over() {
    let auth = Auth::open(vec![
        get_ssl_server_trust_prompt_provider(),
        get_username_provider(),
        get_simple_provider(),
        get_ssl_client_cert_file_provider(),
        get_simple_prompt_provider(1),
    ]);
    assert_eq!(auth.provider_count(), 5);
    assert_eq!(auth.provider(2), Some(get_simple_provider()));
    assert_eq!(auth.provider(5), None);
    let mut request = auth.first_credentials(CredKind::Simple, "realm");
    assert_eq!(request.kind(), CredKind::Simple);
    assert_eq!(request.realm(), "realm");
    assert_eq!(request.next_provider(), AuthAction::Invoke { provider: 2, attempt: 1 });
    assert!(matches!(request.respond(ProviderResponse::Retry), AuthOutcome::Again));
    assert_eq!(request.next_provider(), AuthAction::Invoke { provider: 4, attempt: 1 });
    assert!(matches!(request.respond(ProviderResponse::Retry), AuthOutcome::Again));
    assert_eq!(request.next_provider(), AuthAction::Exhausted);
    assert_eq!(request.attempts(0), 0);
    assert_eq!(request.attempts(1), 0);
    assert_eq!(request.attempts(3), 0);
}

#[test]
fn a_chain_without_a_provider_of_the_kind_is_exhausted_at_once() {
    let auth = Auth::open(vec![get_simple_provider()]);
    let mut request = auth.first_credentials(CredKind::SslServerTrust, "https://host:443");
    assert_eq!(request.next_provider(), AuthAction::Exhausted);
    let empty = Auth::open(Vec::new());
    let mut nothing = empty.first_credentials(CredKind::Simple, "r");
    assert_eq!(nothing.next_provider(), AuthAction::Exhausted);
}

#[test]
fn a_prompt_provider_with_no_retries_is_never_tried() {
    let auth = Auth::open(vec![get_simple_prompt_provider(0), get_simple_provider()]);
    let mut request = auth.first_credentials(CredKind::Simple, "r");
    assert_eq!(request.next_provider(), AuthAction::Invoke { provider: 1, attempt: 1 });
}

#[test]
fn a_fatal_answer_fails_the_request() {
    let auth = Auth::open(vec![get_simple_prompt_provider(2), get_simple_provider()]);
    let mut request = auth.first_credentials(CredKind::Simple, "r");
    request.next_provider();
    match request.respond(ProviderResponse::Fatal(ErrorChain::from_message("prompt broke"))) {
        AuthOutcome::Failed(e) => assert_eq!(e.message, "prompt broke"),
        _ => panic!("a fatal answer fails the request"),
    }
    assert_eq!(request.stage(), RequestStage::Failed);
    assert_eq!(request.next_provider(), AuthAction::OutOfTurn);
    assert_eq!(request.attempts(1), 0);
}

#[test]
fn a_credential_of_the_wrong_shape_counts_as_no_credential() {
    let auth = Auth::open(vec![get_simple_prompt_provider(1), get_simple_provider()]);
    let mut request = auth.first_credentials(CredKind::Simple, "r");
    request.next_provider();
    let trust = Credential::SslServerTrust(SslServerTrust::new(8, true));
    assert!(matches!(request.respond(ProviderResponse::Success(trust)), AuthOutcome::Again));
    assert_eq!(request.next_provider(), AuthAction::Invoke { provider: 1, attempt: 1 });
}

#[test]
fn a_credential_that_the_server_turns_down_is_followed_by_the_next_try() {
    let auth = Auth::open(vec![get_simple_prompt_provider(2)]);
    let mut request = auth.first_credentials(CredKind::Simple, "r");
    assert!(!request.rejected());
    request.next_provider();
    assert!(matches!(
        request.respond(ProviderResponse::Success(simple("a", "wrong", false))),
        AuthOutcome::Granted(_)
    ));
    assert!(matches!(request.respond(ProviderResponse::Retry), AuthOutcome::OutOfTurn));
    assert!(request.rejected());
    assert_eq!(request.stage(), RequestStage::Ready);
    assert_eq!(request.next_provider(), AuthAction::Invoke { provider: 0, attempt: 2 });
    assert!(matches!(
        request.respond(ProviderResponse::Success(simple("a", "wrong again", false))),
        AuthOutcome::Granted(_)
    ));
    assert!(request.rejected());
    assert_eq!(request.next_provider(), AuthAction::Exhausted);
}

#[test]
fn providers_name_their_kind_and_limit() {
    let table: Vec<(AuthProvider, CredKind, &str, bool, usize)> = vec![
        (get_simple_provider(), CredKind::Simple, "svn.simple", false, 1),
        (get_username_provider(), CredKind::Username, "svn.username", false, 1),
        (get_ssl_client_cert_file_provider(), CredKind::SslClientCert, "svn.ssl.client-cert", false, 1),
        (get_ssl_client_cert_pw_file_provider(), CredKind::SslClientCertPw, "svn.ssl.client-passphrase", false, 1),
        (get_ssl_server_trust_file_provider(), CredKind::SslServerTrust, "svn.ssl.server", false, 1),
        (get_username_prompt_provider(4), CredKind::Username, "svn.username", true, 4),
        (get_simple_prompt_provider(5), CredKind::Simple, "svn.simple", true, 5),
        (get_ssl_server_trust_prompt_provider(), CredKind::SslServerTrust, "svn.ssl.server", true, 1),
        (get_ssl_client_cert_prompt_provider(6), CredKind::SslClientCert, "svn.ssl.client-cert", true, 6),
    ];
    for (provider, kind, word, interactive, limit) in table {
        assert_eq!(provider.cred_kind(), kind);
        assert_eq!(provider.cred_kind().as_str(), word);
        assert_eq!(provider.interactive, interactive);
        assert_eq!(provider.limit(kind), limit);
    }
    assert_eq!(get_simple_prompt_provider(5).limit(CredKind::Username), 0);
}

#[test]
fn credentials_know_their_shape() {
    let s = simple("u", "p", true);
    assert!(s.fits(CredKind::Simple));
    assert!(s.fits(CredKind::Username));
    assert!(!s.fits(CredKind::SslServerTrust));
    assert!(s.may_save());
    let cert = Credential::SslClientCert(SslClientCertCredentials::new(
        "/home/u/cert.p12".to_string(),
        Some("secret".to_string()),
        false,
    ));
    assert!(cert.fits(CredKind::SslClientCert));
    assert!(cert.fits(CredKind::SslClientCertPw));
    assert!(!cert.fits(CredKind::Simple));
    assert!(!cert.may_save());
    let trust = Credential::SslServerTrust(SslServerTrust::new(0b1010, true));
    assert!(trust.fits(CredKind::SslServerTrust));
    assert!(!trust.fits(CredKind::SslClientCert));
    match cert.dup() {
        Credential::SslClientCert(c) => {
            assert_eq!(c.cert_file, "/home/u/cert.p12");
            assert_eq!(c.passphrase.as_deref(), Some("secret"));
            assert!(!c.may_save);
        }
        _ => panic!("a copy keeps the shape"),
    }
    assert_eq!(SslServerTrust::new(3, false).dup(), SslServerTrust::new(3, false));
    let info = SslServerCertInfo {
        hostname: "svn.example.org".to_string(),
        fingerprint: "aa:bb".to_string(),
        valid_from: "2024".to_string(),
        valid_until: "2025".to_string(),
        issuer_dname: "CN=ca".to_string(),
        ascii_cert: "MIIB".to_string(),
    };
    let copy = info.dup();
    drop(info);
    assert_eq!(copy.hostname, "svn.example.org");
    assert_eq!(copy.fingerprint, "aa:bb");
    assert_eq!(copy.valid_from, "2024");
    assert_eq!(copy.valid_until, "2025");
    assert_eq!(copy.issuer_dname, "CN=ca");
    assert_eq!(copy.ascii_cert, "MIIB");
}

#[test]
fn prompt_answers_become_provider_answers() {
    match simple_prompt_response(Ok(("u".to_string(), "p".to_string(), true))) {
        ProviderResponse::Success(Credential::Simple(c)) => {
            assert_eq!(c.username, "u");
            assert_eq!(c.password, "p");
            assert!(c.may_save);
        }
        _ => panic!("the prompt answered"),
    }
    match username_prompt_response(Ok("carol".to_string()), false) {
        ProviderResponse::Success(Credential::Simple(c)) => {
            assert_eq!(c.username, "carol");
            assert_eq!(c.password, "");
            assert!(!c.may_save);
        }
        _ => panic!("the prompt answered"),
    }
    match ssl_server_trust_prompt_response(Ok(SslServerTrust::new(12, true))) {
        ProviderResponse::Success(Credential::SslServerTrust(t)) => {
            assert_eq!(t.accepted_failures, 12);
            assert!(t.may_save);
        }
        _ => panic!("the prompt answered"),
    }
    let cert = SslClientCertCredentials::new("c.pem".to_string(), None, true);
    match ssl_client_cert_prompt_response(Ok(cert)) {
        ProviderResponse::Success(Credential::SslClientCert(c)) => {
            assert_eq!(c.cert_file, "c.pem");
            assert_eq!(c.passphrase, None);
        }
        _ => panic!("the prompt answered"),
    }
    assert!(matches!(
        prompt_response(Ok(simple("a", "b", false))),
        ProviderResponse::Success(Credential::Simple(_))
    ));
    assert_eq!(may_save_prompt_response(Ok(true)).unwrap(), true);
    assert_eq!(may_save_prompt_response(Ok(false)).unwrap(), false);
}

#[test]
fn a_failing_prompt_is_caught_as_a_fatal_answer() {
    let raised = || RaisedException::Foreign { text: "KeyboardInterrupt".to_string() };
    for response in [
        simple_prompt_response(Err(raised())),
        username_prompt_response(Err(raised()), true),
        ssl_server_trust_prompt_response(Err(raised())),
        ssl_client_cert_prompt_response(Err(raised())),
        prompt_response(Err(raised())),
    ] {
        match response {
            ProviderResponse::Fatal(e) => {
                assert_eq!(e.message, "KeyboardInterrupt");
                assert_eq!(e.status_code, STATUS_GENERAL);
            }
            _ => panic!("the failure of the prompt is the answer"),
        }
    }
    let own = RaisedException::Subversion {
        message: "cancelled".to_string(),
        status_code: 200015,
        child: None,
        location: None,
    };
    let err = may_save_prompt_response(Err(own)).unwrap_err();
    assert_eq!(err.message, "cancelled");
    assert_eq!(err.status_code, 200015);
}

#[test]
fn the_store_keeps_only_what_may_be_kept() {
    let mut store = CredentialStore::new();
    assert_eq!(store.len(), 0);
    assert!(!store.save(CredKind::Simple, "realm", &simple("u", "p", false)));
    assert_eq!(store.len(), 0);
    assert!(store.lookup(CredKind::Simple, "realm").is_none());
    assert!(store.save(CredKind::Simple, "realm", &simple("u", "p", true)));
    assert_eq!(store.len(), 1);
    match store.lookup(CredKind::Simple, "realm") {
        Some(Credential::Simple(c)) => {
            assert_eq!(c.username, "u");
            assert!(c.may_save);
        }
        _ => panic!("what was kept is offered"),
    }
    assert!(store.lookup(CredKind::Simple, "other realm").is_none());
    assert!(store.lookup(CredKind::Username, "realm").is_none());
}

#[test]
fn the_store_offers_what_was_kept_last() {
    let mut store = CredentialStore::new();
    store.save(CredKind::Simple, "r", &simple("old", "1", true));
    store.save(CredKind::Simple, "s", &simple("else", "2", true));
    store.save(CredKind::Simple, "r", &simple("new", "3", true));
    store.save(CredKind::Simple, "r", &simple("unsaved", "4", false));
    match store.lookup(CredKind::Simple, "r") {
        Some(Credential::Simple(c)) => assert_eq!(c.username, "new"),
        _ => panic!("what was kept is offered"),
    }
    match store.lookup(CredKind::Simple, "s") {
        Some(Credential::Simple(c)) => assert_eq!(c.username, "else"),
        _ => panic!("what was kept is offered"),
    }
}

#[test]
fn an_unsaveable_credential_is_not_offered_after_reopening() {
    let mut store = CredentialStore::new();
    let mut session = RemoteAccess::open("https://svn.example.org/repo", None);
    session.hold_credential(CredKind::Simple, "realm", simple("u", "p", false));
    assert_eq!(session.close(&mut store), 0);
    assert_eq!(store.len(), 0);
    // Reopening: nothing is offered, so the providers are asked again.
    assert!(store.lookup(CredKind::Simple, "realm").is_none());

    let mut second = RemoteAccess::open("https://svn.example.org/repo", None);
    second.hold_credential(CredKind::Simple, "realm", simple("u", "p", true));
    second.hold_credential(
        CredKind::SslServerTrust,
        "https://svn.example.org:443",
        Credential::SslServerTrust(SslServerTrust::new(4, false)),
    );
    assert_eq!(second.close(&mut store), 1);
    assert_eq!(store.len(), 1);
    assert!(store.lookup(CredKind::Simple, "realm").is_some());
    assert!(store.lookup(CredKind::SslServerTrust, "https://svn.example.org:443").is_none());
}

#[test]
fn a_trust_decision_covers_the_failures_that_it_accepts() {
    let trust = SslServerTrust::new(0b0110, false);
    assert!(trust.accepts(0));
    assert!(trust.accepts(0b0100));
    assert!(trust.accepts(0b0110));
    assert!(!trust.accepts(0b0001));
    assert!(!trust.accepts(0b1110));
    assert!(SslServerTrust::new(u32::MAX, true).accepts(0x4000_0000));
    assert!(!SslServerTrust::new(0, true).accepts(8));
}
