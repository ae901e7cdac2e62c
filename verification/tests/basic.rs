use biscuit_auth::{Authorizer, Biscuit, KeyPair, PrivateKey, PublicKey};

use tower_biscuit_auth::{
    forward_check_outcome, AuthConfig, AuthExtract, BiscuitAuthError, ErrorMode, RootKeys,
    SharedAuth,
};

fn keys() -> KeyPair {
    let private = PrivateKey::from_bytes(&[42; 32]).unwrap();
    KeyPair::from(private)
}

fn gen_test_auth_info(error_mode: ErrorMode) -> AuthConfig {
    let pubkey: PublicKey = keys().public();
    let pubkeys: RootKeys = RootKeys::new(pubkey);

    let mut authorizer = Authorizer::new().unwrap();

    // Load policy from "database".
    let policy = r#"allow if right("write");"#;

    authorizer.add_code(policy).unwrap();

    AuthConfig::new(pubkeys, authorizer, error_mode)
}

#[derive(Clone, Copy, Debug, PartialEq)]
struct TestRequest(u8);

#[derive(Clone, Debug)]
struct Extractor;

impl AuthExtract<TestRequest> for Extractor {
    fn auth_token(
        &self,
        req: &TestRequest,
        _auth_config: &AuthConfig,
    ) -> Result<Biscuit, BiscuitAuthError> {
        let keypair = keys();
        let biscuit = mock_biscuit(keypair, req)?;
        Ok(biscuit)
    }
}

fn mock_biscuit(keypair: KeyPair, req: &TestRequest) -> Result<Biscuit, BiscuitAuthError> {
    let mut builder = Biscuit::builder(&keypair);
    builder.add_authority_fact(r#"right("read")"#)?;
    if let TestRequest(0) = req {
        builder.add_authority_fact(r#"right("write")"#)?;
    }
    let biscuit = builder.build()?;
    Ok(biscuit)
}

#[derive(Clone, Debug)]
struct NoTokenExtractor;

impl AuthExtract<TestRequest> for NoTokenExtractor {
    fn auth_token(
        &self,
        _req: &TestRequest,
        _auth_config: &AuthConfig,
    ) -> Result<Biscuit, BiscuitAuthError> {
        Err(BiscuitAuthError::MissingBiscuit)
    }
}

#[test]
fn simple_request_allowed() {
    let error_mode = ErrorMode::Verbose;
    let biscuit_auth = SharedAuth::new(gen_test_auth_info(error_mode));
    let predicate = biscuit_auth.into_predicate(Extractor);

    let request = TestRequest(0);
    let response = predicate.check(request);

    let passed = response.unwrap();
    assert_eq!(passed, request);
}

#[test]
fn simple_request_denied_with_context() {
    let error_mode = ErrorMode::Verbose;
    let biscuit_auth = SharedAuth::new(gen_test_auth_info(error_mode));
    let predicate = biscuit_auth.into_predicate(Extractor);

    let request = TestRequest(1);
    let response = predicate.check(request);

    let error = response.unwrap_err();
    assert!(error.auth_error().is_some());
}

#[test]
fn simple_request_denied_no_context() {
    let error_mode = ErrorMode::Secure;
    let biscuit_auth = SharedAuth::new(gen_test_auth_info(error_mode));
    let predicate = biscuit_auth.into_predicate(Extractor);

    let request = TestRequest(1);
    let response = predicate.check(request);

    let error = response.unwrap_err();
    assert!(error.auth_error().is_none());
}

#[test]
fn dynamic_policy_change() {
    let error_mode = ErrorMode::Secure;
    let biscuit_auth = SharedAuth::new(gen_test_auth_info(error_mode));
    let predicate = biscuit_auth.clone().into_predicate(Extractor);

    let request = TestRequest(1);
    let response = predicate.check(request);

    let error = response.unwrap_err();

    // This error doesn't contain any failure info.
    assert!(error.auth_error().is_none());

    // Change the policy to ErrorMode::Verbose.
    let mut new_auth_info = biscuit_auth.to_auth_info();
    new_auth_info.error_mode = ErrorMode::Verbose;
    biscuit_auth.update(new_auth_info);

    let response = predicate.check(request);

    let error = response.unwrap_err();

    // The new error contains the verification failure info.
    assert!(error.auth_error().is_some());
}

#[test]
fn missing_token_disclosed_in_secure_mode() {
    let biscuit_auth = SharedAuth::new(gen_test_auth_info(ErrorMode::Secure));

    let error = biscuit_auth.check(&TestRequest(0), &NoTokenExtractor).unwrap_err();
    assert!(matches!(error, BiscuitAuthError::MissingBiscuit));
}

#[test]
fn missing_token_disclosed_in_verbose_mode() {
    let biscuit_auth = SharedAuth::new(gen_test_auth_info(ErrorMode::Verbose));

    let error = biscuit_auth.check(&TestRequest(0), &NoTokenExtractor).unwrap_err();
    assert!(matches!(error, BiscuitAuthError::MissingBiscuit));
}

#[test]
fn secure_denial_renders_as_unauthorized() {
    let biscuit_auth = SharedAuth::new(gen_test_auth_info(ErrorMode::Secure));
    let error = biscuit_auth.check(&TestRequest(1), &Extractor).unwrap_err();
    assert!(matches!(error, BiscuitAuthError::Unknown));
    assert_eq!(error.message(), "unauthorized");
}

#[test]
fn error_messages_render_each_variant() {
    assert_eq!(BiscuitAuthError::Unknown.message(), "unauthorized");
    assert_eq!(BiscuitAuthError::MissingBiscuit.message(), "missing biscuit");
    assert_eq!(
        BiscuitAuthError::Other("boom".to_string()).message(),
        "other error: boom"
    );
}

#[test]
fn failure_message_carries_the_engine_rendering() {
    let config = gen_test_auth_info(ErrorMode::Verbose);
    let error = config.biscuit(&[1, 2, 3]).unwrap_err();

    let token = error.auth_error().expect("a failure carries engine detail");
    let expected = format!("verification failure: {token}");
    assert_eq!(error.message(), expected);
}

#[test]
fn forwarding_keeps_request_and_error_untouched() {
    assert_eq!(forward_check_outcome(Ok(()), 17u8).unwrap(), 17u8);

    let rejected = forward_check_outcome::<u8>(Err(BiscuitAuthError::MissingBiscuit), 17u8);
    assert!(matches!(rejected, Err(BiscuitAuthError::MissingBiscuit)));
}

#[test]
fn debug_message_renders_key_count_and_mode_only() {
    let config = gen_test_auth_info(ErrorMode::Verbose);
    assert_eq!(
        config.debug_message(),
        "AuthConfig { identified_keys: 0, error_mode: Verbose }"
    );

    let mut root_keys = RootKeys::new(keys().public());
    for id in 0..12u32 {
        root_keys.add_key(id, keys().public());
    }
    let authorizer = Authorizer::new().unwrap();
    let config = AuthConfig::new(root_keys, authorizer, ErrorMode::Secure);
    assert_eq!(
        config.debug_message(),
        "AuthConfig { identified_keys: 12, error_mode: Secure }"
    );
}

#[test]
fn root_key_fallback_resolves_base_key() {
    let base = keys().public();
    let config = gen_test_auth_info(ErrorMode::Verbose);

    assert_eq!(config.pubkey_by_id(None), base);
    assert_eq!(config.pubkey_by_id(Some(7)), base);
    assert_eq!(config.pubkey_by_id(None), config.pubkey_by_id(Some(7)));
}

#[test]
fn added_key_resolves_by_id_and_unknown_id_falls_back() {
    let base = keys().public();
    let other = KeyPair::from(PrivateKey::from_bytes(&[7; 32]).unwrap()).public();

    let mut root_keys = RootKeys::new(base);
    root_keys.add_key(9, other);

    let authorizer = Authorizer::new().unwrap();
    let config = AuthConfig::new(root_keys, authorizer, ErrorMode::Verbose);

    assert_eq!(config.pubkey_by_id(Some(9)), other);
    assert_eq!(config.pubkey_by_id(Some(1)), base);
    assert_eq!(config.pubkey_by_id(None), base);
}

#[test]
fn verify_and_parse_round_trips_a_signed_token() {
    let config = gen_test_auth_info(ErrorMode::Verbose);

    let biscuit = mock_biscuit(keys(), &TestRequest(0)).unwrap();
    let bytes = biscuit.to_vec().unwrap();
    assert!(config.biscuit(&bytes).is_ok());

    // Bytes that are not a token fail verification, classified as a failure.
    let error = config.biscuit(&[1, 2, 3]).unwrap_err();
    assert!(matches!(error, BiscuitAuthError::Failure(_)));
}

#[test]
fn verification_fails_against_the_wrong_root_key() {
    let wrong_base = KeyPair::from(PrivateKey::from_bytes(&[7; 32]).unwrap()).public();
    let mut authorizer = Authorizer::new().unwrap();
    authorizer.add_code(r#"allow if right("write");"#).unwrap();
    let config = AuthConfig::new(RootKeys::new(wrong_base), authorizer, ErrorMode::Verbose);

    let biscuit = mock_biscuit(keys(), &TestRequest(0)).unwrap();
    let bytes = biscuit.to_vec().unwrap();

    let error = config.biscuit(&bytes).unwrap_err();
    assert!(matches!(error, BiscuitAuthError::Failure(_)));
}

#[test]
fn checks_share_no_per_request_state() {
    // Two checks against the same loaded snapshot: the first injects a
    // per-request check that denies, the second injects nothing.  If the
    // injected check leaked out of the first check's engine clone, the
    // second would be denied too.
    let biscuit_auth = SharedAuth::new(gen_test_auth_info(ErrorMode::Verbose));

    let denied = biscuit_auth.check(&TestRequest(0), &DenyingContextExtractor);
    assert!(denied.is_err());

    let allowed = biscuit_auth.check(&TestRequest(0), &Extractor);
    assert!(allowed.is_ok());

    let denied_again = biscuit_auth.check(&TestRequest(0), &DenyingContextExtractor);
    assert!(denied_again.is_err());

    let allowed_again = biscuit_auth.check(&TestRequest(0), &Extractor);
    assert!(allowed_again.is_ok());
}

#[test]
fn extractor_failure_not_downgraded_in_secure_mode() {
    // An extractor failure is not sensitive policy detail: like a missing
    // token, it passes the secure gate unchanged.
    let biscuit_auth = SharedAuth::new(gen_test_auth_info(ErrorMode::Secure));

    let error = biscuit_auth
        .check(&TestRequest(0), &FailingExtractor)
        .unwrap_err();
    assert!(matches!(error, BiscuitAuthError::Other(_)));
    assert_eq!(error.message(), "other error: token store unreachable");
}

#[derive(Clone, Debug)]
struct FailingExtractor;

impl AuthExtract<TestRequest> for FailingExtractor {
    fn auth_token(
        &self,
        _req: &TestRequest,
        _auth_config: &AuthConfig,
    ) -> Result<Biscuit, BiscuitAuthError> {
        Err(BiscuitAuthError::Other("token store unreachable".to_string()))
    }
}

#[derive(Clone, Debug)]
struct DenyingContextExtractor;

impl AuthExtract<TestRequest> for DenyingContextExtractor {
    fn auth_token(
        &self,
        req: &TestRequest,
        _auth_config: &AuthConfig,
    ) -> Result<Biscuit, BiscuitAuthError> {
        mock_biscuit(keys(), req)
    }

    fn extract_context(
        &self,
        _req: &TestRequest,
        _config: &AuthConfig,
        authorizer: &mut Authorizer<'_>,
    ) -> Result<(), BiscuitAuthError> {
        authorizer.add_code(r#"check if user("nobody");"#)?;
        Ok(())
    }
}
