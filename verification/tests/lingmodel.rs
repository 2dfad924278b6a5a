use lingcode::lingmodel::{
    api_key_to_save, authorize_url, bearer_header, code_challenge, plan_for_tier,
    plan_from_entitlement, token_exchange_body, token_exchange_outcome, PendingAuth, Plan,
    PlanRefresh, SignInAction, SignInRejection, ToolChoice,
};
use lingcode::{LingModelAuthCallback, LingModelLanguageModelProvider, State};

fn callback(code: Option<&str>, state: Option<&str>, token: Option<&str>, error: Option<&str>) -> LingModelAuthCallback {
    LingModelAuthCallback {
        code: code.map(|s| s.to_string()),
        state: state.map(|s| s.to_string()),
        access_token: token.map(|s| s.to_string()),
        error: error.map(|s| s.to_string()),
    }
}

fn pending_state() -> State {
    let mut s = State::new(true);
    s.pending = Some(PendingAuth { state: "st".to_string(), verifier: "ver".to_string() });
    s
}

#[test]
fn pkce_challenge_matches_rfc_7636_example() {
    assert_eq!(
        code_challenge("dBjftJeZ4CVP-mB92K27uhbUJU1p1r_wW1gFWFOEjXk"),
        "E9Melhoa2OwvFrEMTJguCHaoeK1t8URWbuGJSstw-cM"
    );
}

#[test]
fn sign_in_remembers_request_and_builds_url() {
    let mut s = State::new(false);
    let url = s.begin_browser_sign_in();
    let pending = s.pending.as_ref().unwrap();
    assert_eq!(pending.verifier.len(), 43);
    assert_eq!(pending.state.len(), 22);
    let expected = authorize_url(&code_challenge(&pending.verifier), &pending.state);
    assert_eq!(url, expected);
    assert!(url.starts_with(
        "https://lingcode.dev/oauth/authorize?response_type=code&client_id=lingcode-ide&redirect_uri=lingcode://auth/callback&code_challenge="
    ));
    assert!(url.contains("&code_challenge_method=S256&state="));
    // A second sign-in draws fresh values.
    let first_state = pending.state.clone();
    s.begin_browser_sign_in();
    assert_ne!(s.pending.as_ref().unwrap().state, first_state);
}

#[test]
fn error_callback_ends_sign_in() {
    let mut s = pending_state();
    let action = s.on_auth_callback(callback(Some("c"), Some("st"), None, Some("access_denied")));
    assert!(matches!(action, SignInAction::Rejected(SignInRejection::Failed(e)) if e == "access_denied"));
    assert!(s.pending.is_none());
}

#[test]
fn state_mismatch_is_ignored() {
    let mut s = pending_state();
    let action = s.on_auth_callback(callback(None, Some("other"), Some("tok"), None));
    assert!(matches!(action, SignInAction::Rejected(SignInRejection::StateMismatch)));
    assert_eq!(s.pending.as_ref().unwrap().state, "st");
    let action = s.on_auth_callback(callback(None, None, Some("tok"), None));
    assert!(matches!(action, SignInAction::Rejected(SignInRejection::StateMismatch)));
}

#[test]
fn direct_token_is_stored() {
    let mut s = pending_state();
    let action = s.on_auth_callback(callback(None, Some("st"), Some("tok"), None));
    assert!(matches!(action, SignInAction::StoreToken(t) if t == "tok"));
    assert!(s.pending.is_none());
    // A cold-launch callback with no request in flight still stores its token.
    let mut cold = State::new(false);
    let action = cold.on_auth_callback(callback(None, None, Some("tok2"), None));
    assert!(matches!(action, SignInAction::StoreToken(t) if t == "tok2"));
}

#[test]
fn code_is_exchanged_once_with_pending_verifier() {
    let mut s = pending_state();
    let cb = callback(Some("the-code"), Some("st"), None, None);
    let action = s.on_auth_callback(cb.duplicate());
    assert!(matches!(action, SignInAction::ExchangeCode { code, verifier } if code == "the-code" && verifier == "ver"));
    assert!(s.pending.is_none());
    let again = s.on_auth_callback(cb);
    assert!(matches!(again, SignInAction::Rejected(SignInRejection::NoPendingVerifier)));
}

#[test]
fn callback_without_token_or_code() {
    let mut s = pending_state();
    let action = s.on_auth_callback(callback(None, Some("st"), None, None));
    assert!(matches!(action, SignInAction::Rejected(SignInRejection::NoTokenOrCode)));
    assert!(s.pending.is_some());
}

#[test]
fn exchange_body_is_form_encoded() {
    assert_eq!(
        token_exchange_body("a b/c", "v~1"),
        "grant_type=authorization_code&code=a+b%2Fc&redirect_uri=lingcode%3A%2F%2Fauth%2Fcallback&client_id=lingcode-ide&code_verifier=v%7E1"
    );
}

#[test]
fn exchange_outcomes() {
    assert_eq!(token_exchange_outcome(true, "200 OK", "{}", Ok("tok".to_string())), Ok("tok".to_string()));
    assert_eq!(
        token_exchange_outcome(false, "400 Bad Request", "nope", Ok("tok".to_string())),
        Err("LingModel token exchange failed (400 Bad Request): nope".to_string())
    );
    assert_eq!(
        token_exchange_outcome(true, "200 OK", "x", Err("expected value".to_string())),
        Err("LingModel token response was not valid JSON: expected value".to_string())
    );
}

#[test]
fn plans_from_entitlement() {
    assert_eq!(plan_for_tier(Some("pro")), Plan::Pro);
    assert_eq!(plan_for_tier(Some("max_pro")), Plan::MaxPro);
    assert_eq!(plan_for_tier(Some("enterprise")), Plan::Free);
    assert_eq!(plan_for_tier(None), Plan::Free);
    assert_eq!(plan_from_entitlement(false, Some(Some("pro".to_string()))), None);
    assert_eq!(plan_from_entitlement(true, None), None);
    assert_eq!(plan_from_entitlement(true, Some(None)), Some(Plan::Free));
    assert_eq!(plan_from_entitlement(true, Some(Some("max_pro".to_string()))), Some(Plan::MaxPro));
    assert_eq!(bearer_header("abc"), "Bearer abc");
}

#[test]
fn plan_refresh_decisions() {
    let mut s = State::new(false);
    assert!(matches!(s.plan_refresh(), PlanRefresh::Skip));
    s.has_user_store = true;
    assert!(matches!(s.plan_refresh(), PlanRefresh::Clear));
    s.api_key = Some("k".to_string());
    assert!(matches!(s.plan_refresh(), PlanRefresh::Fetch(t) if t == "k"));
}

#[test]
fn key_editor_decisions() {
    assert_eq!(api_key_to_save("  sk-123 \n"), Some("sk-123".to_string()));
    assert_eq!(api_key_to_save(" \t "), None);
    let mut s = State::new(false);
    assert!(s.should_render_editor());
    s.api_key = Some("k".to_string());
    assert!(!s.should_render_editor());
    assert_eq!(s.configured_card_label(), "LingModel API key configured");
    s.api_key_from_env = true;
    assert_eq!(s.configured_card_label(), "API key set in LINGMODEL_API_KEY environment variable");
}

#[test]
fn provider_offers_one_model() {
    let provider = LingModelLanguageModelProvider::new(false);
    assert_eq!(provider.id(), "lingmodel");
    assert_eq!(provider.name(), "LingModel");
    assert!(!provider.is_authenticated());
    let models = provider.provided_models();
    assert_eq!(models.len(), 1);
    let model = provider.default_model();
    assert_eq!(model.id, "lingmodel");
    assert_eq!(model.name(), "LingModel");
    assert_eq!(model.telemetry_id(), "lingmodel/lingmodel");
    assert_eq!(model.max_token_count(), 200_000);
    assert_eq!(model.max_output_tokens(), Some(64_000));
    assert!(model.supports_tool_choice(ToolChoice::NoTools));
    assert!(model.supports_tools() && model.supports_images() && model.supports_streaming_tools());
}
