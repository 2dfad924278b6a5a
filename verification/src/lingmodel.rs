//! The LingModel provider's own logic: the fixed model, the sign-in state
//! machine (PKCE request, callback handling, token exchange), the plan read
//! from the entitlement reply, and the API-key view's decisions.
use vstd::prelude::*;
use vstd::string::*;
use vstd::utf8::encode_utf8;
use crate::auth::{
    LingModelAuthCallback, base64_url_no_pad, form_bytes, is_url_safe_char, sha256,
    unpadded_base64_len,
};
use crate::text::{trim, trim_str, u64_to_string, decimal};

verus! {

// ---- fixed endpoints ------------------------------------------------------

/// The Anthropic-compatible base of the LingModel inference proxy.
pub open spec fn api_url_text() -> Seq<char> {
    "https://lingcode.dev/api/inference/anthropic"@
}

/// The Anthropic-compatible base of the LingModel inference proxy.
pub fn api_url() -> (r: &'static str)
    ensures
        r@ == api_url_text(),
{
    "https://lingcode.dev/api/inference/anthropic"
}

/// The endpoint that returns the account's managed tier.
pub fn entitlement_url() -> (r: &'static str)
    ensures
        r@ == "https://lingcode.dev/api/entitlement"@,
{
    "https://lingcode.dev/api/entitlement"
}

/// The endpoint that exchanges an authorization code for a token.
pub fn oauth_token_url() -> (r: &'static str)
    ensures
        r@ == "https://lingcode.dev/oauth/token"@,
{
    "https://lingcode.dev/oauth/token"
}

/// The environment variable that can hold the API key.
pub fn api_key_env_var_name() -> (r: &'static str)
    ensures
        r@ == "LINGMODEL_API_KEY"@,
{
    "LINGMODEL_API_KEY"
}

pub open spec fn client_id() -> Seq<char> {
    "lingcode-ide"@
}

pub open spec fn redirect_uri() -> Seq<char> {
    "lingcode://auth/callback"@
}

// ---- the model ------------------------------------------------------------

/// The single managed LingModel model.
pub struct ModelInfo {
    pub name: &'static str,
    pub display_name: &'static str,
    pub max_tokens: u64,
    pub max_output_tokens: u64,
    /// How prompt caching is used, where the model declares it.
    pub cache_configuration: Option<CacheConfiguration>,
}

/// How a model uses prompt caching.
#[derive(PartialEq, Eq, Structural, Clone, Copy, Debug)]
pub struct CacheConfiguration {
    pub max_cache_anchors: usize,
    pub should_speculate: bool,
    pub min_total_token: u64,
}

/// The single managed LingModel model: tier routing happens on the server.
pub fn lingmodel_model() -> (m: ModelInfo)
    ensures
        m == lingmodel_model_spec(),
        m.name@ == "lingmodel"@,
        m.display_name@ == "LingModel"@,
        m.max_tokens == 200_000,
        m.max_output_tokens == 64_000,
        m.cache_configuration is None,
{
    ModelInfo {
        name: "lingmodel",
        display_name: "LingModel",
        max_tokens: 200_000,
        max_output_tokens: 64_000,
        cache_configuration: None,
    }
}

/// The telemetry id of a model of this provider.
pub fn telemetry_id(model: &ModelInfo) -> (r: String)
    ensures
        r@ == "lingmodel/"@ + model.name@,
{
    let mut r = String::from_str("lingmodel/");
    r.append(model.name);
    r
}

// ---- plans ----------------------------------------------------------------

/// The managed tier of an account.
#[derive(PartialEq, Eq, Structural, Clone, Copy, Debug)]
pub enum Plan {
    Free,
    Pro,
    MaxPro,
}

/// The plan for the tier that the entitlement endpoint names: an unknown or
/// missing tier is the free plan.
pub open spec fn plan_of_tier(tier: Option<Seq<char>>) -> Plan {
    match tier {
        Some(t) => if t == "pro"@ {
            Plan::Pro
        } else if t == "max_pro"@ {
            Plan::MaxPro
        } else {
            Plan::Free
        },
        None => Plan::Free,
    }
}

/// The plan for the tier that the entitlement endpoint names.
pub fn plan_for_tier(tier: Option<&str>) -> (p: Plan)
    ensures
        p == plan_of_tier(
            match tier {
                Some(t) => Some(t@),
                None => None,
            },
        ),
{
    match tier {
        None => Plan::Free,
        Some(t) => {
            let cs = crate::text::chars_of(t);
            let pro = crate::text::chars_of("pro");
            let max_pro = crate::text::chars_of("max_pro");
            if crate::text::chars_eq(cs.as_slice(), pro.as_slice()) {
                Plan::Pro
            } else if crate::text::chars_eq(cs.as_slice(), max_pro.as_slice()) {
                Plan::MaxPro
            } else {
                Plan::Free
            }
        },
    }
}

/// The plan to publish for an entitlement reply: none when the request failed
/// or the body did not parse (`parsed` is `None`); otherwise the plan of the
/// tier it holds.
pub fn plan_from_entitlement(success: bool, parsed: Option<Option<String>>) -> (p: Option<Plan>)
    ensures
        !success ==> p is None,
        success && parsed is None ==> p is None,
        success ==> (parsed matches Some(tier) ==> p == Some(
            plan_of_tier(
                match tier {
                    Some(t) => Some(t@),
                    None => None,
                },
            ),
        )),
{
    if !success {
        return None;
    }
    match parsed {
        None => None,
        Some(tier) => Some(
            plan_for_tier(
                match &tier {
                    Some(t) => Some(t.as_str()),
                    None => None,
                },
            ),
        ),
    }
}

/// The `Authorization` header value that carries `token`.
pub fn bearer_header(token: &str) -> (r: String)
    ensures
        r@ == "Bearer "@ + token@,
{
    let mut r = String::from_str("Bearer ");
    r.append(token);
    r
}

// ---- the PKCE request -----------------------------------------------------

/// The code challenge for `verifier`: the unpadded URL-safe base64 text of
/// the SHA-256 digest of its UTF-8 bytes (PKCE method `S256`).
pub open spec fn pkce_challenge(verifier: Seq<char>) -> Seq<char> {
    base64_url_no_pad(sha256(encode_utf8(verifier)))
}

/// The PKCE `S256` code challenge of `verifier`.
pub fn code_challenge(verifier: &str) -> (r: String)
    ensures
        r@ == pkce_challenge(verifier@),
{
    let digest = crate::auth::digest_sha256(verifier.as_bytes());
    crate::auth::encode_url_safe(digest.as_slice())
}

/// The page that the browser opens to sign in.
pub open spec fn authorize_link(challenge: Seq<char>, state: Seq<char>) -> Seq<char> {
    "https://lingcode.dev/oauth/authorize?response_type=code&client_id="@ + client_id()
        + "&redirect_uri="@ + redirect_uri() + "&code_challenge="@ + challenge
        + "&code_challenge_method=S256&state="@ + state
}

/// The authorize page for `challenge` and `state`.
pub fn authorize_url(challenge: &str, state: &str) -> (r: String)
    ensures
        r@ == authorize_link(challenge@, state@),
{
    let mut r = String::from_str("https://lingcode.dev/oauth/authorize?response_type=code&client_id=");
    r.append("lingcode-ide");
    r.append("&redirect_uri=");
    r.append("lingcode://auth/callback");
    r.append("&code_challenge=");
    r.append(challenge);
    r.append("&code_challenge_method=S256&state=");
    r.append(state);
    r
}

/// An in-flight PKCE sign-in: the `state` expected back and the code
/// verifier to present at token exchange.
pub struct PendingAuth {
    pub state: String,
    pub verifier: String,
}

/// The unpadded URL-safe base64 text of some `n` bytes.
pub open spec fn is_base64_of_len(t: Seq<char>, n: nat) -> bool {
    &&& exists|bytes: Seq<u8>| bytes.len() == n && t == base64_url_no_pad(bytes)
    &&& t.len() == unpadded_base64_len(n)
    &&& forall|i: int| 0 <= i < t.len() ==> is_url_safe_char(#[trigger] t[i])
}

// ---- the sign-in state machine --------------------------------------------

/// Why a callback led to nothing.
pub enum SignInRejection {
    /// The server reported a failed or denied sign-in.
    Failed(String),
    /// The returned `state` does not match the request in flight.
    StateMismatch,
    /// The callback had neither an access token nor a code.
    NoTokenOrCode,
    /// A code arrived but no verifier is pending (the app restarted mid-flow).
    NoPendingVerifier,
}

impl SignInRejection {
    /// The text logged for the rejection.
    pub fn message(&self) -> (r: String)
        ensures
            r@ == match *self {
                SignInRejection::Failed(e) => "LingModel sign-in failed: "@ + e@,
                SignInRejection::StateMismatch => "LingModel sign-in: state mismatch; ignoring callback"@,
                SignInRejection::NoTokenOrCode => "LingModel sign-in: callback had neither access_token nor code"@,
                SignInRejection::NoPendingVerifier => "LingModel sign-in: received an authorization code with no pending verifier (app restarted mid-flow?); ask the user to sign in again"@,
            },
    {
        match self {
            SignInRejection::Failed(e) => {
                let mut r = String::from_str("LingModel sign-in failed: ");
                r.append(e.as_str());
                r
            },
            SignInRejection::StateMismatch => String::from_str(
                "LingModel sign-in: state mismatch; ignoring callback",
            ),
            SignInRejection::NoTokenOrCode => String::from_str(
                "LingModel sign-in: callback had neither access_token nor code",
            ),
            SignInRejection::NoPendingVerifier => String::from_str(
                "LingModel sign-in: received an authorization code with no pending verifier (app restarted mid-flow?); ask the user to sign in again",
            ),
        }
    }
}

/// What the provider does with a callback.
pub enum SignInAction {
    /// Nothing is stored; the reason is logged.
    Rejected(SignInRejection),
    /// Store this token as the API key.
    StoreToken(String),
    /// Exchange `code` for a token, presenting `verifier`.
    ExchangeCode { code: String, verifier: String },
}

/// The state of the LingModel provider that its decisions read.
pub struct State {
    /// The stored API key or token, if one is loaded.
    pub api_key: Option<String>,
    /// The key comes from the `LINGMODEL_API_KEY` environment variable.
    pub api_key_from_env: bool,
    /// The sign-in in flight, if any.
    pub pending: Option<PendingAuth>,
    /// There is a user store to publish the plan to.
    pub has_user_store: bool,
}

/// The pending request and the action after a callback arrives while
/// `pending` is in flight.
pub open spec fn auth_step(pending: Option<PendingAuth>, cb: LingModelAuthCallback) -> (
    Option<PendingAuth>,
    SignInAction,
) {
    if cb.error is Some {
        (None, SignInAction::Rejected(SignInRejection::Failed(cb.error->0)))
    } else if pending is Some && !(cb.state is Some && cb.state->0@ == pending->0.state@) {
        (pending, SignInAction::Rejected(SignInRejection::StateMismatch))
    } else if cb.access_token is Some {
        (None, SignInAction::StoreToken(cb.access_token->0))
    } else if cb.code is None {
        (pending, SignInAction::Rejected(SignInRejection::NoTokenOrCode))
    } else if pending is None {
        (None, SignInAction::Rejected(SignInRejection::NoPendingVerifier))
    } else {
        (None, SignInAction::ExchangeCode { code: cb.code->0, verifier: pending->0.verifier })
    }
}

impl State {
    /// A provider state with nothing loaded and no sign-in in flight.
    pub fn new(has_user_store: bool) -> (s: Self)
        ensures
            s.api_key is None && !s.api_key_from_env && s.pending is None,
            s.has_user_store == has_user_store,
    {
        State { api_key: None, api_key_from_env: false, pending: None, has_user_store }
    }

    pub fn is_authenticated(&self) -> (b: bool)
        ensures
            b == self.api_key is Some,
    {
        self.api_key.is_some()
    }

    /// Begins the browser PKCE sign-in with freshly drawn bytes: 32 for the
    /// verifier and 16 for `state`. Remembers them and returns the authorize
    /// page to open.
    pub fn begin_browser_sign_in(&mut self) -> (url: String)
        ensures
            final(self).api_key == old(self).api_key,
            final(self).api_key_from_env == old(self).api_key_from_env,
            final(self).has_user_store == old(self).has_user_store,
            final(self).pending matches Some(p) && {
                &&& url@ == authorize_link(pkce_challenge(p.verifier@), p.state@)
                &&& is_base64_of_len(p.verifier@, 32)
                &&& is_base64_of_len(p.state@, 16)
            },
    {
        let verifier_bytes = crate::auth::random_bytes_for_sign_in(32);
        let state_bytes = crate::auth::random_bytes_for_sign_in(16);
        let url = self.begin_sign_in_with(verifier_bytes.as_slice(), state_bytes.as_slice());
        proof {
            crate::auth::lemma_base64_shape(verifier_bytes@);
            crate::auth::lemma_base64_shape(state_bytes@);
        }
        url
    }

    /// Begins the browser PKCE sign-in with the drawn bytes: the verifier and
    /// `state` are their unpadded URL-safe base64 text; both are remembered,
    /// and the authorize page with the verifier's challenge is returned.
    pub fn begin_sign_in_with(&mut self, verifier_bytes: &[u8], state_bytes: &[u8]) -> (url: String)
        requires
            verifier_bytes@.len() == 32,
            state_bytes@.len() == 16,
        ensures
            final(self).api_key == old(self).api_key,
            final(self).api_key_from_env == old(self).api_key_from_env,
            final(self).has_user_store == old(self).has_user_store,
            final(self).pending matches Some(p) && {
                &&& p.verifier@ == base64_url_no_pad(verifier_bytes@)
                &&& p.state@ == base64_url_no_pad(state_bytes@)
                &&& url@ == authorize_link(pkce_challenge(p.verifier@), p.state@)
            },
    {
        let verifier = crate::auth::encode_url_safe(verifier_bytes);
        let challenge = code_challenge(verifier.as_str());
        let state = crate::auth::encode_url_safe(state_bytes);
        let url = authorize_url(challenge.as_str(), state.as_str());
        self.pending = Some(PendingAuth { state, verifier });
        url
    }

    /// Handles a parsed callback: an error ends the sign-in; a callback for
    /// another request is ignored; a returned token is stored; a code is
    /// exchanged with the pending verifier, which is used up.
    pub fn on_auth_callback(&mut self, callback: LingModelAuthCallback) -> (a: SignInAction)
        ensures
            (final(self).pending, a) == auth_step(old(self).pending, callback),
            final(self).api_key == old(self).api_key,
            final(self).api_key_from_env == old(self).api_key_from_env,
            final(self).has_user_store == old(self).has_user_store,
    {
        if let Some(error) = callback.error {
            self.pending = None;
            return SignInAction::Rejected(SignInRejection::Failed(error));
        }
        let matches = match &self.pending {
            None => true,
            Some(p) => match &callback.state {
                Some(s) => crate::text::chars_eq(
                    crate::text::chars_of(s.as_str()).as_slice(),
                    crate::text::chars_of(p.state.as_str()).as_slice(),
                ),
                None => false,
            },
        };
        if !matches {
            return SignInAction::Rejected(SignInRejection::StateMismatch);
        }
        if let Some(token) = callback.access_token {
            self.pending = None;
            return SignInAction::StoreToken(token);
        }
        let code = match callback.code {
            Some(c) => c,
            None => {
                return SignInAction::Rejected(SignInRejection::NoTokenOrCode);
            },
        };
        match self.pending.take() {
            None => SignInAction::Rejected(SignInRejection::NoPendingVerifier),
            Some(p) => SignInAction::ExchangeCode { code, verifier: p.verifier },
        }
    }
}


impl State {
    /// What refreshing the managed plan amounts to: nothing without a user
    /// store; clearing the plan without a key; otherwise fetching it with the
    /// stored key.
    pub fn plan_refresh(&self) -> (r: PlanRefresh)
        ensures
            !self.has_user_store ==> r is Skip,
            self.has_user_store && self.api_key is None ==> r is Clear,
            self.has_user_store && self.api_key is Some ==> (r matches PlanRefresh::Fetch(t)
                && t == self.api_key->0),
    {
        if !self.has_user_store {
            return PlanRefresh::Skip;
        }
        match &self.api_key {
            None => PlanRefresh::Clear,
            Some(k) => PlanRefresh::Fetch(k.clone()),
        }
    }

    /// The API-key editor shows while no key is loaded.
    pub fn should_render_editor(&self) -> (b: bool)
        ensures
            b == (self.api_key is None),
    {
        !self.is_authenticated()
    }

    /// The label of the card that shows a configured key.
    pub fn configured_card_label(&self) -> (r: String)
        ensures
            self.api_key_from_env ==> r@ == "API key set in LINGMODEL_API_KEY environment variable"@,
            !self.api_key_from_env ==> r@ == "LingModel API key configured"@,
    {
        if self.api_key_from_env {
            String::from_str("API key set in LINGMODEL_API_KEY environment variable")
        } else {
            String::from_str("LingModel API key configured")
        }
    }
}

impl State {
    /// The key was stored (`Some`) or removed (`None`) in the keychain: it
    /// replaces the loaded key, and the plan is refreshed to match.
    pub fn set_api_key(&mut self, key: Option<String>) -> (r: PlanRefresh)
        ensures
            final(self).api_key == key,
            !final(self).api_key_from_env,
            final(self).pending == old(self).pending,
            final(self).has_user_store == old(self).has_user_store,
            !old(self).has_user_store ==> r is Skip,
            old(self).has_user_store && key is None ==> r is Clear,
            old(self).has_user_store && key is Some ==> (r matches PlanRefresh::Fetch(t) && t
                == key->0),
    {
        self.api_key = key;
        self.api_key_from_env = false;
        self.plan_refresh()
    }
}

/// What the LingModel configuration panel shows.
pub enum ConfigurationPanel {
    /// "Loading credentials..." while the stored key loads.
    Loading,
    /// The browser sign-in button and the API-key editor.
    Editor,
    /// The card of a configured key with its label; the key cannot be reset
    /// from the panel when it comes from the environment.
    Configured { label: String, from_env: bool },
}

/// The LingModel configuration panel: whether the stored credentials are
/// still loading.
pub struct ConfigurationView {
    pub loading_credentials: bool,
}

impl ConfigurationView {
    /// A panel that has just asked for the stored credentials.
    pub fn new() -> (v: Self)
        ensures
            v.loading_credentials,
    {
        ConfigurationView { loading_credentials: true }
    }

    /// The stored credentials have loaded (or failed to).
    pub fn credentials_loaded(&mut self)
        ensures
            !final(self).loading_credentials,
    {
        self.loading_credentials = false;
    }

    /// What the panel shows for `state`: the loading note until the
    /// credentials have loaded; then the editor while no key is loaded, else
    /// the card of the configured key.
    pub fn panel(&self, state: &State) -> (p: ConfigurationPanel)
        ensures
            self.loading_credentials ==> p is Loading,
            !self.loading_credentials && state.api_key is None ==> p is Editor,
            !self.loading_credentials && state.api_key is Some ==> (p matches ConfigurationPanel::Configured {
                label,
                from_env,
            } && from_env == state.api_key_from_env && label@ == (if state.api_key_from_env {
                "API key set in LINGMODEL_API_KEY environment variable"@
            } else {
                "LingModel API key configured"@
            })),
    {
        if self.loading_credentials {
            ConfigurationPanel::Loading
        } else if state.should_render_editor() {
            ConfigurationPanel::Editor
        } else {
            ConfigurationPanel::Configured {
                label: state.configured_card_label(),
                from_env: state.api_key_from_env,
            }
        }
    }
}

/// What a plan refresh does to the published plan.
#[derive(PartialEq, Eq, Structural, Clone, Copy, Debug)]
pub enum PlanUpdate {
    /// Leave the published plan as it is.
    Keep,
    /// Publish this plan (`None` clears it).
    Publish(Option<Plan>),
}

/// What a refresh publishes, given what `refresh` asked for and, for a fetch,
/// the plan it gave (`None` when the fetch failed): nothing without a user
/// store; no plan without a key; the fetched plan; and, since the refresh is
/// best-effort, the current plan left untouched when the fetch failed.
pub fn plan_update(refresh: &PlanRefresh, fetched: Option<Plan>) -> (r: PlanUpdate)
    ensures
        *refresh is Skip ==> r == PlanUpdate::Keep,
        *refresh is Clear ==> r == PlanUpdate::Publish(None),
        *refresh is Fetch ==> r == (match fetched {
            Some(p) => PlanUpdate::Publish(Some(p)),
            None => PlanUpdate::Keep,
        }),
{
    match refresh {
        PlanRefresh::Skip => PlanUpdate::Keep,
        PlanRefresh::Clear => PlanUpdate::Publish(None),
        PlanRefresh::Fetch(_) => match fetched {
            Some(p) => PlanUpdate::Publish(Some(p)),
            None => PlanUpdate::Keep,
        },
    }
}

/// What refreshing the managed plan amounts to.
pub enum PlanRefresh {
    /// There is no user store to publish to.
    Skip,
    /// No key: publish no plan.
    Clear,
    /// Fetch the plan with this token.
    Fetch(String),
}

/// The key to save from the editor's text: the text without surrounding white
/// space, or nothing when that is empty.
pub fn api_key_to_save(input: &str) -> (r: Option<String>)
    ensures
        trim(input@).len() == 0 ==> r is None,
        trim(input@).len() > 0 ==> (r matches Some(k) && k@ == trim(input@)),
{
    let key = trim_str(input);
    if key.as_str().is_empty() {
        None
    } else {
        Some(key)
    }
}

// ---- laws of the sign-in --------------------------------------------------

/// A failed or denied sign-in always ends the request in flight and stores
/// nothing.
pub proof fn law_error_ends_sign_in(pending: Option<PendingAuth>, cb: LingModelAuthCallback)
    requires
        cb.error is Some,
    ensures
        auth_step(pending, cb).0 is None,
        auth_step(pending, cb).1 == SignInAction::Rejected(SignInRejection::Failed(cb.error->0)),
{
}

/// A callback that carries another request's `state` (or none) while a
/// sign-in is in flight changes nothing and stores nothing.
pub proof fn law_foreign_state_is_ignored(p: PendingAuth, cb: LingModelAuthCallback)
    requires
        cb.error is None,
        !(cb.state is Some && cb.state->0@ == p.state@),
    ensures
        auth_step(Some(p), cb) == (Some(p), SignInAction::Rejected(SignInRejection::StateMismatch)),
{
}

/// A token is stored exactly when the callback reports no error, carries the
/// token, and belongs to the request in flight (or none is in flight).
pub proof fn law_token_stored_iff(pending: Option<PendingAuth>, cb: LingModelAuthCallback, t: String)
    ensures
        auth_step(pending, cb).1 == SignInAction::StoreToken(t) <==> {
            &&& cb.error is None
            &&& cb.access_token == Some(t)
            &&& (pending is None || (cb.state is Some && cb.state->0@ == pending->0.state@))
        },
{
}

/// A code is exchanged only for the request in flight, with that request's
/// verifier, and the request is used up.
pub proof fn law_code_exchange_uses_pending_verifier(
    pending: Option<PendingAuth>,
    cb: LingModelAuthCallback,
)
    requires
        (auth_step(pending, cb).1 is ExchangeCode),
    ensures
        pending is Some,
        cb.state is Some && cb.state->0@ == pending->0.state@,
        auth_step(pending, cb).1 == (SignInAction::ExchangeCode {
            code: cb.code->0,
            verifier: pending->0.verifier,
        }),
        auth_step(pending, cb).0 is None,
{
}

/// Delivering the same callback again after its code was exchanged never
/// exchanges a second time.
pub proof fn law_code_exchanged_once(pending: Option<PendingAuth>, cb: LingModelAuthCallback)
    requires
        (auth_step(pending, cb).1 is ExchangeCode),
    ensures
        !(auth_step(auth_step(pending, cb).0, cb).1 is ExchangeCode),
{
}

// ---- the token exchange ---------------------------------------------------

/// One `name=value` pair of an `application/x-www-form-urlencoded` body.
pub open spec fn form_pair(name: Seq<char>, value: Seq<char>) -> Seq<char> {
    form_bytes(encode_utf8(name)) + "="@ + form_bytes(encode_utf8(value))
}

/// The body of the token-exchange request for `code` and `verifier`.
pub open spec fn exchange_body(code: Seq<char>, verifier: Seq<char>) -> Seq<char> {
    form_pair("grant_type"@, "authorization_code"@) + "&"@ + form_pair("code"@, code) + "&"@
        + form_pair("redirect_uri"@, redirect_uri()) + "&"@ + form_pair("client_id"@, client_id())
        + "&"@ + form_pair("code_verifier"@, verifier)
}

fn append_pair(out: &mut String, name: &str, value: &str)
    ensures
        final(out)@ == old(out)@ + form_pair(name@, value@),
{
    let n = crate::auth::form_urlencode(name);
    let v = crate::auth::form_urlencode(value);
    out.append(n.as_str());
    out.append("=");
    out.append(v.as_str());
}

/// The form body that exchanges `code` for a token, presenting `verifier`.
pub fn token_exchange_body(code: &str, verifier: &str) -> (r: String)
    ensures
        r@ == exchange_body(code@, verifier@),
{
    let mut r = String::new();
    append_pair(&mut r, "grant_type", "authorization_code");
    r.append("&");
    append_pair(&mut r, "code", code);
    r.append("&");
    append_pair(&mut r, "redirect_uri", "lingcode://auth/callback");
    r.append("&");
    append_pair(&mut r, "client_id", "lingcode-ide");
    r.append("&");
    append_pair(&mut r, "code_verifier", verifier);
    r
}

/// The outcome of the token exchange from the reply: the status as shown,
/// whether it is a success, the body, and the `access_token` parsed from the
/// body (or the parser's message).
pub fn token_exchange_outcome(
    success: bool,
    status: &str,
    body: &str,
    parsed: Result<String, String>,
) -> (r: Result<String, String>)
    ensures
        !success ==> (r matches Err(m) && m@ == "LingModel token exchange failed ("@ + status@
            + "): "@ + body@),
        success ==> match parsed {
            Ok(t) => r == Ok::<String, String>(t),
            Err(e) => r matches Err(m) && m@ == "LingModel token response was not valid JSON: "@
                + e@,
        },
{
    if !success {
        let mut m = String::from_str("LingModel token exchange failed (");
        m.append(status);
        m.append("): ");
        m.append(body);
        return Err(m);
    }
    match parsed {
        Ok(t) => Ok(t),
        Err(e) => {
            let mut m = String::from_str("LingModel token response was not valid JSON: ");
            m.append(e.as_str());
            Err(m)
        },
    }
}


// ---- the provider and its model -------------------------------------------

/// How a request may ask the model to use tools.
#[derive(Clone, Copy, PartialEq, Eq, Structural, Debug)]
pub enum ToolChoice {
    Auto,
    Any,
    NoTools,
}

/// The LingModel model as the editor offers it.
pub struct LingModelModel {
    pub id: String,
    pub model: ModelInfo,
}

impl LingModelModel {
    /// The model offered for `model`, identified by its name.
    pub fn new(model: ModelInfo) -> (m: Self)
        ensures
            m.id@ == model.name@,
            m.model == model,
    {
        LingModelModel { id: String::from_str(model.name), model }
    }

    /// The name shown for the model.
    pub fn name(&self) -> (r: &'static str)
        ensures
            r == self.model.display_name,
    {
        self.model.display_name
    }

    pub fn supports_tools(&self) -> (b: bool)
        ensures
            b,
    {
        true
    }

    pub fn supports_images(&self) -> (b: bool)
        ensures
            b,
    {
        true
    }

    pub fn supports_streaming_tools(&self) -> (b: bool)
        ensures
            b,
    {
        true
    }

    /// Every tool choice is supported.
    pub fn supports_tool_choice(&self, choice: ToolChoice) -> (b: bool)
        ensures
            b,
    {
        match choice {
            ToolChoice::Auto | ToolChoice::Any | ToolChoice::NoTools => true,
        }
    }

    pub fn telemetry_id(&self) -> (r: String)
        ensures
            r@ == "lingmodel/"@ + self.model.name@,
    {
        telemetry_id(&self.model)
    }

    pub fn max_token_count(&self) -> (n: u64)
        ensures
            n == self.model.max_tokens,
    {
        self.model.max_tokens
    }

    pub fn max_output_tokens(&self) -> (n: Option<u64>)
        ensures
            n == Some(self.model.max_output_tokens),
    {
        Some(self.model.max_output_tokens)
    }
    /// How the model uses prompt caching: as its model declares.
    pub fn cache_configuration(&self) -> (r: Option<CacheConfiguration>)
        ensures
            r == self.model.cache_configuration,
    {
        self.model.cache_configuration
    }

    /// The key requests are sent with: the one `state` has loaded.
    pub fn api_key(&self, state: &State) -> (r: Option<String>)
        ensures
            r == state.api_key,
    {
        state.api_key.clone()
    }

    /// The key a completion is streamed with, or the refusal when no key is
    /// loaded.
    pub fn completion_key(&self, state: &State) -> (r: Result<String, CompletionRefusal>)
        ensures
            state.api_key matches Some(k) ==> r == Ok::<String, CompletionRefusal>(k),
            state.api_key is None ==> r == Err::<String, CompletionRefusal>(CompletionRefusal::NoApiKey),
    {
        match &state.api_key {
            Some(k) => Ok(k.clone()),
            None => Err(CompletionRefusal::NoApiKey),
        }
    }
}

/// Why a completion was not requested.
#[derive(PartialEq, Eq, Structural, Clone, Copy, Debug)]
pub enum CompletionRefusal {
    /// LingModel has no API key loaded.
    NoApiKey,
}

/// LingCode's managed provider: one fixed endpoint and one model.
pub struct LingModelLanguageModelProvider {
    pub state: State,
}

impl LingModelLanguageModelProvider {
    /// A provider with nothing loaded yet.
    pub fn new(has_user_store: bool) -> (p: Self)
        ensures
            p.state.api_key is None && p.state.pending is None,
            p.state.has_user_store == has_user_store,
    {
        LingModelLanguageModelProvider { state: State::new(has_user_store) }
    }

    /// The provider's id.
    pub fn id(&self) -> (r: &'static str)
        ensures
            r@ == "lingmodel"@,
    {
        "lingmodel"
    }

    /// The provider's name.
    pub fn name(&self) -> (r: &'static str)
        ensures
            r@ == "LingModel"@,
    {
        "LingModel"
    }

    /// The model offered as default, fast default, recommended and provided
    /// model alike.
    pub fn default_model(&self) -> (m: LingModelModel)
        ensures
            m.model == lingmodel_model_spec(),
            m.id@ == "lingmodel"@,
    {
        LingModelModel::new(lingmodel_model())
    }

    /// The models the provider offers: the single managed model.
    pub fn provided_models(&self) -> (r: Vec<LingModelModel>)
        ensures
            r@.len() == 1,
            r@[0].model == lingmodel_model_spec(),
    {
        vec![self.default_model()]
    }

    pub fn is_authenticated(&self) -> (b: bool)
        ensures
            b == self.state.api_key is Some,
    {
        self.state.is_authenticated()
    }
    /// Forgets the stored key, which clears the published plan.
    pub fn reset_credentials(&mut self) -> (r: PlanRefresh)
        ensures
            final(self).state.api_key is None,
            final(self).state.pending == old(self).state.pending,
            !old(self).state.has_user_store ==> r is Skip,
            old(self).state.has_user_store ==> r is Clear,
    {
        self.state.set_api_key(None)
    }
}

/// The single managed model.
pub open spec fn lingmodel_model_spec() -> ModelInfo {
    ModelInfo {
        name: "lingmodel",
        display_name: "LingModel",
        max_tokens: 200_000,
        max_output_tokens: 64_000,
        cache_configuration: None,
    }
}

/// The hint under the key editor.
pub fn env_var_hint() -> (r: &'static str)
    ensures
        r@ == "You can also set the LINGMODEL_API_KEY environment variable and restart LingCode."@,
{
    "You can also set the LINGMODEL_API_KEY environment variable and restart LingCode."
}

/// The tooltip of a key set through the environment.
pub fn env_var_reset_hint() -> (r: &'static str)
    ensures
        r@ == "To reset your API key, unset the LINGMODEL_API_KEY environment variable."@,
{
    "To reset your API key, unset the LINGMODEL_API_KEY environment variable."
}

} // verus!
