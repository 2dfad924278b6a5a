use lingcode::{deliver_ling_model_auth, LingModelAuthCallback, LingModelAuthListener};

fn callback(code: Option<&str>, state: Option<&str>, token: Option<&str>, error: Option<&str>) -> LingModelAuthCallback {
    LingModelAuthCallback {
        code: code.map(|s| s.to_string()),
        state: state.map(|s| s.to_string()),
        access_token: token.map(|s| s.to_string()),
        error: error.map(|s| s.to_string()),
    }
}

#[test]
fn buffered_callback_is_drained_once() {
    let mut listener = LingModelAuthListener::new();
    assert!(listener.take_last().is_none());
    let event = listener.deliver(callback(Some("c1"), Some("s1"), None, None));
    assert_eq!(event.0.code.as_deref(), Some("c1"));
    listener.deliver(callback(None, Some("s2"), Some("t2"), None));
    let drained = listener.take_last().unwrap();
    assert_eq!(drained.access_token.as_deref(), Some("t2"));
    assert_eq!(drained.state.as_deref(), Some("s2"));
    assert!(listener.take_last().is_none());
}

#[test]
fn delivery_without_listener_is_dropped() {
    let mut global: Option<LingModelAuthListener> = None;
    assert!(deliver_ling_model_auth(callback(Some("c"), None, None, None), &mut global).is_none());
    assert!(global.is_none());
}

#[test]
fn delivery_reaches_registered_listener() {
    let mut global: Option<LingModelAuthListener> = None;
    LingModelAuthListener::register(&mut global);
    let event = deliver_ling_model_auth(callback(None, Some("s"), Some("tok"), None), &mut global);
    assert_eq!(event.unwrap().0.access_token.as_deref(), Some("tok"));
    // Registering again keeps the listener and what it buffered.
    LingModelAuthListener::register(&mut global);
    let drained = global.as_mut().unwrap().take_last().unwrap();
    assert_eq!(drained.access_token.as_deref(), Some("tok"));
}

#[test]
fn debug_text_redacts_secrets() {
    let cb = callback(Some("secret-code"), Some("st"), Some("secret-token"), None);
    assert_eq!(
        cb.debug_text(),
        "LingModelAuthCallback { code: Some(\"[redacted]\"), state: Some(\"st\"), access_token: Some(\"[redacted]\"), error: None }"
    );
    let other = callback(Some("x"), Some("st"), Some("y"), None);
    assert_eq!(cb.debug_text(), other.debug_text());
    assert!(!cb.debug_text().contains("secret"));
}

#[test]
fn debug_text_escapes_plain_fields() {
    let cb = callback(None, Some("a\"b"), None, Some("denied\n"));
    assert_eq!(
        cb.debug_text(),
        "LingModelAuthCallback { code: None, state: Some(\"a\\\"b\"), access_token: None, error: Some(\"denied\\n\") }"
    );
}

#[test]
fn default_callback_is_empty() {
    let cb = LingModelAuthCallback::default();
    assert!(cb.code.is_none() && cb.state.is_none() && cb.access_token.is_none() && cb.error.is_none());
}

#[test]
fn global_listener_lookup() {
    let mut slot: Option<LingModelAuthListener> = None;
    assert!(LingModelAuthListener::try_global(&slot).is_none());
    LingModelAuthListener::register(&mut slot);
    assert!(LingModelAuthListener::try_global(&slot).is_some());
    let cb = LingModelAuthCallback { code: None, state: None, access_token: Some("t".to_string()), error: None };
    assert!(deliver_ling_model_auth(cb, &mut slot).is_some());
    let _installed: &LingModelAuthListener = LingModelAuthListener::global(&slot);
    let drained = slot.as_mut().map(|l| l.take_last());
    assert!(matches!(drained, Some(Some(ref c)) if c.access_token.as_deref() == Some("t")));
}

