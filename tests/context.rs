use std::collections::BTreeSet;

use swagger::{
    AuthData, Authorization, Context, ContextExtension, ContextWrapper, ContextWrapperExt,
    ExtendsWith, Has, Scopes, XSpanIdString,
};

fn authorization(subject: &str) -> Authorization {
    let mut scopes = BTreeSet::new();
    scopes.insert("read".to_string());
    Authorization {
        subject: subject.to_string(),
        scopes: Scopes::Only(scopes),
        issuer: None,
    }
}

fn span_of<C: Has<XSpanIdString>>(c: &C) -> String {
    Has::<XSpanIdString>::get(c).0.clone()
}

fn auth_of<C: Has<Option<Authorization>>>(c: &C) -> Option<String> {
    Has::<Option<Authorization>>::get(c).as_ref().map(|a| a.subject.clone())
}

fn key_of<C: Has<AuthData>>(c: &C) -> String {
    match Has::<AuthData>::get(c) {
        AuthData::ApiKey(k) => k.clone(),
        _ => panic!("not an API key"),
    }
}

#[test]
fn new_context_is_empty() {
    let c = Context::new();
    assert_eq!(c.x_span_id.0, "");
    assert!(c.authorization.is_none());
    assert!(c.auth_data.is_none());
    let d = Context::default();
    assert_eq!(d.x_span_id.0, "");
    assert_eq!(XSpanIdString::default().0, "");
}

#[test]
fn new_with_span_id_sets_only_the_span() {
    let c = Context::new_with_span_id("abc-123");
    assert_eq!(c.x_span_id.0, "abc-123");
    assert!(c.authorization.is_none());
    assert!(c.auth_data.is_none());
    let d = Context::new_with_span_id(String::from("xyz"));
    assert_eq!(span_of(&d), "xyz");
}

#[test]
fn set_then_get_on_context() {
    let mut c = Context::new();
    c.set(XSpanIdString("first".to_string()));
    assert_eq!(span_of(&c), "first");
    Has::<XSpanIdString>::get_mut(&mut c).0.push_str("-more");
    assert_eq!(c.x_span_id.0, "first-more");
}

#[test]
fn set_then_get_on_extension() {
    let mut e = ContextExtension::new(Context::new(), AuthData::ApiKey("k1".to_string()));
    e.set(AuthData::ApiKey("k2".to_string()));
    assert_eq!(key_of(&e), "k2");
    e.set(XSpanIdString("s".to_string()));
    assert_eq!(span_of(&e), "s");
    assert_eq!(key_of(&e), "k2");
    if let AuthData::ApiKey(k) = Has::<AuthData>::get_mut(&mut e) {
        k.push('3');
    }
    assert_eq!(key_of(&e), "k23");
}

#[test]
fn extension_keeps_base_span() {
    let base = Context::new_with_span_id("span-7");
    let before = span_of(&base);
    let e: ContextExtension<Context, Option<Authorization>> =
        ContextExtension::new(base, Some(authorization("alice")));
    assert_eq!(span_of(&e), before);
    assert_eq!(auth_of(&e), Some("alice".to_string()));
    let e2: ContextExtension<Context, AuthData> =
        ContextExtension::new(Context::new_with_span_id("span-8"), AuthData::ApiKey("key".to_string()));
    assert_eq!(span_of(&e2), "span-8");
}

#[test]
fn extension_keeps_inner_layers() {
    let inner: ContextExtension<Context, AuthData> =
        ContextExtension::new(Context::new(), AuthData::ApiKey("key".to_string()));
    let outer: ContextExtension<_, Option<Authorization>> = ContextExtension::new(inner, None);
    assert_eq!(key_of(&outer), "key");
    assert_eq!(auth_of(&outer), None);
    let inner2: ContextExtension<Context, Option<Authorization>> =
        ContextExtension::new(Context::new(), Some(authorization("bob")));
    let outer2: ContextExtension<_, XSpanIdString> =
        ContextExtension::new(inner2, XSpanIdString("top".to_string()));
    assert_eq!(auth_of(&outer2), Some("bob".to_string()));
    assert_eq!(span_of(&outer2), "top");
}

#[test]
fn order_of_composition_does_not_matter() {
    let ab: ContextExtension<ContextExtension<Context, Option<Authorization>>, AuthData> =
        ContextExtension::new(
            ContextExtension::new(Context::new_with_span_id("s"), Some(authorization("carol"))),
            AuthData::ApiKey("k".to_string()),
        );
    let ba: ContextExtension<ContextExtension<Context, AuthData>, Option<Authorization>> =
        ContextExtension::new(
            ContextExtension::new(Context::new_with_span_id("s"), AuthData::ApiKey("k".to_string())),
            Some(authorization("carol")),
        );
    assert_eq!(auth_of(&ab), auth_of(&ba));
    assert_eq!(key_of(&ab), key_of(&ba));
    assert_eq!(auth_of(&ab), Some("carol".to_string()));
    assert_eq!(key_of(&ab), "k");
    assert_eq!(span_of(&ab), "s");
    assert_eq!(span_of(&ba), "s");
}

#[test]
fn auth_basic_sets_credentials() {
    let mut c = Context::new_with_span_id("s");
    c.auth_basic("user", "secret");
    match &c.auth_data {
        Some(AuthData::Basic(b)) => {
            assert_eq!(b.username, "user");
            assert_eq!(b.password.as_deref(), Some("secret"));
        }
        _ => panic!("expected Basic credentials"),
    }
    assert_eq!(c.x_span_id.0, "s");
}

#[test]
fn auth_bearer_sets_token() {
    let mut c = Context::new();
    c.auth_basic("user", "secret");
    c.auth_bearer("tok");
    match &c.auth_data {
        Some(AuthData::Bearer(b)) => assert_eq!(b.token, "tok"),
        _ => panic!("expected a bearer token"),
    }
}

#[test]
fn auth_apikey_sets_key() {
    let mut c = Context::new();
    c.auth_apikey("my-key");
    match &c.auth_data {
        Some(AuthData::ApiKey(k)) => assert_eq!(k, "my-key"),
        _ => panic!("expected an API key"),
    }
    assert!(c.authorization.is_none());
}

struct Api {
    name: &'static str,
}

impl<'a, C> ContextWrapperExt<'a, C> for Api {}

#[test]
fn wrapper_pairs_api_and_context() {
    let api = Api { name: "pets" };
    let w = ContextWrapper::new(&api, Context::new_with_span_id("w"));
    assert!(std::ptr::eq(w.api(), &api));
    assert_eq!(w.api().name, "pets");
    assert_eq!(w.context().x_span_id.0, "w");
}

#[test]
fn with_context_binds_api() {
    let api = Api { name: "store" };
    let w = api.with_context(7u32);
    assert!(std::ptr::eq(w.api(), &api));
    assert_eq!(*w.context(), 7);
}
