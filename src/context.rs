//! Request contexts: a base record and typed extension layers over it.

use vstd::prelude::*;
use vstd::std_specs::convert::IntoSpec;
use crate::auth::{AuthData, Authorization, Basic, Bearer};

verus! {

/// Tracking identifier that follows a request across chained services.
#[derive(Debug, Clone)]
pub struct XSpanIdString(pub String);

impl Default for XSpanIdString {
    fn default() -> (r: XSpanIdString)
        ensures
            r.0@ == Seq::<char>::empty(),
    {
        XSpanIdString(String::new())
    }
}

/// A context-like value that holds exactly one slot of type `T`.
///
/// `slot` is the value stored for `T`; `with_slot` is the whole value with
/// that slot replaced and everything else left as it was.
pub trait Has<T>: Sized {
    spec fn slot(&self) -> T;

    spec fn with_slot(&self, item: T) -> Self;

    /// Reading a slot right after replacing it gives back the value that
    /// was put there.
    proof fn lemma_set_then_get(&self, item: T)
        ensures
            self.with_slot(item).slot() == item,
    ;

    /// Replaces the stored value.
    fn set(&mut self, item: T)
        ensures
            *final(self) == old(self).with_slot(item),
    ;

    /// Borrows the stored value.
    fn get(&self) -> (r: &T)
        ensures
            *r == self.slot(),
    ;

    /// Mutably borrows the stored value.
    fn get_mut(&mut self) -> (r: &mut T)
        ensures
            *r == old(self).slot(),
            *final(self) == old(self).with_slot(*final(r)),
    ;
}

/// A context-like value built by attaching an item of type `T` to an inner
/// context of type `C`.
pub trait ExtendsWith<C, T>: Has<T> {
    spec fn base(&self) -> C;

    fn new(inner: C, item: T) -> (r: Self)
        ensures
            r.base() == inner,
            r.slot() == item,
    ;
}

/// An inner context together with one newly attached item. Each layer owns
/// the one beneath it.
pub struct ContextExtension<C, T> {
    inner: C,
    item: T,
}

impl<C, T> ContextExtension<C, T> {
    /// The layer beneath this one.
    pub closed spec fn inner(&self) -> C {
        self.inner
    }

    /// The item attached by this layer.
    pub closed spec fn item(&self) -> T {
        self.item
    }

    /// The layer made of `inner` and `item`.
    pub closed spec fn compose(inner: C, item: T) -> Self {
        ContextExtension { inner, item }
    }
}

/// A layer made of `inner` and `item` holds exactly those two.
pub broadcast proof fn lemma_compose_parts<C, T>(inner: C, item: T)
    ensures
        (#[trigger] ContextExtension::compose(inner, item)).inner() == inner,
        ContextExtension::compose(inner, item).item() == item,
{
}

impl<C, T> Has<T> for ContextExtension<C, T> {
    open spec fn slot(&self) -> T {
        self.item()
    }

    open spec fn with_slot(&self, item: T) -> Self {
        Self::compose(self.inner(), item)
    }

    proof fn lemma_set_then_get(&self, item: T) {
    }

    fn set(&mut self, item: T) {
        self.item = item;
    }

    fn get(&self) -> (r: &T) {
        &self.item
    }

    fn get_mut(&mut self) -> (r: &mut T) {
        &mut self.item
    }
}

impl<C, T> ExtendsWith<C, T> for ContextExtension<C, T> {
    open spec fn base(&self) -> C {
        self.inner()
    }

    fn new(inner: C, item: T) -> (r: Self)
        ensures
            r == Self::compose(inner, item),
    {
        ContextExtension { inner, item }
    }
}

impl<C: Has<XSpanIdString>> Has<XSpanIdString> for ContextExtension<C, Option<Authorization>> {
    open spec fn slot(&self) -> XSpanIdString {
        self.inner().slot()
    }

    open spec fn with_slot(&self, item: XSpanIdString) -> Self {
        Self::compose(self.inner().with_slot(item), self.item())
    }

    proof fn lemma_set_then_get(&self, item: XSpanIdString) {
        self.inner().lemma_set_then_get(item);
    }

    fn set(&mut self, item: XSpanIdString) {
        self.inner.set(item);
    }

    fn get(&self) -> (r: &XSpanIdString) {
        self.inner.get()
    }

    fn get_mut(&mut self) -> (r: &mut XSpanIdString) {
        self.inner.get_mut()
    }
}

impl<C: Has<Option<Authorization>>> Has<Option<Authorization>> for ContextExtension<C, XSpanIdString> {
    open spec fn slot(&self) -> Option<Authorization> {
        self.inner().slot()
    }

    open spec fn with_slot(&self, item: Option<Authorization>) -> Self {
        Self::compose(self.inner().with_slot(item), self.item())
    }

    proof fn lemma_set_then_get(&self, item: Option<Authorization>) {
        self.inner().lemma_set_then_get(item);
    }

    fn set(&mut self, item: Option<Authorization>) {
        self.inner.set(item);
    }

    fn get(&self) -> (r: &Option<Authorization>) {
        self.inner.get()
    }

    fn get_mut(&mut self) -> (r: &mut Option<Authorization>) {
        self.inner.get_mut()
    }
}

impl<C: Has<XSpanIdString>> Has<XSpanIdString> for ContextExtension<C, AuthData> {
    open spec fn slot(&self) -> XSpanIdString {
        self.inner().slot()
    }

    open spec fn with_slot(&self, item: XSpanIdString) -> Self {
        Self::compose(self.inner().with_slot(item), self.item())
    }

    proof fn lemma_set_then_get(&self, item: XSpanIdString) {
        self.inner().lemma_set_then_get(item);
    }

    fn set(&mut self, item: XSpanIdString) {
        self.inner.set(item);
    }

    fn get(&self) -> (r: &XSpanIdString) {
        self.inner.get()
    }

    fn get_mut(&mut self) -> (r: &mut XSpanIdString) {
        self.inner.get_mut()
    }
}

impl<C: Has<AuthData>> Has<AuthData> for ContextExtension<C, XSpanIdString> {
    open spec fn slot(&self) -> AuthData {
        self.inner().slot()
    }

    open spec fn with_slot(&self, item: AuthData) -> Self {
        Self::compose(self.inner().with_slot(item), self.item())
    }

    proof fn lemma_set_then_get(&self, item: AuthData) {
        self.inner().lemma_set_then_get(item);
    }

    fn set(&mut self, item: AuthData) {
        self.inner.set(item);
    }

    fn get(&self) -> (r: &AuthData) {
        self.inner.get()
    }

    fn get_mut(&mut self) -> (r: &mut AuthData) {
        self.inner.get_mut()
    }
}

impl<C: Has<AuthData>> Has<AuthData> for ContextExtension<C, Option<Authorization>> {
    open spec fn slot(&self) -> AuthData {
        self.inner().slot()
    }

    open spec fn with_slot(&self, item: AuthData) -> Self {
        Self::compose(self.inner().with_slot(item), self.item())
    }

    proof fn lemma_set_then_get(&self, item: AuthData) {
        self.inner().lemma_set_then_get(item);
    }

    fn set(&mut self, item: AuthData) {
        self.inner.set(item);
    }

    fn get(&self) -> (r: &AuthData) {
        self.inner.get()
    }

    fn get_mut(&mut self) -> (r: &mut AuthData) {
        self.inner.get_mut()
    }
}

impl<C: Has<Option<Authorization>>> Has<Option<Authorization>> for ContextExtension<C, AuthData> {
    open spec fn slot(&self) -> Option<Authorization> {
        self.inner().slot()
    }

    open spec fn with_slot(&self, item: Option<Authorization>) -> Self {
        Self::compose(self.inner().with_slot(item), self.item())
    }

    proof fn lemma_set_then_get(&self, item: Option<Authorization>) {
        self.inner().lemma_set_then_get(item);
    }

    fn set(&mut self, item: Option<Authorization>) {
        self.inner.set(item);
    }

    fn get(&self) -> (r: &Option<Authorization>) {
        self.inner.get()
    }

    fn get_mut(&mut self) -> (r: &mut Option<Authorization>) {
        self.inner.get_mut()
    }
}

/// Attaching a layer that holds the authorization result leaves the span identifier
/// of the base as it was.
pub proof fn lemma_authorization_layer_keeps_span_id<C: Has<XSpanIdString>>(base: C, item: Option<Authorization>)
    ensures
        <ContextExtension<C, Option<Authorization>> as Has<XSpanIdString>>::slot(&ContextExtension::compose(base, item))
            == base.slot(),
{
}

/// Attaching a layer that holds the span identifier leaves the authorization result
/// of the base as it was.
pub proof fn lemma_span_id_layer_keeps_authorization<C: Has<Option<Authorization>>>(base: C, item: XSpanIdString)
    ensures
        <ContextExtension<C, XSpanIdString> as Has<Option<Authorization>>>::slot(&ContextExtension::compose(base, item))
            == base.slot(),
{
}

/// Attaching a layer that holds the raw credentials leaves the span identifier
/// of the base as it was.
pub proof fn lemma_auth_data_layer_keeps_span_id<C: Has<XSpanIdString>>(base: C, item: AuthData)
    ensures
        <ContextExtension<C, AuthData> as Has<XSpanIdString>>::slot(&ContextExtension::compose(base, item))
            == base.slot(),
{
}

/// Attaching a layer that holds the span identifier leaves the raw credentials
/// of the base as it was.
pub proof fn lemma_span_id_layer_keeps_auth_data<C: Has<AuthData>>(base: C, item: XSpanIdString)
    ensures
        <ContextExtension<C, XSpanIdString> as Has<AuthData>>::slot(&ContextExtension::compose(base, item))
            == base.slot(),
{
}

/// Attaching a layer that holds the authorization result leaves the raw credentials
/// of the base as it was.
pub proof fn lemma_authorization_layer_keeps_auth_data<C: Has<AuthData>>(base: C, item: Option<Authorization>)
    ensures
        <ContextExtension<C, Option<Authorization>> as Has<AuthData>>::slot(&ContextExtension::compose(base, item))
            == base.slot(),
{
}

/// Attaching a layer that holds the raw credentials leaves the authorization result
/// of the base as it was.
pub proof fn lemma_auth_data_layer_keeps_authorization<C: Has<Option<Authorization>>>(base: C, item: AuthData)
    ensures
        <ContextExtension<C, AuthData> as Has<Option<Authorization>>>::slot(&ContextExtension::compose(base, item))
            == base.slot(),
{
}

/// Whether the span identifier or the authorization result is attached first, both
/// read back as attached.
pub proof fn lemma_span_id_and_authorization_in_either_order<C>(base: C, a: XSpanIdString, b: Option<Authorization>)
    ensures
        <ContextExtension<ContextExtension<C, XSpanIdString>, Option<Authorization>> as Has<XSpanIdString>>::slot(
            &ContextExtension::compose(ContextExtension::compose(base, a), b),
        ) == a,
        <ContextExtension<ContextExtension<C, Option<Authorization>>, XSpanIdString> as Has<XSpanIdString>>::slot(
            &ContextExtension::compose(ContextExtension::compose(base, b), a),
        ) == a,
        <ContextExtension<ContextExtension<C, XSpanIdString>, Option<Authorization>> as Has<Option<Authorization>>>::slot(
            &ContextExtension::compose(ContextExtension::compose(base, a), b),
        ) == b,
        <ContextExtension<ContextExtension<C, Option<Authorization>>, XSpanIdString> as Has<Option<Authorization>>>::slot(
            &ContextExtension::compose(ContextExtension::compose(base, b), a),
        ) == b,
{
}

/// Whether the span identifier or the raw credentials is attached first, both
/// read back as attached.
pub proof fn lemma_span_id_and_auth_data_in_either_order<C>(base: C, a: XSpanIdString, b: AuthData)
    ensures
        <ContextExtension<ContextExtension<C, XSpanIdString>, AuthData> as Has<XSpanIdString>>::slot(
            &ContextExtension::compose(ContextExtension::compose(base, a), b),
        ) == a,
        <ContextExtension<ContextExtension<C, AuthData>, XSpanIdString> as Has<XSpanIdString>>::slot(
            &ContextExtension::compose(ContextExtension::compose(base, b), a),
        ) == a,
        <ContextExtension<ContextExtension<C, XSpanIdString>, AuthData> as Has<AuthData>>::slot(
            &ContextExtension::compose(ContextExtension::compose(base, a), b),
        ) == b,
        <ContextExtension<ContextExtension<C, AuthData>, XSpanIdString> as Has<AuthData>>::slot(
            &ContextExtension::compose(ContextExtension::compose(base, b), a),
        ) == b,
{
}

/// Whether the authorization result or the raw credentials is attached first, both
/// read back as attached.
pub proof fn lemma_authorization_and_auth_data_in_either_order<C>(base: C, a: Option<Authorization>, b: AuthData)
    ensures
        <ContextExtension<ContextExtension<C, Option<Authorization>>, AuthData> as Has<Option<Authorization>>>::slot(
            &ContextExtension::compose(ContextExtension::compose(base, a), b),
        ) == a,
        <ContextExtension<ContextExtension<C, AuthData>, Option<Authorization>> as Has<Option<Authorization>>>::slot(
            &ContextExtension::compose(ContextExtension::compose(base, b), a),
        ) == a,
        <ContextExtension<ContextExtension<C, Option<Authorization>>, AuthData> as Has<AuthData>>::slot(
            &ContextExtension::compose(ContextExtension::compose(base, a), b),
        ) == b,
        <ContextExtension<ContextExtension<C, AuthData>, Option<Authorization>> as Has<AuthData>>::slot(
            &ContextExtension::compose(ContextExtension::compose(base, b), a),
        ) == b,
{
}

/// Request context, as received by a server handler or as sent with a
/// client request. When services are chained, it carries data from the
/// incoming request to the outgoing ones.
#[derive(Clone, Debug)]
pub struct Context {
    /// Tracking identifier passed on to further services.
    pub x_span_id: XSpanIdString,
    /// Authorization, filled in by middleware.
    pub authorization: Option<Authorization>,
    /// Raw credentials, for making requests as a client.
    pub auth_data: Option<AuthData>,
}

impl Context {
    /// A context with the given fields.
    pub open spec fn assemble(
        x_span_id: XSpanIdString,
        authorization: Option<Authorization>,
        auth_data: Option<AuthData>,
    ) -> Context {
        Context { x_span_id, authorization, auth_data }
    }
}

impl Has<XSpanIdString> for Context {
    open spec fn slot(&self) -> XSpanIdString {
        self.x_span_id
    }

    open spec fn with_slot(&self, item: XSpanIdString) -> Self {
        Context::assemble(item, self.authorization, self.auth_data)
    }

    proof fn lemma_set_then_get(&self, item: XSpanIdString) {
    }

    fn set(&mut self, item: XSpanIdString) {
        self.x_span_id = item;
    }

    fn get(&self) -> (r: &XSpanIdString) {
        &self.x_span_id
    }

    fn get_mut(&mut self) -> (r: &mut XSpanIdString) {
        &mut self.x_span_id
    }
}

impl Default for Context {
    fn default() -> (r: Context)
        ensures
            r.x_span_id.0@ == Seq::<char>::empty(),
            r.authorization is None,
            r.auth_data is None,
    {
        Context {
            x_span_id: XSpanIdString::default(),
            authorization: None,
            auth_data: None,
        }
    }
}

/// `d` holds Basic credentials with the given user name and password.
pub open spec fn is_basic(d: Option<AuthData>, username: Seq<char>, password: Seq<char>) -> bool {
    match d {
        Some(AuthData::Basic(b)) => b.username@ == username && (match b.password {
            Some(p) => p@ == password,
            None => false,
        }),
        _ => false,
    }
}

/// `d` holds the given bearer token.
pub open spec fn is_bearer(d: Option<AuthData>, token: Seq<char>) -> bool {
    match d {
        Some(AuthData::Bearer(b)) => b.token@ == token,
        _ => false,
    }
}

/// `d` holds the given API key.
pub open spec fn is_apikey(d: Option<AuthData>, apikey: Seq<char>) -> bool {
    match d {
        Some(AuthData::ApiKey(k)) => k@ == apikey,
        _ => false,
    }
}

/// `b` is `a` with at most its credentials changed.
pub open spec fn same_but_credentials(a: Context, b: Context) -> bool {
    &&& b.x_span_id == a.x_span_id
    &&& b.authorization == a.authorization
}

impl Context {
    /// Creates an empty context.
    pub fn new() -> (r: Context)
        ensures
            r.x_span_id.0@ == Seq::<char>::empty(),
            r.authorization is None,
            r.auth_data is None,
    {
        Context::default()
    }

    /// Creates a context with the given span identifier and nothing else.
    pub fn new_with_span_id<S: Into<String>>(x_span_id: S) -> (r: Context)
        ensures
            S::obeys_into_spec() ==> r.x_span_id.0 == x_span_id.into_spec(),
            r.authorization is None,
            r.auth_data is None,
    {
        Context {
            x_span_id: XSpanIdString(x_span_id.into()),
            authorization: None,
            auth_data: None,
        }
    }

    /// Sets Basic credentials.
    pub fn auth_basic(&mut self, username: &str, password: &str)
        ensures
            is_basic(final(self).auth_data, username@, password@),
            same_but_credentials(*old(self), *final(self)),
    {
        self.auth_data = Some(
            AuthData::Basic(Basic { username: username.to_owned(), password: Some(password.to_owned()) }),
        );
    }

    /// Sets a bearer token.
    pub fn auth_bearer(&mut self, token: &str)
        ensures
            is_bearer(final(self).auth_data, token@),
            same_but_credentials(*old(self), *final(self)),
    {
        self.auth_data = Some(AuthData::Bearer(Bearer { token: token.to_owned() }));
    }

    /// Sets an API key.
    pub fn auth_apikey(&mut self, apikey: &str)
        ensures
            is_apikey(final(self).auth_data, apikey@),
            same_but_credentials(*old(self), *final(self)),
    {
        self.auth_data = Some(AuthData::ApiKey(apikey.to_owned()));
    }
}

/// An API bound to a context.
#[derive(Debug)]
pub struct ContextWrapper<'a, T: 'a, C> {
    api: &'a T,
    context: C,
}

impl<'a, T, C> ContextWrapper<'a, T, C> {
    /// The API that is bound.
    pub closed spec fn api_spec(&self) -> T {
        *self.api
    }

    /// The context that is bound.
    pub closed spec fn context_spec(&self) -> C {
        self.context
    }

    /// The wrapper that binds `api` to `context`.
    pub closed spec fn bind(api: &'a T, context: C) -> ContextWrapper<'a, T, C> {
        ContextWrapper { api, context }
    }

    /// Binds `api` to `context`.
    pub fn new(api: &'a T, context: C) -> (r: ContextWrapper<'a, T, C>)
        ensures
            r == Self::bind(api, context),
            r.api_spec() == *api,
            r.context_spec() == context,
    {
        ContextWrapper { api, context }
    }

    /// Borrows the API.
    pub fn api(&self) -> (r: &T)
        ensures
            *r == self.api_spec(),
    {
        self.api
    }

    /// Borrows the context.
    pub fn context(&self) -> (r: &C)
        ensures
            *r == self.context_spec(),
    {
        &self.context
    }
}

/// A wrapper gives back the context and the API that it was made with.
pub proof fn lemma_wrapper_pairing<'a, T, C>(api: &'a T, context: C)
    ensures
        ContextWrapper::<'a, T, C>::bind(api, context).context_spec() == context,
        ContextWrapper::<'a, T, C>::bind(api, context).api_spec() == *api,
{
}

/// Lets an API bind itself to a context.
pub trait ContextWrapperExt<'a, C>: Sized {
    /// Binds this API to a context.
    fn with_context(&'a self, context: C) -> (r: ContextWrapper<'a, Self, C>)
        ensures
            r == ContextWrapper::<'a, Self, C>::bind(self, context),
            r.api_spec() == *self,
            r.context_spec() == context,
    {
        ContextWrapper::<Self, C>::new(self, context)
    }
}

} // verus!
