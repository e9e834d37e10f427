//! Typed, composable request contexts and the collection of streamed
//! request bodies.

pub mod auth;
pub mod body;
pub mod context;

pub use auth::{AuthData, Authorization, Basic, Bearer, Scopes};
pub use context::{
    Context, ContextExtension, ContextWrapper, ContextWrapperExt, ExtendsWith, Has,
    XSpanIdString,
};
