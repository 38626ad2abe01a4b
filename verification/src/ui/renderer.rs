//! The host side of the native renderer contract.
//!
//! Renderers consume confirmed state and turn user intent into
//! [`AppAction`] values; they never mutate audio, configuration or hotkey
//! registration themselves. A [`HostHandle`] is the one way an action
//! reaches the host: it hands every action, unchanged, to the host's
//! handler, and every clone of a handle targets the same handler.

use vstd::prelude::*;
use crate::ui::model::AppAction;

verus! {

/// Thread-safe handle to the application host.
///
/// The host's handler is shared behind an `Arc`, so clones are cheap and
/// deliver to the same handler.
pub struct HostHandle<F> {
    inner: std::sync::Arc<F>,
}

impl<F: Fn(AppAction) + Send + Sync + 'static> HostHandle<F> {
    /// The host-side handler this handle delivers to.
    pub closed spec fn handler(&self) -> F {
        *self.inner
    }

    /// Wrap a host-side action handler.
    pub fn new(handler: F) -> (r: Self)
        ensures
            r.handler() == handler,
    {
        HostHandle { inner: std::sync::Arc::new(handler) }
    }

    /// Hand an action to the host. The handler receives exactly `action`:
    /// a handle never clamps or rewrites what the renderer asked for.
    pub fn enqueue(&self, action: AppAction)
        requires
            call_requires(self.handler(), (action,)),
        ensures
            call_ensures(self.handler(), (action,), ()),
    {
        let handler: &F = &*self.inner;
        handler(action)
    }
}

/// Calls `Arc::clone`, which makes another pointer to the same allocation:
/// the new pointer holds the very value the cloned one points to.
#[verifier::external_body]
fn share<F>(handler: &std::sync::Arc<F>) -> (r: std::sync::Arc<F>)
    ensures
        r == *handler,
{
    std::sync::Arc::clone(handler)
}

impl<F: Fn(AppAction) + Send + Sync + 'static> Clone for HostHandle<F> {
    /// Another handle to the same handler.
    fn clone(&self) -> (r: Self)
        ensures
            r.handler() == self.handler(),
    {
        HostHandle { inner: share(&self.inner) }
    }
}

} // verus!
