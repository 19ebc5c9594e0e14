//! A handle on one running compositor instance, which owns at most one event
//! listener task at a time.
use vstd::prelude::*;

verus! {

/// `tokio::task::AbortHandle`, the permission to abort a spawned listener
/// task; held and handed back as it is.
#[verifier::external_type_specification]
#[verifier::external_body]
pub struct ExAbortHandle(tokio::task::AbortHandle);

/// Relies on `tokio::task::AbortHandle::abort`: asks the task to stop at its
/// next suspension point; nothing is promised of when it has stopped.
pub assume_specification[ tokio::task::AbortHandle::abort ](h: &tokio::task::AbortHandle);

/// Relies on `tokio::task::AbortHandle::is_finished`: whether the task has
/// completed, which depends on the scheduler and so is left open.
pub assume_specification[ tokio::task::AbortHandle::is_finished ](
    h: &tokio::task::AbortHandle,
) -> bool;

/// A connection to one compositor instance. It may own one event listener
/// task; starting another stops the one before. Dropping the connection does
/// not stop its task: call `stop_listening` first.
#[derive(Debug)]
pub struct HyprlandConnection {
    instance: String,
    event_handle: Option<tokio::task::AbortHandle>,
}

impl HyprlandConnection {
    /// The instance this connection talks to.
    pub closed spec fn instance_name(&self) -> Seq<char> {
        self.instance@
    }

    /// The listener task this connection owns, if any.
    pub closed spec fn listener(&self) -> Option<tokio::task::AbortHandle> {
        self.event_handle
    }

    /// A connection to `instance`, with no listener. The instance is not checked.
    pub fn new(instance: String) -> (r: Self)
        ensures
            r.instance_name() == instance@,
            r.listener() is None,
    {
        HyprlandConnection { instance, event_handle: None }
    }

    pub fn instance(&self) -> (r: &str)
        ensures
            r@ == self.instance_name(),
    {
        self.instance.as_str()
    }

    /// Whether a listener task is owned and has not yet finished.
    pub fn is_listening_to_events(&self) -> (r: bool)
        ensures
            self.listener() is None ==> !r,
    {
        match &self.event_handle {
            Some(h) => !h.is_finished(),
            None => false,
        }
    }

    /// Aborts the listener task, if there is one, and lets go of it; its
    /// channel closes once the task has stopped. Without a listener this does
    /// nothing.
    pub fn stop_listening(&mut self)
        ensures
            final(self).listener() is None,
            final(self).instance_name() == old(self).instance_name(),
    {
        if let Some(h) = &self.event_handle {
            h.abort();
        }
        self.event_handle = None;
    }

    /// Makes `handle` the one listener task of this connection. The task held
    /// before, if any, is aborted first and handed back, so that the caller
    /// can see it finish.
    pub fn attach_listener(&mut self, handle: tokio::task::AbortHandle) -> (previous: Option<
        tokio::task::AbortHandle,
    >)
        ensures
            previous == old(self).listener(),
            final(self).listener() == Some(handle),
            final(self).instance_name() == old(self).instance_name(),
    {
        let previous = self.event_handle.take();
        if let Some(h) = &previous {
            h.abort();
        }
        self.event_handle = Some(handle);
        previous
    }
}

} // verus!
