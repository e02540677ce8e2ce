//! The per-request resolution state that the correlation store holds.

use vstd::prelude::*;

verus! {

/// What is to be done with an intercepted request.
#[derive(Clone, Copy, Debug, PartialEq, Eq, Structural)]
pub enum InterceptAction {
    /// Let the request proceed untouched.
    Forward,
    /// Fail the request with a network error.
    Abort,
    /// Answer the request with synthetic content.
    Fulfill,
    /// No decision yet. This is the initial state and is never dispatched.
    Pending,
}

/// The decision state of one logical request.
#[derive(Debug, PartialEq, Eq)]
pub struct InterceptResolution {
    /// The action decided so far.
    pub action: InterceptAction,
    /// The handle of the paused request, known once its pause event was seen.
    pub request_id: Option<String>,
}

/// The mathematical content of an [`InterceptResolution`].
pub struct ResolutionView {
    pub action: InterceptAction,
    pub request_id: Option<Seq<char>>,
}

impl ResolutionView {
    /// The state of a request of which nothing is known yet.
    pub open spec fn pending() -> ResolutionView {
        ResolutionView { action: InterceptAction::Pending, request_id: None }
    }

    /// A resolution can be dispatched exactly when both its action and the
    /// handle of the paused request are known.
    pub open spec fn dispatch_ready(self) -> bool {
        self.action != InterceptAction::Pending && self.request_id is Some
    }
}

impl View for InterceptResolution {
    type V = ResolutionView;

    open spec fn view(&self) -> ResolutionView {
        ResolutionView {
            action: self.action,
            request_id: match self.request_id {
                Some(id) => Some(id@),
                None => None,
            },
        }
    }
}

impl Clone for InterceptResolution {
    fn clone(&self) -> (copy: Self)
        ensures
            copy@ == self@,
    {
        let request_id = match &self.request_id {
            Some(id) => Some(id.clone()),
            None => None,
        };
        InterceptResolution { action: self.action, request_id }
    }
}

impl InterceptResolution {
    /// A fresh resolution: no decision and no handle.
    pub fn new() -> (resolution: Self)
        ensures
            resolution@ == ResolutionView::pending(),
    {
        Self { action: InterceptAction::Pending, request_id: None }
    }

    /// Whether both the action and the handle are known.
    pub fn is_dispatch_ready(&self) -> (ready: bool)
        ensures
            ready == self@.dispatch_ready(),
    {
        match self.action {
            InterceptAction::Pending => false,
            _ => self.request_id.is_some(),
        }
    }
}

} // verus!
