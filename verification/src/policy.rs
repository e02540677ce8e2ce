//! The decision policy: from the content of an event to an action.

use vstd::prelude::*;
use crate::event::{RequestWillBeSent, ResourceType};
use crate::resolution::InterceptAction;

verus! {

/// A request is a navigation when it is its own loader's request and asks for
/// a document: completing it would load a new top-level document.
pub open spec fn navigation(event: &RequestWillBeSent) -> bool {
    event.request_id@ == event.loader_id@ && event.resource_type == Some(ResourceType::Document)
}

/// The action that the observation of a request decides: navigations are
/// aborted, everything else is forwarded.
pub open spec fn observed_action(event: &RequestWillBeSent) -> InterceptAction {
    if navigation(event) {
        InterceptAction::Abort
    } else {
        InterceptAction::Forward
    }
}

/// Whether the observed request is a navigation.
pub fn is_navigation(event: &RequestWillBeSent) -> (navigates: bool)
    ensures
        navigates == navigation(event),
{
    let document = match event.resource_type {
        Some(ResourceType::Document) => true,
        _ => false,
    };
    event.request_id == event.loader_id && document
}

/// Classifies an observed request.
pub fn classify(event: &RequestWillBeSent) -> (action: InterceptAction)
    ensures
        action == observed_action(event),
        action == InterceptAction::Abort || action == InterceptAction::Forward,
{
    if is_navigation(event) {
        InterceptAction::Abort
    } else {
        InterceptAction::Forward
    }
}

} // verus!
