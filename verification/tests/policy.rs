use remora_interceptor::event::{RequestWillBeSent, ResourceType};
use remora_interceptor::policy::{classify, is_navigation};
use remora_interceptor::resolution::{InterceptAction, InterceptResolution};

fn observed(key: &str, loader: &str, kind: Option<ResourceType>) -> RequestWillBeSent {
    RequestWillBeSent {
        request_id: key.to_string(),
        loader_id: loader.to_string(),
        resource_type: kind,
    }
}

#[test]
fn new_resolution_is_pending_without_handle() {
    let resolution = InterceptResolution::new();
    assert_eq!(resolution.action, InterceptAction::Pending);
    assert_eq!(resolution.request_id, None);
    assert!(!resolution.is_dispatch_ready());
}

#[test]
fn dispatch_readiness_needs_action_and_handle() {
    let handle = Some("H".to_string());
    let ready = |action, request_id| InterceptResolution { action, request_id }.is_dispatch_ready();
    assert!(ready(InterceptAction::Forward, handle.clone()));
    assert!(ready(InterceptAction::Abort, handle.clone()));
    assert!(ready(InterceptAction::Fulfill, handle.clone()));
    assert!(!ready(InterceptAction::Pending, handle));
    assert!(!ready(InterceptAction::Forward, None));
    assert!(!ready(InterceptAction::Abort, None));
    assert!(!ready(InterceptAction::Fulfill, None));
    assert!(!ready(InterceptAction::Pending, None));
}

#[test]
fn resolution_clone_keeps_both_fields() {
    let resolution =
        InterceptResolution { action: InterceptAction::Abort, request_id: Some("H".to_string()) };
    assert_eq!(resolution.clone(), resolution);
    let fresh = InterceptResolution::new();
    assert_eq!(fresh.clone(), fresh);
}

#[test]
fn navigation_needs_matching_ids_and_a_document() {
    assert!(is_navigation(&observed("R", "R", Some(ResourceType::Document))));
    assert!(!is_navigation(&observed("R", "L", Some(ResourceType::Document))));
    assert!(!is_navigation(&observed("R", "R", Some(ResourceType::Script))));
    assert!(!is_navigation(&observed("R", "R", None)));
    assert!(!is_navigation(&observed("R", "", Some(ResourceType::Document))));
    assert!(is_navigation(&observed("", "", Some(ResourceType::Document))));
}

#[test]
fn classification_aborts_navigations_and_forwards_the_rest() {
    let action = |key, loader, kind| classify(&observed(key, loader, kind));
    assert_eq!(action("R", "R", Some(ResourceType::Document)), InterceptAction::Abort);
    assert_eq!(action("R", "L", Some(ResourceType::Document)), InterceptAction::Forward);
    assert_eq!(action("R", "R", Some(ResourceType::Stylesheet)), InterceptAction::Forward);
    assert_eq!(action("R", "R", Some(ResourceType::Other)), InterceptAction::Forward);
    assert_eq!(action("R", "R", None), InterceptAction::Forward);
    assert_eq!(action("R", "L", None), InterceptAction::Forward);
}
