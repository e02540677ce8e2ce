use remora_interceptor::multiplexer::{Source, SourceSet};

#[test]
fn loop_ends_only_when_all_sources_are_exhausted() {
    let mut sources = SourceSet::new();
    assert!(sources.is_awaited(Source::ResponseReceived));
    assert!(sources.is_awaited(Source::RequestPaused));
    assert!(sources.is_awaited(Source::RequestWillBeSent));
    assert!(!sources.is_complete());

    sources.close(Source::RequestPaused);
    assert!(!sources.is_awaited(Source::RequestPaused));
    assert!(sources.is_awaited(Source::ResponseReceived));
    assert!(sources.is_awaited(Source::RequestWillBeSent));
    assert!(!sources.is_complete());

    sources.close(Source::ResponseReceived);
    sources.close(Source::RequestPaused);
    assert!(!sources.is_complete());

    sources.close(Source::RequestWillBeSent);
    assert!(sources.is_complete());
}

#[test]
fn closing_a_source_twice_changes_nothing() {
    let mut sources = SourceSet::new();
    sources.close(Source::RequestWillBeSent);
    let once = sources;
    sources.close(Source::RequestWillBeSent);
    assert_eq!(sources, once);
    assert!(!sources.is_awaited(Source::RequestWillBeSent));
    assert!(!sources.is_complete());
}
