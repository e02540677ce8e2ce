use remora_interceptor::session::{
    session_info_from, LaunchError, RemoraInterceptor, RemoraStorage, SessionInfo,
};

fn interceptor(uri: &str) -> RemoraInterceptor {
    RemoraInterceptor::new().session_name("demo").storage(RemoraStorage::new(uri)).build()
}

fn demo(path: &str) -> Result<SessionInfo, LaunchError> {
    Ok(SessionInfo { name: "demo".to_string(), path: path.to_string() })
}

#[test]
fn builder_assembles_the_interceptor() {
    let interceptor = interceptor("sqlite:///var/lib/remora/demo.db");
    assert_eq!(interceptor.session_name(), "demo");
    assert_eq!(interceptor.storage().uri(), "sqlite:///var/lib/remora/demo.db");
    assert_eq!(interceptor.storage(), &RemoraStorage::new("sqlite:///var/lib/remora/demo.db"));
}

#[test]
fn session_info_takes_the_path_of_the_storage_uri() {
    let info = |uri: &str| interceptor(uri).session_info();
    assert_eq!(info("https://example.com/api/versions?page=2"), demo("/api/versions"));
    assert_eq!(info("https://example.com"), demo("/"));
    assert_eq!(info("sqlite:///var/lib/remora/demo.db?mode=rwc"), demo("/var/lib/remora/demo.db"));
}

#[test]
fn session_info_rejects_what_is_no_absolute_url() {
    let interceptor = interceptor("var/lib/remora/demo.db");
    assert_eq!(
        interceptor.session_info(),
        Err(LaunchError::StorageUri(url::ParseError::RelativeUrlWithoutBase))
    );
    assert!(interceptor.launch().is_err());
}

#[test]
fn session_info_from_a_parsed_path() {
    assert_eq!(session_info_from("demo", Ok("/data".to_string())), demo("/data"));
    assert_eq!(
        session_info_from("demo", Err(url::ParseError::EmptyHost)),
        Err(LaunchError::StorageUri(url::ParseError::EmptyHost))
    );
}

#[test]
fn launch_prepares_metadata_and_an_empty_driver() {
    let launch = match interceptor("https://example.com/countries/việt nam").launch() {
        Ok(launch) => launch,
        Err(error) => panic!("launch failed: {:?}", error),
    };
    assert_eq!(launch.session_info.name, "demo");
    assert_eq!(launch.session_info.path, "/countries/vi%E1%BB%87t%20nam");
    assert_eq!(launch.driver.event_counter(), 0);
    assert_eq!(launch.driver.pending_requests(), 0);
    assert_eq!(launch.driver.config().target(), "http://google.com/");
    assert_eq!(launch.driver.config().max_string_size(), 100);
}
