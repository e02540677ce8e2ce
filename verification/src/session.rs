//! Session bootstrap: the interceptor's context, assembled step by step, and
//! what launching it prepares.

use vstd::prelude::*;
use vstd::string::StringExecFns;
use crate::config::{ConfigView, InterceptorConfig};
use crate::driver::{DriverView, ResolutionDriver};
use crate::resolution::ResolutionView;
use crate::uri::{parse_url_path, url_path};

verus! {

/// Where the session's data is kept.
#[derive(Debug, PartialEq, Eq)]
pub struct RemoraStorage {
    uri: String,
}

impl View for RemoraStorage {
    type V = Seq<char>;

    closed spec fn view(&self) -> Seq<char> {
        self.uri@
    }
}

impl RemoraStorage {
    /// The storage at `uri`.
    pub fn new(uri: &str) -> (storage: Self)
        ensures
            storage@ == uri@,
    {
        RemoraStorage { uri: String::from_str(uri) }
    }

    /// The location of the storage.
    pub fn uri(&self) -> (uri: &str)
        ensures
            uri@ == self@,
    {
        self.uri.as_str()
    }
}

/// The metadata recorded for a session.
#[derive(Debug, PartialEq, Eq)]
pub struct SessionInfo {
    /// The name of the session.
    pub name: String,
    /// The path component of the storage location.
    pub path: String,
}

/// Why a session could not be launched.
#[derive(Debug, PartialEq, Eq)]
pub enum LaunchError {
    /// The storage location is no absolute URL.
    StorageUri(url::ParseError),
}

/// What a launch prepares: the metadata to record, and the driver of the
/// interception loop in its initial state.
pub struct Launch {
    pub session_info: SessionInfo,
    pub driver: ResolutionDriver,
}

/// The mathematical content of a [`RemoraInterceptor`] and of its builders;
/// a builder has empty text where a later step fills it in.
pub struct InterceptorView {
    /// The number of responses counted so far.
    pub state: u64,
    pub session_name: Seq<char>,
    pub storage: Seq<char>,
}

/// The context of one interception session.
pub struct RemoraInterceptor {
    state: u64,
    session_name: String,
    storage: RemoraStorage,
}

/// The first step of assembling a [`RemoraInterceptor`]: nothing is set.
pub struct RemoraInterceptorBuilderWithS {
    state: u64,
}

/// The second step: the session name is set.
pub struct RemoraInterceptorBuilderWithSS {
    state: u64,
    session_name: String,
}

/// The last step: the session name and the storage are set.
pub struct RemoraInterceptorBuilderWithSSD {
    state: u64,
    session_name: String,
    storage: RemoraStorage,
}

impl View for RemoraInterceptorBuilderWithS {
    type V = InterceptorView;

    closed spec fn view(&self) -> InterceptorView {
        InterceptorView { state: self.state, session_name: Seq::empty(), storage: Seq::empty() }
    }
}

impl View for RemoraInterceptorBuilderWithSS {
    type V = InterceptorView;

    closed spec fn view(&self) -> InterceptorView {
        InterceptorView {
            state: self.state,
            session_name: self.session_name@,
            storage: Seq::empty(),
        }
    }
}

impl View for RemoraInterceptorBuilderWithSSD {
    type V = InterceptorView;

    closed spec fn view(&self) -> InterceptorView {
        InterceptorView {
            state: self.state,
            session_name: self.session_name@,
            storage: self.storage@,
        }
    }
}

impl View for RemoraInterceptor {
    type V = InterceptorView;

    closed spec fn view(&self) -> InterceptorView {
        InterceptorView {
            state: self.state,
            session_name: self.session_name@,
            storage: self.storage@,
        }
    }
}

impl RemoraInterceptorBuilderWithS {
    /// Sets the name of the session.
    pub fn session_name(self, session_name: &str) -> (builder: RemoraInterceptorBuilderWithSS)
        ensures
            builder@ == (InterceptorView { session_name: session_name@, ..self@ }),
    {
        let Self { state } = self;
        RemoraInterceptorBuilderWithSS { state, session_name: String::from_str(session_name) }
    }
}

impl RemoraInterceptorBuilderWithSS {
    /// Sets the storage of the session.
    pub fn storage(self, storage: RemoraStorage) -> (builder: RemoraInterceptorBuilderWithSSD)
        ensures
            builder@ == (InterceptorView { storage: storage@, ..self@ }),
    {
        let Self { state, session_name } = self;
        RemoraInterceptorBuilderWithSSD { state, session_name, storage }
    }
}

impl RemoraInterceptorBuilderWithSSD {
    /// Completes the interceptor.
    pub fn build(self) -> (interceptor: RemoraInterceptor)
        ensures
            interceptor@ == self@,
    {
        let Self { state, session_name, storage } = self;
        RemoraInterceptor { state, session_name, storage }
    }
}

/// The metadata of the session `name` whose storage location parsed to
/// `parsed`.
pub fn session_info_from(name: &str, parsed: Result<String, url::ParseError>) -> (info: Result<
    SessionInfo,
    LaunchError,
>)
    ensures
        match (parsed, info) {
            (Ok(path), Ok(session)) => session.name@ == name@ && session.path@ == path@,
            (Err(error), Err(LaunchError::StorageUri(cause))) => cause == error,
            _ => false,
        },
{
    match parsed {
        Ok(path) => Ok(SessionInfo { name: String::from_str(name), path }),
        Err(error) => Err(LaunchError::StorageUri(error)),
    }
}

impl RemoraInterceptor {
    /// Starts assembling an interceptor that has counted no response yet.
    pub fn new() -> (builder: RemoraInterceptorBuilderWithS)
        ensures
            builder@ == (InterceptorView {
                state: 0,
                session_name: Seq::empty(),
                storage: Seq::empty(),
            }),
    {
        RemoraInterceptorBuilderWithS { state: 0 }
    }

    /// The name of the session.
    pub fn session_name(&self) -> (name: &str)
        ensures
            name@ == self@.session_name,
    {
        self.session_name.as_str()
    }

    /// The storage of the session.
    pub fn storage(&self) -> (storage: &RemoraStorage)
        ensures
            storage@ == self@.storage,
    {
        &self.storage
    }

    /// The metadata of the session: its name, and the path component of its
    /// storage location. Fails exactly when the location is no absolute URL.
    pub fn session_info(&self) -> (info: Result<SessionInfo, LaunchError>)
        ensures
            match info {
                Ok(session) => {
                    &&& session.name@ == self@.session_name
                    &&& url_path(self@.storage) == Some(session.path@)
                },
                Err(_) => url_path(self@.storage) is None,
            },
    {
        session_info_from(self.session_name(), parse_url_path(self.storage().uri()))
    }

    /// Prepares the launch of the session: derives the metadata to record and
    /// sets up the driver of the interception loop, with the built-in
    /// configuration, an empty store and the responses counted so far. Fails
    /// exactly when the storage location is no absolute URL.
    pub fn launch(self) -> (launched: Result<Launch, LaunchError>)
        ensures
            match launched {
                Ok(launch) => {
                    &&& launch.session_info.name@ == self@.session_name
                    &&& url_path(self@.storage) == Some(launch.session_info.path@)
                    &&& launch.driver@ == (DriverView {
                        config: ConfigView::standard(),
                        store: Map::<Seq<char>, ResolutionView>::empty(),
                        event_counter: self@.state,
                    })
                },
                Err(_) => url_path(self@.storage) is None,
            },
    {
        match self.session_info() {
            Ok(session_info) => Ok(
                Launch {
                    session_info,
                    driver: ResolutionDriver::new(InterceptorConfig::default(), self.state),
                },
            ),
            Err(error) => Err(error),
        }
    }
}

} // verus!
