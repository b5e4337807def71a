use vstd::prelude::*;

use crate::http_status::{is_server_error, server_error_spec};

verus! {

/// The verbosity of a span or event.
#[derive(Clone, Copy, PartialEq, Eq, Structural, Debug)]
pub enum Level {
    Trace,
    Debug,
    Info,
    Warn,
    Error,
}

/// Creates the span of each request, at a chosen level.
#[derive(Clone, Copy, Debug)]
pub struct AxumOtelSpanCreator {
    level: Level,
}

impl AxumOtelSpanCreator {
    pub closed spec fn configured_level(&self) -> Level {
        self.level
    }

    pub fn new() -> (r: Self)
        ensures
            r.configured_level() == Level::Trace,
    {
        AxumOtelSpanCreator { level: Level::Trace }
    }

    pub fn level(self, level: Level) -> (r: Self)
        ensures
            r.configured_level() == level,
    {
        AxumOtelSpanCreator { level }
    }

    pub fn span_level(&self) -> (r: Level)
        ensures
            r == self.configured_level(),
    {
        self.level
    }
}

impl Default for AxumOtelSpanCreator {
    fn default() -> (r: Self)
        ensures
            r.configured_level() == Level::Trace,
    {
        AxumOtelSpanCreator::new()
    }
}

/// Records failed responses, at a chosen level.
#[derive(Clone, Copy, Debug)]
pub struct AxumOtelOnFailure {
    level: Level,
}

impl AxumOtelOnFailure {
    pub closed spec fn configured_level(&self) -> Level {
        self.level
    }

    pub fn new() -> (r: Self)
        ensures
            r.configured_level() == Level::Error,
    {
        AxumOtelOnFailure::default()
    }

    pub fn level(self, level: Level) -> (r: Self)
        ensures
            r.configured_level() == level,
    {
        AxumOtelOnFailure { level }
    }

    pub fn event_level(&self) -> (r: Level)
        ensures
            r == self.configured_level(),
    {
        self.level
    }
}

impl Default for AxumOtelOnFailure {
    fn default() -> (r: Self)
        ensures
            r.configured_level() == Level::Error,
    {
        AxumOtelOnFailure { level: Level::Error }
    }
}

/// Records finished responses, at a chosen level.
#[derive(Clone, Copy, Debug)]
pub struct AxumOtelOnResponse {
    level: Level,
}

impl AxumOtelOnResponse {
    pub closed spec fn configured_level(&self) -> Level {
        self.level
    }

    pub fn new() -> (r: Self)
        ensures
            r.configured_level() == Level::Debug,
    {
        AxumOtelOnResponse::default()
    }

    pub fn level(self, level: Level) -> (r: Self)
        ensures
            r.configured_level() == level,
    {
        AxumOtelOnResponse { level }
    }

    pub fn event_level(&self) -> (r: Level)
        ensures
            r == self.configured_level(),
    {
        self.level
    }
}

impl Default for AxumOtelOnResponse {
    fn default() -> (r: Self)
        ensures
            r.configured_level() == Level::Debug,
    {
        AxumOtelOnResponse { level: Level::Debug }
    }
}

/// The name of a request span: the method, followed by the matched route
/// when there is one.
pub open spec fn span_name_spec(method: Seq<char>, route: Option<Seq<char>>) -> Seq<char> {
    match route {
        Some(r) => method + " "@ + r,
        None => method,
    }
}

pub fn span_name(method: &str, route: Option<&str>) -> (r: String)
    ensures
        r@ == span_name_spec(
            method@,
            match route {
                Some(x) => Some(x@),
                None => None,
            },
        ),
{
    let mut name = String::from_str(method);
    match route {
        Some(x) => {
            name.append(" ");
            name.append(x);
        },
        None => {},
    }
    name
}

/// Why a response counted as failed.
#[derive(Debug)]
pub enum FailureClass {
    /// The response had this status.
    StatusCode(u16),
    /// The service failed with this message.
    Error(String),
}

/// Whether a failure marks the span's OpenTelemetry status as `ERROR`:
/// exactly the failures that are 5xx responses.
pub fn marks_span_error(class: &FailureClass) -> (r: bool)
    ensures
        r == (*class matches FailureClass::StatusCode(s) && server_error_spec(s)),
{
    match class {
        FailureClass::StatusCode(s) => is_server_error(*s),
        FailureClass::Error(_) => false,
    }
}

/// The route that a finished-response event names: the matched route, or
/// `unknown`.
pub fn response_route(route: Option<String>) -> (r: String)
    ensures
        match route {
            Some(x) => r@ == x@,
            None => r@ == "unknown"@,
        },
{
    match route {
        Some(x) => x,
        None => String::from_str("unknown"),
    }
}

} // verus!
