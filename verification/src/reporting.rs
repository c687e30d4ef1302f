//! Tags and filters for what is sent to the error reporter.
use vstd::prelude::*;
use crate::error::WebError;
use crate::text::{contains, str_contains};

verus! {

/// Identifies which `WebError` arm triggered an error report.
#[derive(Debug, Clone, Copy, PartialEq, Eq, Structural)]
pub enum ErrorSource {
    Database,
    Template,
    External,
}

/// The `source` tag value of a report from `source`.
pub open spec fn tag_of(source: ErrorSource) -> Seq<char> {
    match source {
        ErrorSource::Database => "database"@,
        ErrorSource::Template => "template"@,
        ErrorSource::External => "external"@,
    }
}

impl ErrorSource {
    /// The `source` tag value attached to a captured report.
    pub fn as_tag(&self) -> (tag: &'static str)
        ensures
            tag@ == tag_of(*self),
    {
        match self {
            ErrorSource::Database => "database",
            ErrorSource::Template => "template",
            ErrorSource::External => "external",
        }
    }
}

/// Which request errors go to the error reporter, and under which tag:
/// database and template failures are reported; a missing page, an
/// upstream failure and an exhausted rate limit are only logged.
pub open spec fn reported_source(e: WebError) -> Option<ErrorSource> {
    match e {
        WebError::Database(_) => Some(ErrorSource::Database),
        WebError::Template(_) => Some(ErrorSource::Template),
        WebError::NotFound => None,
        WebError::External(_) => None,
        WebError::TooManyRequests { .. } => None,
    }
}

/// The tag a request error is reported under, or `None` when it is not
/// reported at all.
pub fn report_source(e: &WebError) -> (r: Option<ErrorSource>)
    ensures
        r == reported_source(*e),
{
    match e {
        WebError::Database(_) => Some(ErrorSource::Database),
        WebError::Template(_) => Some(ErrorSource::Template),
        WebError::NotFound => None,
        WebError::External(_) => None,
        WebError::TooManyRequests { .. } => None,
    }
}

/// A panic message that comes from writing to a closed pipe.
pub open spec fn is_broken_pipe_text(msg: Seq<char>) -> bool {
    contains(msg, "Broken pipe"@) || contains(msg, "os error 32"@)
}

/// Whether a panic with message `msg` was caused by a broken pipe on
/// stderr/stdout; such panics are never reported. A panic without a text
/// message is not one.
pub fn is_broken_pipe(msg: Option<&str>) -> (b: bool)
    ensures
        b == (msg matches Some(m) && is_broken_pipe_text(m@)),
{
    match msg {
        Some(m) => str_contains(m, "Broken pipe") || str_contains(m, "os error 32"),
        None => false,
    }
}

} // verus!
