//! Resolve a URL that points at an issue, pull/merge request, or bug report
//! on one of several supported forges or bug trackers into a normalized
//! summary: a title and a lifecycle state.
//!
//! The crate holds the pure logic of that resolution: mapping a domain to a
//! backend, matching the URL path against the backend's template, building
//! the outbound API endpoint, and normalizing the response body. Issuing the
//! HTTP request itself is left to the caller.
use vstd::prelude::*;

pub mod encode;
pub mod endpoints;
pub mod hosts;
pub mod jsonval;
pub mod matcher;
pub mod normalize;
pub mod resolve;
pub mod strutil;

pub use hosts::Host;
pub use resolve::{plan_request, normalize_response, ApiRequest};

verus! {

/// The normalized summary of an issue, pull/merge request, or bug report.
#[derive(Debug, PartialEq, Eq)]
pub struct Info {
    pub title: String,
    pub state: State,
}

/// The canonical lifecycle state of an issue or pull/merge request.
#[derive(Debug, PartialEq, Eq, Structural, Clone, Copy)]
pub enum State {
    Open,
    Closed,
    Merged,
    Draft,
}

impl State {
    pub fn is_open(&self) -> (r: bool)
        ensures
            r == (*self matches State::Open),
    {
        matches!(self, Self::Open)
    }

    pub fn as_str(&self) -> (r: &str)
        ensures
            *self matches State::Open ==> r@ == "open"@,
            *self matches State::Closed ==> r@ == "closed"@,
            *self matches State::Merged ==> r@ == "merged"@,
            *self matches State::Draft ==> r@ == "draft"@,
    {
        match self {
            Self::Open => "open",
            Self::Closed => "closed",
            Self::Merged => "merged",
            Self::Draft => "draft",
        }
    }
}

/// Everything that can go wrong while resolving one URL.
#[derive(Debug)]
pub enum Error {
    /// The URL has no extractable domain.
    InvalidURL,
    /// The domain is not in the supported set.
    UnknownHost(String),
    /// The path or query did not fit the template, or the response body
    /// lacked an expected field.
    FailedMatch,
    /// The response carried a state value outside the known literals.
    UnknownState(String),
    /// The underlying HTTP or network request failed.
    Transport(String),
    /// A bug tracker answered a single-bug request with no bugs at all.
    Unreachable,
}

} // verus!
