//! Core logic of a fingerprint-scan API service: request authentication,
//! trusted-field configuration merging, retrying resource fetches over an
//! ordered list of candidate sources, refresh decisions for on-disk
//! fingerprint and plugin data, dual-mode result delivery, and the
//! reader/writer-guarded cluster state shared by concurrent scans.

use vstd::prelude::*;

pub mod api;
pub mod auth;
pub mod config;
pub mod cluster;
pub mod fetch;
pub mod helper;

verus! {

/// Ceiling on the size of a JSON request body accepted by the service;
/// larger bodies are rejected before parsing.
pub const JSON_BODY_LIMIT: usize = 40960;

/// Resource-exhaustion guard for inbound request bodies.
pub fn body_within_limit(len: usize) -> (ok: bool)
    ensures
        ok == (len <= JSON_BODY_LIMIT),
{
    len <= JSON_BODY_LIMIT
}

} // verus!
