//! The terminal multiplexer client. Running its commands is left to the
//! program around the library; reading their output is done here.
use vstd::prelude::*;
use crate::text::{contains_field, has_field};

verus! {

/// Names the multiplexer that holds the supervised pane.
#[derive(Debug, Clone, Copy)]
pub struct TmuxClient;

impl TmuxClient {
    pub fn new() -> (r: TmuxClient) {
        TmuxClient
    }

    /// Whether a listing of all panes names `pane` as one of its
    /// whitespace-separated fields; `%1` is not listed by a line naming `%18`.
    pub fn lists_pane(&self, listing: &str, pane: &str) -> (r: bool)
        ensures
            r == has_field(listing@, pane@),
    {
        contains_field(listing, pane)
    }
}

} // verus!
