//! The HTTP relay for bearer-token providers: it builds the final request
//! and injects the `Authorization` header at the last possible moment,
//! with strict TLS validation and no interception of traffic.
use vstd::prelude::*;

verus! {

/// The HTTP relay.
#[derive(Default)]
pub struct HttpRelay;

impl HttpRelay {
    pub fn new() -> (r: Self) {
        HttpRelay
    }
}

} // verus!
