//! What the server knows of itself, fixed at startup.

use vstd::prelude::*;
use crate::text::{decimal, decimal_string, join};

verus! {

/// Where the server runs and where its web client lives.
#[derive(Clone)]
pub struct AppContext {
    /// Host name under which the server is reached; session cookies are
    /// scoped to it.
    pub domain: String,
    pub port: u16,
    /// Address of the web client, to which sign-in and sign-out lead back.
    pub client_url: String,
    /// Seconds after which a request is given up.
    pub cookie_timeout_secs: u64,
}

/// The address of a server at `domain` and `port`.
pub open spec fn server_url(domain: Seq<char>, port: int) -> Seq<char> {
    "http://"@ + domain + ":"@ + decimal(port as nat)
}

impl AppContext {
    /// The address under which the server is reached.
    pub fn get_server_url(&self) -> (url: String)
        ensures
            url@ == server_url(self.domain@, self.port as int),
    {
        let port = decimal_string(self.port as u64);
        let a = join("http://", self.domain.as_str());
        let b = join(a.as_str(), ":");
        join(b.as_str(), port.as_str())
    }
}

} // verus!
