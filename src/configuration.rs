use vstd::prelude::*;

verus! {

/// Where the HTTP server listens.
pub struct ApplicationSettings {
    pub port: u16,
    pub host: String,
}

/// The public base URL under which confirmation links are served.
pub struct ApplicationBaseUrl(pub String);

} // verus!
