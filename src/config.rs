use vstd::prelude::*;

verus! {

/// Where the HTTP listener binds.
#[derive(Debug, Clone, PartialEq, Eq)]
pub struct ServerConfig {
    pub host: String,
    pub port: u16,
}

} // verus!
