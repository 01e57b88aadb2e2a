//! The client-side view of the directory, relay and compliance services.
//!
//! The library holds which services a client is connected to; the transport
//! itself lives with the application.
use vstd::prelude::*;

verus! {

/// A connection to the directory service.
pub struct DirectoryClient {}

/// A connection to the relay service.
pub struct RelayClient {}

/// A connection to the compliance service.
pub struct ComplianceClient {}

/// The services a client is connected to.
pub struct NetworkClient {
    pub directory_client: Option<DirectoryClient>,
    pub relay_client: Option<RelayClient>,
    pub compliance_client: Option<ComplianceClient>,
}

impl NetworkClient {
    /// A client connected to no service yet.
    pub fn new() -> (r: Self)
        ensures
            r.directory_client is None,
            r.relay_client is None,
            r.compliance_client is None,
    {
        NetworkClient { directory_client: None, relay_client: None, compliance_client: None }
    }
}

} // verus!
