//! What the wallets are configured with.

use vstd::prelude::*;

verus! {

/// A node outside this program that wallets can connect to.
pub struct ExternalConnection {
    /// The identifier of the connection.
    pub id: i64,
    /// The URL of the node.
    pub url: String,
    /// The secret of the node's API, if it asks for one.
    pub secret: Option<String>,
}

impl ExternalConnection {
    /// A connection to the node at `url`.
    pub fn new(id: i64, url: String, secret: Option<String>) -> (conn: ExternalConnection)
        ensures
            conn == (ExternalConnection { id, url, secret }),
    {
        ExternalConnection { id, url, secret }
    }
}

} // verus!
