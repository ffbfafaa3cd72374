//! The commands the interface hands to the network worker.

use vstd::prelude::*;

verus! {

/// An active subscription, as the worker reports it.
#[derive(Debug, Clone)]
pub struct Subscription {
    /// The worker's identifier of the subscription.
    pub id: usize,
    /// The key expression subscribed to.
    pub key_expr: String,
}

/// A request to the network worker.
#[derive(Debug)]
pub enum ZenohCommand {
    /// Open the sessions; empty locators ask for multicast discovery.
    Connect { locators: String, listen_port: String, mode: String, config_json: String },
    /// Close the sessions.
    Disconnect,
    /// Subscribe to a key expression.
    Subscribe { key_expr: String, reliability: String, mode: String },
    /// Drop a subscription.
    Unsubscribe { subscription_id: usize },
    /// Send a query and collect the replies.
    Query { selector: String, value: String, timeout_ms: u64 },
    /// Answer queries on a key expression from the local store.
    EnableQueryable { key_expr: String },
    /// Stop answering queries.
    DisableQueryable,
    /// Publish a payload under a key.
    Publish {
        key: String,
        payload: Vec<u8>,
        encoding: String,
        from_import: bool,
        filename: Option<String>,
    },
}

} // verus!
