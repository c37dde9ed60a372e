//! What the API says of an account, and how it reports errors.
use vstd::prelude::*;

verus! {

/// A device registration, as the API returns it.
#[derive(Debug, Clone)]
pub struct AccountData {
    pub id: String,
    pub token: String,
    pub account: Account,
    pub config: WarpConfig,
}

/// The account that a device belongs to.
#[derive(Debug, Clone)]
pub struct Account {
    pub id: String,
    pub license: Option<String>,
}

/// The tunnel configuration that the API assigns to a device.
#[derive(Debug, Clone)]
pub struct WarpConfig {
    pub peers: Vec<Peer>,
    pub interface: Interface,
}

/// A tunnel endpoint with its public key.
#[derive(Debug, Clone)]
pub struct Peer {
    pub public_key: String,
    pub endpoint: Endpoint,
}

/// The addresses under which an endpoint is reached.
#[derive(Debug, Clone)]
pub struct Endpoint {
    pub v4: String,
    pub v6: String,
}

/// The tunnel interface of a device.
#[derive(Debug, Clone)]
pub struct Interface {
    pub addresses: Addresses,
}

/// The addresses assigned to a tunnel interface.
#[derive(Debug, Clone)]
pub struct Addresses {
    pub v4: String,
    pub v6: String,
}

/// An error reply of the API.
#[derive(Debug)]
pub struct ApiError {
    pub errors: Vec<ErrorInfo>,
}

/// One entry of an error reply.
#[derive(Debug)]
pub struct ErrorInfo {
    pub code: i64,
    pub message: String,
}

} // verus!
