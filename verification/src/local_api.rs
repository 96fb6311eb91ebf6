//! Data model of the small local HTTP servers the application runs: the
//! OAuth loopback callback and the generic route table.

use vstd::prelude::*;

verus! {

/// What an OAuth loopback callback delivered.
#[derive(Debug, Clone)]
pub struct OAuthCallbackResult {
    pub code: Option<String>,
    pub state: Option<String>,
    pub error: Option<String>,
    pub error_description: Option<String>,
}

/// Configuration of a local HTTP server.
#[derive(Clone)]
pub struct LocalServerConfig {
    /// Specific port, or 0 for one picked by the system.
    pub port: u16,
    /// Routes to register.
    pub routes: Vec<LocalServerRoute>,
}

/// One route of the local server.
#[derive(Clone)]
pub struct LocalServerRoute {
    pub path: String,
    pub method: HttpMethod,
    pub handler_type: RouteHandler,
}

/// The HTTP methods the local server routes.
#[derive(Clone, PartialEq, Eq, Structural)]
pub enum HttpMethod {
    Get,
    Post,
}

/// What a route answers with.
#[derive(Clone)]
pub enum RouteHandler {
    /// A fixed JSON body.
    StaticJson(String),
    /// A fixed HTML body.
    StaticHtml(String),
    /// A health check.
    HealthCheck,
}

} // verus!
