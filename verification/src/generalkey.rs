//! Names under which a request's data are kept.

use vstd::prelude::*;

verus! {

/// The list of calls to other services.
pub const CLIENT_LOG: &'static str = "client-log";

/// The logger.
pub const LOGGER: &'static str = "logger";

/// The request's identifier.
pub const REQUEST_ID: &'static str = "requestId";

/// The header that carries the request's identifier.
pub const REQUEST_ID_HEADER: &'static str = "X-Request-ID";

} // verus!
