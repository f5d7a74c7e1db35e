//! The environment variables that configure the logger.

use vstd::prelude::*;

verus! {

/// The prefix of the Elasticsearch index.
pub const ELASTIC_INDEX: &'static str = "ELASTIC_INDEX__";

/// The base URL of Elasticsearch.
pub const ELASTIC_URL: &'static str = "ELASTIC_URL__";

/// The user that logs are sent as.
pub const ELASTIC_USERNAME: &'static str = "ELASTIC_USERNAME__";

/// The password of that user.
pub const ELASTIC_PASSWORD: &'static str = "ELASTIC_PASSWORD__";

/// How many logs may wait for the worker.
pub const QUEUE_CAPACITY: &'static str = "WELOG_QUEUE_CAPACITY__";

} // verus!
