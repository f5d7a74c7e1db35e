//! Structured logging of HTTP requests and gRPC calls to Elasticsearch, with a fallback file.

pub mod app;
pub mod axum_laws;
pub mod axum_middleware;
pub mod client_log;
pub mod clock;
pub mod config;
pub mod delivery_laws;
pub mod ecs;
pub mod ecs_laws;
pub mod elastic;
pub mod envkey;
pub mod fallback;
pub mod field_laws;
pub mod generalkey;
pub mod grpc;
pub mod grpc_laws;
pub mod headers;
pub mod identity;
pub mod json;
pub mod logger;
pub mod metadata;
pub mod model;
pub mod queue;
pub mod request_id;
pub mod text;
pub mod util;

pub use crate::axum_middleware::{log_axum_client, WelogContext, WelogLayer, WelogMiddleware};
pub use crate::config::{set_config, Config};
pub use crate::grpc::{log_grpc_client, GrpcContext, WelogGrpcInterceptor};
