//! The readers that turn API descriptions into the intermediate
//! representation.

pub mod graphql;
pub mod grpc;
pub mod openapi;
pub mod sample;

pub use graphql::GraphQLParser;
pub use grpc::GrpcParser;
pub use openapi::OpenApiParser;
