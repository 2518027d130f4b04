//! Typed request construction and response interpretation for a remote
//! service that answers questions about cities and countries.
//!
//! A call has two halves, with the network between them. `Client` builds
//! the `Request` for an operation from a base address and a query; the
//! functions of `reply` turn the `Reply` that came back into the result of
//! the operation or into a `ClientError`. Sending the request is left to the
//! caller.

pub mod client;
pub mod error;
pub mod json;
pub mod model;
pub mod query;
pub mod reply;
pub mod target;
pub mod text;
pub mod uri;

pub use client::Client;
pub use client::Request;
pub use error::ClientError;
pub use error::Operation;
pub use model::City;
pub use model::Country;
pub use query::CitiesQuery;
pub use query::DistQuery;
pub use reply::Reply;
