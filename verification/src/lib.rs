//! The routing core of a terminal-sharing server that answers browsers,
//! RPC clients and proxied plaintext requests on one listener.
//!
//! Every request is classified by its headers into one of three branches
//! ([`classifier`]), a plaintext request is answered with a redirect to its
//! HTTPS address ([`redirect`]), the outcome of the chosen branch is brought
//! into one shape ([`dispatcher`]), and the listener's life from accepting
//! through draining to stopped is a small state machine ([`shutdown`]).
//!
//! The request's headers and address are values of the `http` crate; what is
//! believed of that crate, rather than proved, is gathered in [`http_model`].

pub mod classifier;
pub mod dispatcher;
pub mod http_model;
pub mod redirect;
pub mod shutdown;
