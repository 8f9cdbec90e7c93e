//! Admission control and login orchestration for a game login gateway.
//!
//! The crate holds the decisions of the gateway and proves them:
//!
//! - [`rate_limit`]: a token bucket per client address, in exact integer
//!   arithmetic, over the concurrent map declared in [`registry`];
//! - [`state`]: the login as a conversation between the library, which
//!   decides, and its caller, which talks to the cache and the relational
//!   store;
//! - [`backend`]: what a login yields, how it can fail, and the mock backend;
//! - [`http`] and [`grpc`]: how an outcome becomes the answer of either front;
//! - [`config`]: the configuration that an environment gives;
//! - [`models`]: the values that all of them carry.
//!
//! The library performs no I/O: its caller reads the clock and the
//! environment, talks to the stores and the network, and hands it plain values.

pub mod backend;
pub mod config;
pub mod grpc;
pub mod http;
pub mod models;
pub mod rate_limit;
pub mod registry;
pub mod state;
