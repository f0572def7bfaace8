//! Request mapping, session caching and response validation for a client that
//! drives a lobste.rs-style web application on behalf of simulated users.
//!
//! The library decides; it performs no network traffic itself. A caller hands
//! an [`operation::Operation`] to [`client::WebClient::handle`], sends whatever
//! request the returned [`client::Step`] asks for, and hands the answer back to
//! [`client::WebClient::resume`] until the step is `Done` or `Abort`.

pub mod client;
pub mod endpoint;
pub mod error;
pub mod laws;
pub mod operation;
pub mod pairs;
pub mod request;
pub mod session;
pub mod text;
pub mod trusted;
