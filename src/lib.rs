//! Concurrent dispatch of text prompts to a remote language-model API.
//!
//! The library holds the logic of the dispatcher: the provider descriptor,
//! the request that is sent for one prompt, the decoding of the answer, and
//! the positional, all-or-nothing assembly of a batch of answers. Sending
//! requests and scheduling the calls is left to the caller, which hands the
//! library plain values and takes plain values back.

pub mod provider;
pub mod json;
pub mod response;
pub mod request;
pub mod batch;

pub use provider::{CallError, Provider};
pub use request::{build_request, Request};
pub use response::{extract_content, parse_response};
pub use batch::collect_responses;
