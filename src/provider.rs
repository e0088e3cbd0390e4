use vstd::prelude::*;

verus! {

/// A remote backend to address: the API family, with the model name and the
/// key that the requests carry. Nothing is validated here; an empty key or
/// model name is refused by the remote side at call time.
#[derive(Clone, Debug)]
pub enum Provider {
    OpenAI { model_name: String, api_key: String },
    Anthropic { model_name: String, api_key: String },
}

/// Why one call, and so the whole batch, failed.
#[derive(Clone, Debug, PartialEq, Eq)]
pub enum CallError {
    /// The transport could not deliver the request or receive the answer.
    Transport(String),
    /// The body of the answer is not JSON.
    Decode,
    /// The body is JSON, but the text is not where the provider puts it.
    ExtractionFailed,
    /// No request can be built for this provider.
    UnsupportedProvider,
    /// A scheduled call was aborted or panicked before it could answer.
    ConcurrencyFault(String),
}

} // verus!
