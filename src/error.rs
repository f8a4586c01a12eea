use vstd::prelude::*;

verus! {

/// Every way in which building a provider or asking it a question can fail.
#[derive(Debug, PartialEq, Eq)]
pub enum ProviderError {
    /// The configuration could not be read or was malformed.
    ConfigError(String),
    /// The configuration names no provider at all.
    NoProviderConfigured,
    /// The configured model name is not one of the supported models.
    UnsupportedModel(String),
    /// The remote service could not be reached.
    TransportError(String),
    /// The remote service answered with a non-success HTTP status.
    RemoteFailure { status: u16, body: String },
    /// A success reply whose body does not have the expected shape.
    DecodeError(String),
    /// A success reply that holds no choice at all.
    EmptyResponse,
}

} // verus!
