use vstd::prelude::*;

verus! {

/// The failure taxonomy of the cache core.
///
/// Every variant carries the text that the request boundary renders
/// verbatim as the failure's message. `PersistenceFailed` is special: it is
/// always caught and logged where it occurs and never surfaced to a caller;
/// the other kinds propagate unchanged.
#[derive(Debug)]
pub enum FetchError {
    /// No geocoding results, or a requested field is absent from the forecast.
    NotFound(String),
    /// A transport-level failure reaching a provider.
    UpstreamRequestFailed(String),
    /// A provider's response did not match the expected schema.
    UpstreamParseFailed(String),
    /// A provider's response lacked the parts the core must extract.
    MalformedUpstreamResponse(String),
    /// A required secret is absent from the environment.
    ConfigMissing(String),
    /// The cache directory or snapshot file could not be written.
    PersistenceFailed(String),
}

impl FetchError {
    /// The text rendered at the request boundary for this failure.
    pub open spec fn spec_message(&self) -> Seq<char> {
        match self {
            FetchError::NotFound(m) => m@,
            FetchError::UpstreamRequestFailed(m) => m@,
            FetchError::UpstreamParseFailed(m) => m@,
            FetchError::MalformedUpstreamResponse(m) => m@,
            FetchError::ConfigMissing(m) => m@,
            FetchError::PersistenceFailed(m) => m@,
        }
    }

    /// Returns the message carried by this failure, unchanged.
    pub fn message(&self) -> (r: String)
        ensures
            r@ == self.spec_message(),
    {
        match self {
            FetchError::NotFound(m) => m.clone(),
            FetchError::UpstreamRequestFailed(m) => m.clone(),
            FetchError::UpstreamParseFailed(m) => m.clone(),
            FetchError::MalformedUpstreamResponse(m) => m.clone(),
            FetchError::ConfigMissing(m) => m.clone(),
            FetchError::PersistenceFailed(m) => m.clone(),
        }
    }
}

} // verus!
