use vstd::prelude::*;

verus! {

/// Why a request could not be served. Each kind ends the
/// request it occurs in.
#[derive(Clone, Copy, Debug, PartialEq, Eq, Structural)]
pub enum ProxyError {
    /// An inbound header value is not valid UTF-8 text.
    InvalidHeaderEncoding,
    /// The backend could not be reached, or did not answer in time.
    BackendUnreachable,
    /// The backend answered with a server-error status.
    BackendError,
    /// The backend's answer is not a well-formed reply document.
    MalformedBackendReply,
    /// The reply claims a base64 body that does not decode.
    InvalidBodyEncoding,
    /// A header name or value of the reply is not well-formed.
    InvalidResponseHeader,
    /// The reply's status code is outside 100..=599.
    InvalidStatusCode,
}

/// The status every failed request is answered with.
pub const ERROR_STATUS: u16 = 500;

impl ProxyError {
    /// The fixed text sent to the caller for this kind of failure. It names
    /// the stage that failed and nothing of what the backend said.
    pub open spec fn message_text(self) -> Seq<char> {
        match self {
            ProxyError::InvalidHeaderEncoding => "Error reading request headers."@,
            ProxyError::BackendUnreachable => "Error reaching backend."@,
            ProxyError::BackendError => "Error calling backend."@,
            ProxyError::MalformedBackendReply => "Error reading backend reply."@,
            ProxyError::InvalidBodyEncoding => "Error decoding backend reply body."@,
            ProxyError::InvalidResponseHeader => "Error applying backend reply headers."@,
            ProxyError::InvalidStatusCode => "Error applying backend reply status."@,
        }
    }

    pub fn message(&self) -> (text: &'static str)
        ensures
            text@ == self.message_text(),
    {
        match self {
            ProxyError::InvalidHeaderEncoding => "Error reading request headers.",
            ProxyError::BackendUnreachable => "Error reaching backend.",
            ProxyError::BackendError => "Error calling backend.",
            ProxyError::MalformedBackendReply => "Error reading backend reply.",
            ProxyError::InvalidBodyEncoding => "Error decoding backend reply body.",
            ProxyError::InvalidResponseHeader => "Error applying backend reply headers.",
            ProxyError::InvalidStatusCode => "Error applying backend reply status.",
        }
    }

    /// The status the caller receives for this failure: always 500.
    pub fn status(&self) -> (code: u16)
        ensures
            code == ERROR_STATUS,
    {
        ERROR_STATUS
    }
}

} // verus!
