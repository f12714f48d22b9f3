use vstd::prelude::*;

use crate::text::concat;

verus! {

/// Why a tool invocation failed outright.
pub enum BridgeError {
    /// The backend request could not be sent, timed out, or its body could
    /// not be read; holds the transport's description of the failure.
    Network(String),
    /// The backend answered with a rejection.
    Api(String),
}

impl BridgeError {
    /// The human-readable text of the error.
    pub open spec fn message_spec(&self) -> Seq<char> {
        match self {
            BridgeError::Network(m) => "Network error: "@ + m@,
            BridgeError::Api(m) => "Backend API error: "@ + m@,
        }
    }

    /// Renders the error as the text shown to the caller.
    pub fn message(&self) -> (r: String)
        ensures
            r@ == self.message_spec(),
    {
        match self {
            BridgeError::Network(m) => concat("Network error: ", m.as_str()),
            BridgeError::Api(m) => concat("Backend API error: ", m.as_str()),
        }
    }
}

} // verus!
