use vstd::prelude::*;

verus! {

/// Every way a job submission can fail.
#[derive(Debug, Clone, PartialEq, Eq)]
pub enum CliError {
    /// The request could not be sent, the server answered with a non-success
    /// status, or its reply could not be read.
    HttpError(String),
    /// The client could not be set up.
    ConfigurationError(String),
    /// An operator-supplied field was malformed.
    ParseError(String),
}

impl CliError {
    /// The human-readable text of an error.
    pub open spec fn message_spec(&self) -> Seq<char> {
        match self {
            CliError::HttpError(m) => "HTTP request failed: "@ + m@,
            CliError::ConfigurationError(m) => "Configuration error: "@ + m@,
            CliError::ParseError(m) => "Invalid input: "@ + m@,
        }
    }

    /// Renders the error as a line for the operator.
    pub fn message(&self) -> (r: String)
        ensures
            r@ == self.message_spec(),
    {
        match self {
            CliError::HttpError(m) => String::from_str("HTTP request failed: ").concat(m.as_str()),
            CliError::ConfigurationError(m) => String::from_str("Configuration error: ").concat(
                m.as_str(),
            ),
            CliError::ParseError(m) => String::from_str("Invalid input: ").concat(m.as_str()),
        }
    }
}

} // verus!
