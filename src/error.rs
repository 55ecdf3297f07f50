use vstd::prelude::*;

verus! {

/// Why a step of the export failed. Each variant carries a readable message.
#[derive(Debug, Clone, PartialEq, Eq)]
pub enum ExportError {
    /// Credentials are missing, or the server answered 401 or 403.
    Auth(String),
    /// The request did not get an answer (connection, timeout, name lookup).
    Transport(String),
    /// The body of a successful answer is not JSON of the expected shape.
    Parse(String),
    /// Any other status than 200.
    Server(String),
}

impl ExportError {
    /// The message that the error carries.
    pub fn message(&self) -> (r: String)
        ensures
            r@ == self.message_view(),
    {
        match self {
            ExportError::Auth(m) => m.clone(),
            ExportError::Transport(m) => m.clone(),
            ExportError::Parse(m) => m.clone(),
            ExportError::Server(m) => m.clone(),
        }
    }

    pub open spec fn message_view(&self) -> Seq<char> {
        match self {
            ExportError::Auth(m) => m@,
            ExportError::Transport(m) => m@,
            ExportError::Parse(m) => m@,
            ExportError::Server(m) => m@,
        }
    }
}

} // verus!
