//! The error type shared by every stage.

use vstd::prelude::*;
use vstd::string::StringExecFns;

verus! {

/// Failures of the tool, one variant per stage that can fail.
#[derive(Debug)]
pub enum Error {
    /// An I/O operation failed.
    Io(String),
    /// Project initialization failed.
    Initialization(String),
    /// Conflicting or incomplete configuration.
    Config(String),
    /// The build process failed.
    Build(String),
    /// Submission rejected, receipt missing, artifact missing.
    Deployment(String),
    /// The endpoint was unreachable or answered with an RPC failure.
    Network(String),
    /// The project directory does not have the expected layout.
    InvalidProject(String),
    /// A local check on an input failed (bad artifact).
    Validation(String),
    /// The signing key is malformed or not a valid secret scalar.
    InvalidPrivateKey(String),
    /// The confirmation deadline passed.
    Timeout(String),
}

/// The text that `Error::message` puts before the detail of each variant.
pub open spec fn error_prefix(e: Error) -> Seq<char> {
    match e {
        Error::Io(_) => "IO error: "@,
        Error::Initialization(_) => "Initialization error: "@,
        Error::Config(_) => "Config error: "@,
        Error::Build(_) => "Build error: "@,
        Error::Deployment(_) => "Deployment error: "@,
        Error::Network(_) => "Network error: "@,
        Error::InvalidProject(_) => "Invalid project: "@,
        Error::Validation(_) => "Validation error: "@,
        Error::InvalidPrivateKey(_) => "Invalid private key: "@,
        Error::Timeout(_) => "Timeout: "@,
    }
}

/// The detail text carried by an error.
pub open spec fn error_detail(e: Error) -> Seq<char> {
    match e {
        Error::Io(m) => m@,
        Error::Initialization(m) => m@,
        Error::Config(m) => m@,
        Error::Build(m) => m@,
        Error::Deployment(m) => m@,
        Error::Network(m) => m@,
        Error::InvalidProject(m) => m@,
        Error::Validation(m) => m@,
        Error::InvalidPrivateKey(m) => m@,
        Error::Timeout(m) => m@,
    }
}

impl Error {
    /// The detail text of the error.
    pub fn detail(&self) -> (r: &String)
        ensures
            r@ == error_detail(*self),
    {
        match self {
            Error::Io(m) => m,
            Error::Initialization(m) => m,
            Error::Config(m) => m,
            Error::Build(m) => m,
            Error::Deployment(m) => m,
            Error::Network(m) => m,
            Error::InvalidProject(m) => m,
            Error::Validation(m) => m,
            Error::InvalidPrivateKey(m) => m,
            Error::Timeout(m) => m,
        }
    }

    /// Human-readable text naming the failing stage and the reason.
    pub fn message(&self) -> (r: String)
        ensures
            r@ == error_prefix(*self) + error_detail(*self),
    {
        let prefix = match self {
            Error::Io(_) => "IO error: ",
            Error::Initialization(_) => "Initialization error: ",
            Error::Config(_) => "Config error: ",
            Error::Build(_) => "Build error: ",
            Error::Deployment(_) => "Deployment error: ",
            Error::Network(_) => "Network error: ",
            Error::InvalidProject(_) => "Invalid project: ",
            Error::Validation(_) => "Validation error: ",
            Error::InvalidPrivateKey(_) => "Invalid private key: ",
            Error::Timeout(_) => "Timeout: ",
        };
        String::from_str(prefix).concat(self.detail().as_str())
    }
}

} // verus!
