use vstd::prelude::*;

verus! {

/// The structured error body the platform returns for client-side faults.
#[derive(Clone, Debug, PartialEq)]
pub struct ClientError {
    pub message: String,
}

/// Everything the upload pipeline can fail with.
///
/// `MissingContent`, `InvalidUrl` and `Transport` are the fatal categories:
/// no content was attached before the upload, the expanded upload URL is not
/// an absolute URL the transport accepts, or the network send itself failed.
/// `Codec` means a response body that does not decode to the expected shape,
/// and `Fault` is the one expected failure: a well-formed error response for
/// a recognized client-fault status code.
#[derive(Clone, Debug, PartialEq)]
pub enum Error {
    /// No content was attached to the asset request before the upload.
    MissingContent,
    /// No well-formed absolute upload URL could be made: the expanded
    /// text did not parse as one, or the template carries a varlist the
    /// expander is not trusted on (a non-ASCII character or a `:` prefix
    /// modifier between braces).  The payload is the rejected text — the
    /// expansion in the first case, the template in the second.
    InvalidUrl(String),
    /// The network send failed; the payload describes the failure.
    Transport(String),
    /// A response body that did not decode to the expected shape; the
    /// payload is the undecoded body.
    Codec(String),
    /// A structured client-fault response from the platform, with the
    /// numeric status it came with.
    Fault { code: u16, error: ClientError },
}

} // verus!
