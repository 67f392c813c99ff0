use vstd::prelude::*;

verus! {

/// How requests to the platform identify themselves: a personal token
/// carried in a header, an application id/secret pair carried as query
/// parameters, or nothing at all.
///
/// A `Credentials` value is built once by the caller and shared across
/// requests; nothing in this crate mutates it.
#[derive(Clone, Debug)]
pub enum Credentials {
    /// No authentication is attached to outgoing requests.
    Anonymous,
    /// A personal access token, sent as an `Authorization: token <value>`
    /// header.
    Token(String),
    /// An application id and secret, appended to the target URL as the
    /// `client_id` and `client_secret` query parameters.
    Client { id: String, secret: String },
}

} // verus!
