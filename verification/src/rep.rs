use vstd::prelude::*;

verus! {

/// A release of the repository, as the platform reports it: a name, a
/// publication timestamp, and the URI template against which assets are
/// uploaded.  The template carries `{?name,label}`-style placeholders.
///
/// Releases are read-only inputs supplied by the caller; this crate never
/// constructs or mutates one.
#[derive(Clone, Debug)]
pub struct Release {
    pub name: String,
    pub published_at: String,
    pub upload_url: String,
}

/// The record the platform returns for a newly created asset.
#[derive(Clone, Debug, PartialEq)]
pub struct Asset {
    pub id: u64,
    pub name: String,
}

} // verus!
