use vstd::prelude::*;

verus! {

/// A builder-style description of the asset to upload: the file name the
/// platform will record, the declared content type, an optional display
/// label, and the asset bytes themselves.
///
/// The bytes are attached separately through [`AssetRequest::content`];
/// attaching them again replaces the earlier bytes (last write wins).  An
/// upload attempted with no content attached is a precondition violation
/// and is answered with a fatal error, never with a network call.
#[derive(Clone, Debug)]
pub struct AssetRequest {
    pub name: String,
    pub content_type: String,
    pub label: Option<String>,
    pub content: Option<Vec<u8>>,
}

impl AssetRequest {
    /// Describes an asset with no content attached yet.
    pub fn new(name: &str, content_type: &str, label: Option<String>) -> (r: AssetRequest)
        ensures
            r.name@ == name@,
            r.content_type@ == content_type@,
            r.label == label,
            r.content is None,
    {
        AssetRequest {
            name: name.to_owned(),
            content_type: content_type.to_owned(),
            label,
            content: None,
        }
    }

    /// Attaches the bytes to send as the asset, replacing any bytes
    /// attached earlier.
    pub fn content(&mut self, c: Vec<u8>)
        ensures
            final(self).name == old(self).name,
            final(self).content_type == old(self).content_type,
            final(self).label == old(self).label,
            final(self).content == Some(c),
    {
        self.content = Some(c);
    }
}

} // verus!
