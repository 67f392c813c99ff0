//! Upload a binary asset to an existing release of a source-hosting
//! platform's repository.
//!
//! The pipeline is: build an authenticated request description from a
//! credential, resolve the release's upload-URL template with the asset's
//! name and optional label, attach the asset bytes as the request body, and
//! classify the platform's response as a created asset or a structured
//! error.  The actual network send is left to the caller, which performs the
//! described request and hands the numeric status and body text back for
//! classification.

pub mod creds;
pub mod error;
pub mod rep;
pub mod request;
pub mod transport;
pub mod upload;

pub use creds::Credentials;
pub use error::ClientError;
pub use error::Error;
pub use rep::Asset;
pub use rep::Release;
pub use request::AssetRequest;
pub use transport::AssetsClient;
pub use transport::Method;
pub use transport::RequestPlan;
pub use upload::AssetUploader;
