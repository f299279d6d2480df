//! What an upload is: its target, its credentials and its content type —
//! and the retry policy decisions of the actor that performs it.
//!
//! The HTTP transfer itself, with its backoff timing, is an unverified
//! collaborator; it asks [`classify_upload_send_error`] and
//! [`classify_upload_status`] whether a failure is worth retrying.

use vstd::prelude::*;

use crate::download::Retry;

verus! {

/// The content type declared for an uploaded file.
#[derive(Debug, Clone, Eq, PartialEq, Structural)]
pub enum ContentType {
    /// Plain text.
    TextPlain,
    /// An opaque byte stream.
    ApplicationOctetStream,
}

impl ContentType {
    /// The MIME name of this content type.
    pub fn as_str(&self) -> (r: &'static str)
        ensures
            *self == ContentType::TextPlain ==> r@ == "text/plain"@,
            *self == ContentType::ApplicationOctetStream ==> r@ == "application/octet-stream"@,
    {
        match self {
            ContentType::TextPlain => "text/plain",
            ContentType::ApplicationOctetStream => "application/octet-stream",
        }
    }
}

/// The credentials presented with an upload.
#[derive(Debug, Clone, PartialEq, Eq)]
pub enum Auth {
    /// A bearer token.
    Bearer(String),
}

/// Describes a request used to upload a file.
#[derive(Debug, Clone, Eq, PartialEq)]
pub struct UploadInfo {
    /// Where the file goes.
    pub url: String,
    /// The credentials to present, if any.
    pub auth: Option<Auth>,
    /// The content type to declare.
    pub content_type: ContentType,
}

impl UploadInfo {
    /// An upload to the given URL, with no credentials and an opaque content
    /// type.
    pub fn new(url: &str) -> (r: UploadInfo)
        ensures
            r.url@ == url@,
            r.auth is None,
            r.content_type == ContentType::ApplicationOctetStream,
    {
        UploadInfo {
            url: url.to_owned(),
            auth: None,
            content_type: ContentType::ApplicationOctetStream,
        }
    }

    /// The same upload, presenting these credentials.
    pub fn with_auth(self, auth: Auth) -> (r: UploadInfo)
        ensures
            r.url == self.url,
            r.auth == Some(auth),
            r.content_type == self.content_type,
    {
        UploadInfo { auth: Some(auth), ..self }
    }

    /// The same upload, declaring this content type.
    pub fn with_content_type(self, content_type: ContentType) -> (r: UploadInfo)
        ensures
            r.url == self.url,
            r.auth == self.auth,
            r.content_type == content_type,
    {
        UploadInfo { content_type, ..self }
    }

    /// The URL the file goes to.
    pub fn url(&self) -> (r: &str)
        ensures
            r@ == self.url@,
    {
        self.url.as_str()
    }
}

/// Whether a failure to send the upload request is worth retrying.
///
/// A request that could not even be built, or that could not connect, will
/// fail the same way again: permanent. Anything else may have been a
/// transient condition of the network.
pub fn classify_upload_send_error(is_builder: bool, is_connect: bool) -> (r: Retry)
    ensures
        r == (if is_builder || is_connect {
            Retry::Permanent
        } else {
            Retry::Transient
        }),
{
    if is_builder || is_connect {
        Retry::Permanent
    } else {
        Retry::Transient
    }
}

/// Whether a failure status on an upload response is worth retrying.
///
/// A client error (status 400 to 499) blames the request itself and will
/// repeat: permanent. Any other failure status may pass on retry.
pub fn classify_upload_status(status: Option<u16>) -> (r: Retry)
    ensures
        r == (match status {
            Some(s) => if 400 <= s < 500 {
                Retry::Permanent
            } else {
                Retry::Transient
            },
            None => Retry::Transient,
        }),
{
    match status {
        Some(s) => {
            if 400 <= s && s < 500 {
                Retry::Permanent
            } else {
                Retry::Transient
            }
        },
        None => Retry::Transient,
    }
}

} // verus!
