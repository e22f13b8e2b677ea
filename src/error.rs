//! Why a request failed, and how the failure is shown.

use vstd::prelude::*;

verus! {

/// Every way a submission or a feed read can fail.
#[derive(Clone, Copy, Debug, PartialEq, Eq, Structural)]
pub enum Rejection {
    /// The attachment is neither an image nor a video.
    UnsupportedMediaType,
    /// An image whose format is not allowed.
    UnsupportedImageFormat,
    /// A video whose format is not allowed.
    UnsupportedVideoFormat,
    /// An image file that does not decode.
    InvalidImage,
    /// Name, subject or body is empty after trimming.
    EmptyField,
    /// The post could not be saved.
    StoreFailure,
    /// The posts could not be read.
    LoadFailure,
}

impl Rejection {
    /// Whether the client is at fault.
    pub open spec fn is_client_error(self) -> bool {
        !(self is StoreFailure || self is LoadFailure)
    }

    /// HTTP status: 400 for what the client sent, 500 for storage faults.
    pub fn status(&self) -> (r: u16)
        ensures
            r == (if self.is_client_error() { 400u16 } else { 500u16 }),
    {
        match self {
            Rejection::StoreFailure | Rejection::LoadFailure => 500,
            _ => 400,
        }
    }

    /// Heading of the error page.
    pub fn title(&self) -> (r: &'static str)
        ensures
            r@ == (if self.is_client_error() { "Bad Request"@ } else { "Internal Server Error"@ }),
    {
        match self {
            Rejection::StoreFailure | Rejection::LoadFailure => "Internal Server Error",
            _ => "Bad Request",
        }
    }

    /// Sentence shown under the heading.
    pub fn message(&self) -> (r: &'static str)
        ensures
            r@ == rejection_message(*self),
    {
        match self {
            Rejection::UnsupportedMediaType => "Unsupported media type",
            Rejection::UnsupportedImageFormat => "Unsupported image format",
            Rejection::UnsupportedVideoFormat => "Unsupported video format",
            Rejection::InvalidImage => "Invalid image file",
            Rejection::EmptyField => "Name, Subject, and Comment cannot be empty",
            Rejection::StoreFailure => "Failed to save post",
            Rejection::LoadFailure => "Failed to load posts",
        }
    }
}

/// The sentence shown for each failure.
pub open spec fn rejection_message(e: Rejection) -> Seq<char> {
    match e {
        Rejection::UnsupportedMediaType => "Unsupported media type"@,
        Rejection::UnsupportedImageFormat => "Unsupported image format"@,
        Rejection::UnsupportedVideoFormat => "Unsupported video format"@,
        Rejection::InvalidImage => "Invalid image file"@,
        Rejection::EmptyField => "Name, Subject, and Comment cannot be empty"@,
        Rejection::StoreFailure => "Failed to save post"@,
        Rejection::LoadFailure => "Failed to load posts"@,
    }
}

} // verus!
