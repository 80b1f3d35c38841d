use vstd::prelude::*;

verus! {

/// The ways a single ingestion task can fail. A failure of one task never
/// touches its siblings: each descriptor in a batch gets its own value of
/// this type.
#[derive(Clone, Copy, Debug, PartialEq, Eq, Structural)]
pub enum IngestError {
    /// The chunk queue closed before the end-of-stream sentinel arrived.
    Truncated,
    /// No image container format could be recognized in the leading bytes.
    FormatUnknown,
    /// The payload was recognized but could not be decoded.
    DecodeFailed,
    /// A seek asked for a position the decode bridge cannot reach.
    InvalidSeek,
    /// The download of one image failed.
    Network,
    /// The metadata row could not be persisted.
    Storage,
}

impl IngestError {
    /// A short description, for logs at the boundary.
    pub fn message(&self) -> (r: &'static str)
        ensures
            self is Truncated ==> r@ == "stream truncated"@,
            self is FormatUnknown ==> r@ == "format detection failed"@,
            self is DecodeFailed ==> r@ == "decode failed"@,
            self is InvalidSeek ==> r@ == "invalid seek"@,
            self is Network ==> r@ == "download failed"@,
            self is Storage ==> r@ == "storage write failed"@,
    {
        match self {
            IngestError::Truncated => "stream truncated",
            IngestError::FormatUnknown => "format detection failed",
            IngestError::DecodeFailed => "decode failed",
            IngestError::InvalidSeek => "invalid seek",
            IngestError::Network => "download failed",
            IngestError::Storage => "storage write failed",
        }
    }
}

} // verus!
