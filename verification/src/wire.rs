use vstd::prelude::*;

verus! {

/// One record as the gallery client holds it after deserializing a page:
/// the hash back in raw bytes, plus the URL the client resolves the path
/// against.
pub struct ImageResponse {
    pub id: i64,
    pub author: String,
    pub width: i32,
    pub height: i32,
    pub hash: Vec<u8>,
    pub path: String,
    pub url: String,
    pub mime_type: String,
}

} // verus!
