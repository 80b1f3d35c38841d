use vstd::prelude::*;

use crate::encoding::hex_of;
use crate::encoding::hex_string;

verus! {

/// The query parameters of the two operations: a 0-based page and a page
/// size, both optional.
pub struct FetchImagesQuery {
    pub page: Option<u32>,
    pub limit: Option<u32>,
}

/// One record as the boundary reports it: the stored row with the hash
/// rendered as lowercase hexadecimal text.
pub struct ImageResponse {
    pub id: i64,
    pub author: String,
    pub width: i32,
    pub height: i32,
    pub hash: String,
    pub path: String,
    pub mime_type: String,
}

/// One persisted metadata row, as storage hands it back: the hash still
/// raw bytes.
pub struct ImageRow {
    pub id: i64,
    pub author: String,
    pub width: i32,
    pub height: i32,
    pub hash: Vec<u8>,
    pub path: String,
    pub mime_type: String,
}

/// The page size actually used: the requested one, defaulting to ten,
/// clamped to the given maximum.
pub open spec fn effective_limit(limit: Option<u32>, cap: u32) -> int {
    let requested = match limit {
        Some(l) => l as int,
        None => 10,
    };
    if requested <= cap as int {
        requested
    } else {
        cap as int
    }
}

/// The page actually used: the requested one, defaulting to the first.
pub open spec fn effective_page(page: Option<u32>) -> int {
    match page {
        Some(p) => p as int,
        None => 0,
    }
}

/// The limit and offset of a listing read: the page size is clamped to at
/// most one hundred records, and the offset skips the pages before the
/// requested one.
pub fn listing_window(params: &FetchImagesQuery) -> (r: (i64, i64))
    ensures
        r.0 == effective_limit(params.limit, 100),
        r.1 == effective_page(params.page) * effective_limit(params.limit, 100),
{
    let limit: i64 = match params.limit {
        Some(l) => if l <= 100 {
            l as i64
        } else {
            100
        },
        None => 10,
    };
    let page: i64 = match params.page {
        Some(p) => p as i64,
        None => 0,
    };
    proof {
        assert(page * limit <= 4294967295i64 * 100 && 0 <= page * limit) by (nonlinear_arith)
            requires
                0 <= page <= 4294967295i64,
                0 <= limit <= 100,
        ;
    }
    (limit, page * limit)
}

/// The page and page size of an ingestion trigger: at most fifty images
/// are ingested per call, ten when no size is asked for.
pub fn ingest_window(params: &FetchImagesQuery) -> (r: (u32, u32))
    ensures
        r.0 == effective_page(params.page),
        r.1 == effective_limit(params.limit, 50),
{
    let page: u32 = match params.page {
        Some(p) => p,
        None => 0,
    };
    let limit: u32 = match params.limit {
        Some(l) => if l <= 50 {
            l
        } else {
            50
        },
        None => 10,
    };
    (page, limit)
}

/// How a reported record relates to the stored row it came from: every
/// field carried over unchanged, except the hash, which is hex-encoded at
/// the boundary.
pub open spec fn listing_response_matches(r: ImageResponse, row: ImageRow) -> bool {
    &&& r.id == row.id
    &&& r.author@ == row.author@
    &&& r.width == row.width
    &&& r.height == row.height
    &&& r.hash@ == hex_of(row.hash@)
    &&& r.path@ == row.path@
    &&& r.mime_type@ == row.mime_type@
}

/// Turn one stored row into the shape the listing reports.
pub fn response_from_row(row: ImageRow) -> (r: ImageResponse)
    ensures
        listing_response_matches(r, row),
{
    let hash = hex_string(&row.hash);
    ImageResponse {
        id: row.id,
        author: row.author,
        width: row.width,
        height: row.height,
        hash,
        path: row.path,
        mime_type: row.mime_type,
    }
}

} // verus!
