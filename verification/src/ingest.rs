use vstd::prelude::*;

use crate::api::ImageResponse;
use crate::api::ImageRow;
use crate::api::listing_response_matches;
use crate::encoding::hex_of;
use crate::encoding::hex_string;
use crate::encoding::image_relative_path;
use crate::error::IngestError;

verus! {

/// The metadata one successfully decoded and written image yields, before
/// a storage identifier is assigned.
pub struct Image {
    pub width: u32,
    pub height: u32,
    pub hash: Vec<u8>,
    pub path: String,
    pub mime_type: String,
}

/// What thumbhash::rgba_to_thumb_hash returns for given dimensions and
/// RGBA bytes. A function of its arguments alone; its pages-long
/// definition is not restated here. Its cosines go through the platform's
/// float math, which is not promised to be bit-identical everywhere, so
/// equal arguments are only known to give equal hashes within one
/// platform's build.
pub uninterp spec fn thumb_hash_of(width: nat, height: nat, rgba: Seq<u8>) -> Seq<u8>;

/// Relies on thumbhash::rgba_to_thumb_hash: computes the compact
/// perceptual hash of an RGBA raster, row by row, four bytes per pixel.
/// It refuses (by panicking) images over one hundred pixels a side or a
/// byte slice of the wrong length, so those inputs are excluded here.
#[verifier::external_body]
fn thumb_hash_raw(width: usize, height: usize, rgba: &Vec<u8>) -> (r: Vec<u8>)
    requires
        width <= 100,
        height <= 100,
        rgba@.len() == width * height * 4,
    ensures
        r@ == thumb_hash_of(width as nat, height as nat, rgba@),
{
    thumbhash::rgba_to_thumb_hash(width, height, rgba.as_slice())
}

/// The perceptual hash of a thumbnail raster. The thumbnail step bounds
/// both sides by one hundred pixels, and a row-by-row RGBA raster carries
/// four bytes per pixel.
pub fn perceptual_hash(width: u32, height: u32, rgba: &Vec<u8>) -> (r: Vec<u8>)
    requires
        width <= 100,
        height <= 100,
        rgba@.len() == width * height * 4,
    ensures
        r@ == thumb_hash_of(width as nat, height as nat, rgba@),
{
    thumb_hash_raw(width as usize, height as usize, rgba)
}

/// Join the pieces one task produced into its metadata record: dimensions
/// and mime type from the decoder, the hash from the thumbnail, and the
/// path derived from the file name that was fixed before the download
/// began.
pub fn assemble_image(
    width: u32,
    height: u32,
    hash: Vec<u8>,
    filename: &str,
    mime_type: String,
) -> (r: Image)
    ensures
        r.width == width,
        r.height == height,
        r.hash@ == hash@,
        r.path@ == "images/"@ + filename@,
        r.mime_type@ == mime_type@,
{
    let path = image_relative_path(filename);
    Image { width, height, hash, path, mime_type }
}

/// How the stored row relates to the image it persists: the assigned
/// identifier, the fixed author attribution, and every metadata field
/// carried over unchanged, the hash still raw bytes.
pub open spec fn row_matches_insert(row: ImageRow, image: Image, id: i64) -> bool {
    &&& row.id == id
    &&& row.author@ == "Picsum Photos"@
    &&& row.width as int == image.width as int
    &&& row.height as int == image.height as int
    &&& row.hash@ == image.hash@
    &&& row.path@ == image.path@
    &&& row.mime_type@ == image.mime_type@
}

/// How the response ingestion reports relates to the image it ingested:
/// the assigned identifier, the fixed author attribution, the metadata
/// fields unchanged, and the hash hex-encoded for the boundary.
pub open spec fn insert_response_matches(r: ImageResponse, image: Image, id: i64) -> bool {
    &&& r.id == id
    &&& r.author@ == "Picsum Photos"@
    &&& r.width as int == image.width as int
    &&& r.height as int == image.height as int
    &&& r.hash@ == hex_of(image.hash@)
    &&& r.path@ == image.path@
    &&& r.mime_type@ == image.mime_type@
}

/// A task contributes a record exactly when its download-and-decode
/// succeeded and its row was stored.
pub open spec fn task_succeeds(
    outcome: Result<Image, IngestError>,
    insert_id: Option<i64>,
) -> bool {
    outcome is Ok && insert_id is Some
}

/// The stored row's integer columns must hold the decoded dimensions.
pub open spec fn image_fits_row(image: Image) -> bool {
    image.width <= i32::MAX && image.height <= i32::MAX
}

/// The result of one task, joined with its storage outcome: a response
/// exactly when both the task and the insert succeeded, and nothing
/// otherwise — the failure stays contained in its own slot.
pub fn ingest_result(outcome: Result<Image, IngestError>, insert_id: Option<i64>) -> (r: Option<
    ImageResponse,
>)
    requires
        outcome matches Ok(image) ==> image_fits_row(image),
    ensures
        r is Some <==> task_succeeds(outcome, insert_id),
        r matches Some(resp) ==> outcome matches Ok(image) && insert_id matches Some(id)
            && insert_response_matches(resp, image, id),
{
    match (outcome, insert_id) {
        (Ok(image), Some(id)) => {
            let hash = hex_string(&image.hash);
            Some(
                ImageResponse {
                    id,
                    author: String::from_str("Picsum Photos"),
                    width: image.width as i32,
                    height: image.height as i32,
                    hash,
                    path: image.path,
                    mime_type: image.mime_type,
                },
            )
        },
        _ => None,
    }
}

/// Join storage outcomes onto a batch of task outcomes, slot by slot: the
/// result has one entry per task, in task order, and each slot is filled
/// independently of every other slot.
pub fn assemble_batch(tasks: Vec<(Result<Image, IngestError>, Option<i64>)>) -> (r: Vec<
    Option<ImageResponse>,
>)
    requires
        forall|k: int|
            0 <= k < tasks@.len() ==> ((#[trigger] tasks@[k]).0 matches Ok(image)
                ==> image_fits_row(image)),
    ensures
        r@.len() == tasks@.len(),
        forall|k: int|
            0 <= k < r@.len() ==> ((#[trigger] r@[k]) is Some <==> task_succeeds(
                tasks@[k].0,
                tasks@[k].1,
            )),
        forall|k: int|
            0 <= k < r@.len() ==> ((#[trigger] r@[k]) matches Some(resp) ==> tasks@[k].0 matches Ok(
                image,
            ) && tasks@[k].1 matches Some(id) && insert_response_matches(resp, image, id)),
{
    let ghost all = tasks@;
    let mut pending = tasks;
    let mut r: Vec<Option<ImageResponse>> = Vec::new();
    while pending.len() > 0
        invariant
            r@.len() + pending@.len() == all.len(),
            pending@ == all.skip(r@.len() as int),
            forall|k: int|
                0 <= k < all.len() ==> ((#[trigger] all[k]).0 matches Ok(image) ==> image_fits_row(
                    image,
                )),
            forall|k: int|
                0 <= k < r@.len() ==> ((#[trigger] r@[k]) is Some <==> task_succeeds(
                    all[k].0,
                    all[k].1,
                )),
            forall|k: int|
                0 <= k < r@.len() ==> ((#[trigger] r@[k]) matches Some(resp) ==> all[k].0 matches Ok(
                    image,
                ) && all[k].1 matches Some(id) && insert_response_matches(resp, image, id)),
        decreases pending.len(),
    {
        let ghost done = r@.len() as int;
        let (outcome, insert_id) = pending.remove(0);
        proof {
            assert(all.skip(done)[0] == all[done]);
            assert(pending@ =~= all.skip(done + 1));
        }
        let slot = ingest_result(outcome, insert_id);
        r.push(slot);
    }
    r
}

/// The successfully ingested records, in task order, with the empty slots
/// of failed tasks dropped.
pub open spec fn present_of<T>(s: Seq<Option<T>>) -> Seq<T>
    decreases s.len(),
{
    if s.len() == 0 {
        Seq::<T>::empty()
    } else {
        let rest = present_of(s.drop_last());
        match s.last() {
            Some(v) => rest.push(v),
            None => rest,
        }
    }
}

/// Keep the filled slots of a batch result, in order: the subset of the
/// batch that succeeded, which is what the ingestion trigger returns.
pub fn collect_present<T>(items: Vec<Option<T>>) -> (r: Vec<T>)
    ensures
        r@ == present_of(items@),
{
    let ghost all = items@;
    let mut pending = items;
    let mut r: Vec<T> = Vec::new();
    let ghost done: int = 0;
    while pending.len() > 0
        invariant
            0 <= done <= all.len(),
            pending@ == all.skip(done),
            r@ == present_of(all.take(done)),
        decreases pending.len(),
    {
        proof {
            assert(all.skip(done)[0] == all[done]);
        }
        let head = pending.remove(0);
        proof {
            assert(pending@ =~= all.skip(done + 1));
            assert(all.take(done + 1).drop_last() =~= all.take(done));
            assert(all.take(done + 1).last() == all[done]);
        }
        match head {
            Some(v) => {
                r.push(v);
            },
            None => {},
        }
        proof {
            done = done + 1;
        }
    }
    proof {
        assert(all.take(done) =~= all);
    }
    r
}

/// Fault isolation: whether the task at one slot yields a record depends
/// on that task's own outcome and its own storage outcome alone. Two
/// batches that agree at a slot fill that slot alike, however the other
/// slots fared.
pub proof fn lemma_fault_isolation(
    t1: Seq<(Result<Image, IngestError>, Option<i64>)>,
    t2: Seq<(Result<Image, IngestError>, Option<i64>)>,
    r1: Seq<Option<ImageResponse>>,
    r2: Seq<Option<ImageResponse>>,
    i: int,
)
    requires
        r1.len() == t1.len(),
        r2.len() == t2.len(),
        0 <= i < t1.len(),
        i < t2.len(),
        t1[i] == t2[i],
        forall|k: int|
            0 <= k < r1.len() ==> ((#[trigger] r1[k]) is Some <==> task_succeeds(
                t1[k].0,
                t1[k].1,
            )),
        forall|k: int|
            0 <= k < r2.len() ==> ((#[trigger] r2[k]) is Some <==> task_succeeds(
                t2[k].0,
                t2[k].1,
            )),
    ensures
        (r1[i] is Some) == (r2[i] is Some),
{
}

/// Round trip: the record the ingestion trigger reports and the record the
/// listing later reads back from the stored row agree on every metadata
/// field — width, height, hash, path and mime type — and on the assigned
/// identifier.
pub proof fn lemma_listing_round_trip(
    image: Image,
    id: i64,
    row: ImageRow,
    listed: ImageResponse,
    reported: ImageResponse,
)
    requires
        row_matches_insert(row, image, id),
        listing_response_matches(listed, row),
        insert_response_matches(reported, image, id),
    ensures
        listed.id == reported.id,
        listed.author@ == reported.author@,
        listed.width == reported.width,
        listed.height == reported.height,
        listed.hash@ == reported.hash@,
        listed.path@ == reported.path@,
        listed.mime_type@ == reported.mime_type@,
{
}

} // verus!
