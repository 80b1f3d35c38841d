use gallery::error::IngestError;
use gallery::ingest::assemble_batch;
use gallery::ingest::assemble_image;
use gallery::ingest::collect_present;
use gallery::ingest::ingest_result;
use gallery::ingest::Image;
use gallery::scheduler::place_results;
use gallery::scheduler::PermitPool;

fn sample_image(tag: u8) -> Image {
    assemble_image(
        640,
        480,
        vec![tag, 2 * tag],
        "aabbccdd",
        String::from("image/png"),
    )
}

#[test]
fn permits_never_exceed_the_limit() {
    let mut pool = PermitPool::new(2);
    assert!(pool.try_acquire());
    assert!(pool.try_acquire());
    for _ in 0..3 {
        assert!(!pool.try_acquire());
    }
    pool.release();
    assert!(pool.try_acquire());
    assert!(!pool.try_acquire());
    pool.release();
    pool.release();
    assert!(pool.try_acquire());
}

#[test]
fn results_return_in_input_order() {
    let arrivals: Vec<(usize, &str)> = vec![(2, "c"), (0, "a"), (3, "d"), (1, "b")];
    let placed = place_results(4, arrivals);
    assert_eq!(placed, vec![Some("a"), Some("b"), Some("c"), Some("d")]);
}

#[test]
fn completion_order_does_not_matter() {
    let first: Vec<(usize, u64)> = vec![(0, 10), (1, 11), (2, 12)];
    let second: Vec<(usize, u64)> = vec![(2, 12), (0, 10), (1, 11)];
    assert_eq!(place_results(3, first), place_results(3, second));
}

#[test]
fn empty_batch_gives_empty_results() {
    let placed: Vec<Option<u8>> = place_results(0, Vec::new());
    assert!(placed.is_empty());
    let collected: Vec<u8> = collect_present(Vec::new());
    assert!(collected.is_empty());
}

#[test]
fn failed_decode_yields_no_record() {
    assert!(ingest_result(Err(IngestError::DecodeFailed), None).is_none());
    assert!(ingest_result(Err(IngestError::Network), Some(3)).is_none());
}

#[test]
fn failed_insert_yields_no_record() {
    assert!(ingest_result(Ok(sample_image(1)), None).is_none());
}

#[test]
fn successful_task_reports_its_record() {
    let record = ingest_result(Ok(sample_image(3)), Some(41)).unwrap();
    assert_eq!(record.id, 41);
    assert_eq!(record.author, "Picsum Photos");
    assert_eq!(record.width, 640);
    assert_eq!(record.height, 480);
    assert_eq!(record.hash, "0306");
    assert_eq!(record.path, "images/aabbccdd");
    assert_eq!(record.mime_type, "image/png");
}

#[test]
fn one_bad_payload_spoils_only_its_own_slot() {
    // Four descriptors, permit limit two, one non-image payload: the
    // result list keeps length four, exactly one slot failed, and three
    // records came through.
    let mut pool = PermitPool::new(2);
    let mut admitted = 0;
    while pool.try_acquire() {
        admitted += 1;
    }
    assert_eq!(admitted, 2);
    pool.release();
    pool.release();

    let arrivals: Vec<(usize, Result<Image, IngestError>)> = vec![
        (1, Ok(sample_image(2))),
        (3, Ok(sample_image(4))),
        (0, Ok(sample_image(1))),
        (2, Err(IngestError::FormatUnknown)),
    ];
    let placed = place_results(4, arrivals);
    assert_eq!(placed.len(), 4);
    let outcomes: Vec<(Result<Image, IngestError>, Option<i64>)> = placed
        .into_iter()
        .enumerate()
        .map(|(slot, outcome)| {
            let outcome = outcome.expect("every task completed");
            let id = outcome.as_ref().ok().map(|_| 100 + slot as i64);
            (outcome, id)
        })
        .collect();
    let slots = assemble_batch(outcomes);
    assert_eq!(slots.len(), 4);
    assert!(slots[0].is_some());
    assert!(slots[1].is_some());
    assert!(slots[2].is_none());
    assert!(slots[3].is_some());
    let records = collect_present(slots);
    assert_eq!(records.len(), 3);
    assert_eq!(records[0].id, 100);
    assert_eq!(records[1].id, 101);
    assert_eq!(records[2].id, 103);
    assert_eq!(records[0].hash, "0102");
}

#[test]
fn empty_catalog_page_is_a_success() {
    let placed: Vec<Option<Result<Image, IngestError>>> = place_results(0, Vec::new());
    assert!(placed.is_empty());
    let slots = assemble_batch(Vec::new());
    let records = collect_present(slots);
    assert!(records.is_empty());
}

#[test]
fn collect_present_keeps_order_and_drops_gaps() {
    let collected = collect_present(vec![None, Some(5u8), None, Some(7u8), Some(9u8)]);
    assert_eq!(collected, vec![5, 7, 9]);
}
