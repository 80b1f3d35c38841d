use std::sync::mpsc;

use gallery::bridge::Buffer;
use gallery::bridge::SeekTarget;
use gallery::error::IngestError;

fn drain(buffer: &mut Buffer) -> Result<Vec<u8>, IngestError> {
    let mut collected = Vec::new();
    loop {
        let mut chunk = vec![0u8; 7];
        let n = buffer.read(&mut chunk)?;
        if n == 0 {
            return Ok(collected);
        }
        collected.extend_from_slice(&chunk[..n]);
    }
}

#[test]
fn reads_bytes_in_arrival_order() {
    let (sender, receiver) = mpsc::channel();
    sender.send(vec![1u8, 2, 3]).unwrap();
    sender.send(vec![4u8, 5]).unwrap();
    sender.send(vec![]).unwrap();
    let mut buffer = Buffer::new(receiver);
    assert_eq!(drain(&mut buffer).unwrap(), vec![1, 2, 3, 4, 5]);
}

#[test]
fn empty_sentinel_means_end_of_stream() {
    let (sender, receiver) = mpsc::channel();
    sender.send(vec![]).unwrap();
    let mut buffer = Buffer::new(receiver);
    let mut out = vec![0u8; 4];
    assert_eq!(buffer.read(&mut out), Ok(0));
}

#[test]
fn closed_queue_without_sentinel_is_truncation() {
    let (sender, receiver) = mpsc::channel::<Vec<u8>>();
    drop(sender);
    let mut buffer = Buffer::new(receiver);
    let mut out = vec![0u8; 4];
    assert_eq!(buffer.read(&mut out), Err(IngestError::Truncated));
}

#[test]
fn short_destination_takes_a_prefix() {
    let (sender, receiver) = mpsc::channel();
    sender.send(vec![9u8, 8, 7, 6]).unwrap();
    let mut buffer = Buffer::new(receiver);
    let mut out = vec![0u8; 2];
    assert_eq!(buffer.read(&mut out), Ok(2));
    assert_eq!(out, vec![9, 8]);
    let mut rest = vec![0u8; 2];
    assert_eq!(buffer.read(&mut rest), Ok(2));
    assert_eq!(rest, vec![7, 6]);
}

#[test]
fn both_sinks_see_the_same_bytes() {
    // The splitter's guarantee, replayed at the model level: every chunk
    // the disk writer appends is also sent down the queue, so the decode
    // side reconstructs exactly the written byte string.
    let chunks: Vec<Vec<u8>> = vec![vec![10, 20], vec![30], vec![40, 50, 60]];
    let (sender, receiver) = mpsc::channel();
    let mut written: Vec<u8> = Vec::new();
    for chunk in &chunks {
        written.extend_from_slice(chunk);
        sender.send(chunk.clone()).unwrap();
    }
    sender.send(vec![]).unwrap();
    let mut buffer = Buffer::new(receiver);
    assert_eq!(drain(&mut buffer).unwrap(), written);
}

#[test]
fn decoder_sees_an_intact_image_through_the_bridge() {
    let raster = image::RgbaImage::from_fn(3, 2, |x, y| {
        image::Rgba([x as u8 * 40, y as u8 * 90, 120, 255])
    });
    let mut png: Vec<u8> = Vec::new();
    image::DynamicImage::ImageRgba8(raster)
        .write_to(&mut std::io::Cursor::new(&mut png), image::ImageFormat::Png)
        .unwrap();

    let (sender, receiver) = mpsc::channel();
    for chunk in png.chunks(5) {
        sender.send(chunk.to_vec()).unwrap();
    }
    sender.send(vec![]).unwrap();
    let mut buffer = Buffer::new(receiver);
    let bytes = drain(&mut buffer).unwrap();
    assert_eq!(bytes, png);
    let decoded = image::load_from_memory(&bytes).unwrap();
    assert_eq!((decoded.width(), decoded.height()), (3, 2));
}

#[test]
fn fill_buf_and_consume_page_through_the_stream() {
    let (sender, receiver) = mpsc::channel();
    sender.send(vec![1u8, 2]).unwrap();
    sender.send(vec![3u8]).unwrap();
    let mut buffer = Buffer::new(receiver);
    buffer.fill_buf().unwrap();
    assert_eq!(buffer.contents().as_slice(), &[1, 2]);
    assert_eq!(buffer.cursor(), 0);
    buffer.consume(2);
    assert_eq!(buffer.cursor(), 2);
    buffer.fill_buf().unwrap();
    assert_eq!(buffer.contents().as_slice(), &[1, 2, 3]);
    buffer.consume(5);
    assert_eq!(buffer.cursor(), 3);
}

#[test]
fn absorb_appends_exactly_the_chunk() {
    let (_sender, receiver) = mpsc::channel::<Vec<u8>>();
    let mut buffer = Buffer::new(receiver);
    buffer.absorb_chunk(vec![1, 2, 3]);
    buffer.absorb_chunk(vec![]);
    buffer.absorb_chunk(vec![4]);
    assert_eq!(buffer.contents().as_slice(), &[1, 2, 3, 4]);
    assert_eq!(buffer.cursor(), 0);
    let mut out = vec![0u8; 8];
    assert_eq!(buffer.read(&mut out), Ok(4));
    assert_eq!(&out[..4], &[1, 2, 3, 4]);
}

#[test]
fn read_channel_appends_without_moving_the_cursor() {
    let (sender, receiver) = mpsc::channel();
    sender.send(vec![1u8, 2]).unwrap();
    let mut buffer = Buffer::new(receiver);
    buffer.read_channel().unwrap();
    assert_eq!(buffer.contents().as_slice(), &[1, 2]);
    assert_eq!(buffer.cursor(), 0);
    drop(sender);
    assert_eq!(buffer.read_channel(), Err(IngestError::Truncated));
    assert_eq!(buffer.contents().as_slice(), &[1, 2]);
}

#[test]
fn seek_moves_the_cursor_absolutely_and_relatively() {
    let (sender, receiver) = mpsc::channel();
    sender.send(vec![1u8, 2, 3, 4]).unwrap();
    sender.send(vec![]).unwrap();
    let mut buffer = Buffer::new(receiver);
    let mut out = vec![0u8; 4];
    assert_eq!(buffer.read(&mut out), Ok(4));
    assert_eq!(buffer.seek(SeekTarget::Start(1)), Ok(1));
    let mut one = vec![0u8; 1];
    assert_eq!(buffer.read(&mut one), Ok(1));
    assert_eq!(one, vec![2]);
    assert_eq!(buffer.seek(SeekTarget::Current(-2)), Ok(0));
    assert_eq!(buffer.seek(SeekTarget::Current(-1)), Err(IngestError::InvalidSeek));
    assert_eq!(buffer.cursor(), 0);
}
