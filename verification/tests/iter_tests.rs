use pngme::chunk::ChunkIter;

fn valid_chunk() -> Vec<u8> {
    let data_length: u32 = 11;
    let chunk_type = "ItEr".as_bytes();
    let message = "Hello World".as_bytes();
    let crc: u32 = 3520753346;

    data_length
        .to_be_bytes()
        .iter()
        .chain(chunk_type.iter())
        .chain(message.iter())
        .chain(crc.to_be_bytes().iter())
        .copied()
        .collect()
}

fn invalid_chunk() -> Vec<u8> {
    let data_length: u32 = 11; // Valid
    let chunk_type = "iter".as_bytes(); // Invalid
    let message = "Hello World".as_bytes();
    let crc: u32 = 1234; // Invalid

    data_length
        .to_be_bytes()
        .iter()
        .chain(chunk_type.iter())
        .chain(message.iter())
        .chain(crc.to_be_bytes().iter())
        .copied()
        .collect()
}

#[test]
fn test_valid_chunks() {
    let bytes: Vec<u8> = vec![valid_chunk(), valid_chunk(), valid_chunk()]
        .into_iter()
        .flatten()
        .collect();

    let ref_chunk = valid_chunk();
    let mut iter = ChunkIter::new(bytes.as_slice());
    while let Some(chunk) = iter.next() {
        assert!(chunk.is_ok());
        assert_eq!(chunk.unwrap().as_bytes().as_slice(), ref_chunk.as_slice());
    }
}

#[test]
fn test_invalid_chunks() {
    let bytes: Vec<u8> = vec![valid_chunk(), invalid_chunk(), valid_chunk()]
        .into_iter()
        .flatten()
        .collect();

    let ref_chunk = valid_chunk();
    let mut iter = ChunkIter::new(bytes.as_slice());

    let first = iter.next().unwrap();
    assert!(first.is_ok());
    assert_eq!(first.unwrap().as_bytes().as_slice(), ref_chunk.as_slice());

    let second = iter.next().unwrap();
    assert!(second.is_err());

    let third = iter.next();
    assert!(third.is_none());
}

#[test]
fn test_invalid_length() {
    let bytes = valid_chunk();
    let big_chunk: Vec<u8> = 12345678u32
        .to_be_bytes()
        .into_iter()
        .chain((&bytes[4..]).iter().copied())
        .chain(valid_chunk().into_iter())
        .collect();

    let mut iter = ChunkIter::new(big_chunk.as_slice());

    assert!(iter.next().unwrap().is_err());
    assert!(iter.next().is_none());
}

#[test]
fn test_empty_buffer() {
    assert!(ChunkIter::new(&[]).next().is_none());
}
