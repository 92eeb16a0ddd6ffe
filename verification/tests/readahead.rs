use mrt_ingester::readahead::ChunkBuffer;
use mrt_ingester::{read, Header, Record};

/// A small stream of records: an IS-IS record, a NULL record, a RIP record.
fn sample_stream() -> Vec<u8> {
    let mut data = Vec::new();
    // ISIS (type 32), 5-byte PDU
    data.extend_from_slice(&[0x00, 0x00, 0x00, 0x01]);
    data.extend_from_slice(&[0x00, 0x20, 0x00, 0x00]);
    data.extend_from_slice(&[0x00, 0x00, 0x00, 0x05]);
    data.extend_from_slice(&[0xA1, 0xA2, 0xA3, 0xA4, 0xA5]);
    // NULL (type 0)
    data.extend_from_slice(&[0x00, 0x00, 0x00, 0x02]);
    data.extend_from_slice(&[0x00, 0x00, 0x00, 0x00]);
    data.extend_from_slice(&[0x00, 0x00, 0x00, 0x00]);
    // RIP (type 6), 2-byte message
    data.extend_from_slice(&[0x00, 0x00, 0x00, 0x03]);
    data.extend_from_slice(&[0x00, 0x06, 0x00, 0x00]);
    data.extend_from_slice(&[0x00, 0x00, 0x00, 0x0A]);
    data.extend_from_slice(&[10, 0, 0, 1, 10, 0, 0, 2]);
    data.extend_from_slice(&[0x07, 0x08]);
    data
}

fn decode_all(data: &[u8]) -> Vec<(Header, Record)> {
    let mut out = Vec::new();
    let mut pos: usize = 0;
    while let Some(rec) = read(data, &mut pos).unwrap() {
        out.push(rec);
    }
    out
}

/// Drive a [`ChunkBuffer`] the way the read-ahead consumer does: serve
/// `request`-sized reads, installing the next `chunk_size`d chunk whenever
/// the current one is spent, and the terminal signal at the end.
fn drain_through_chunks(data: &[u8], chunk_size: usize, request: usize) -> Vec<u8> {
    let mut chunks = data.chunks(chunk_size);
    let mut cb = ChunkBuffer::new();
    let mut out = Vec::new();
    loop {
        if cb.has_bytes() {
            let served = cb.take(request);
            out.extend_from_slice(&served);
        } else if cb.is_finished() {
            break;
        } else {
            match chunks.next() {
                Some(c) => cb.push_chunk(c.to_vec()),
                None => cb.finish(),
            }
        }
    }
    // once finished, every further read serves nothing
    assert!(cb.take(request).is_empty());
    out
}

#[test]
fn test_chunked_reads_match_direct_reads() {
    let data = sample_stream();
    let direct = decode_all(&data);
    // chunk size smaller than the stream, with several request sizes
    for chunk_size in [1, 3, 7, 13] {
        for request in [1, 2, 5, 100] {
            let bytes = drain_through_chunks(&data, chunk_size, request);
            assert_eq!(bytes, data);
            assert_eq!(decode_all(&bytes), direct);
        }
    }
}

#[test]
fn test_stream_smaller_than_one_chunk() {
    let data = sample_stream();
    let bytes = drain_through_chunks(&data, 4096, 10);
    assert_eq!(bytes, data);
    assert_eq!(decode_all(&bytes), decode_all(&data));
}

#[test]
fn test_stream_exact_multiple_of_chunk_size() {
    // three NULL records: 36 bytes, an exact multiple of a 12-byte chunk
    let mut data = Vec::new();
    for ts in 1u32..=3 {
        data.extend_from_slice(&ts.to_be_bytes());
        data.extend_from_slice(&[0x00, 0x00, 0x00, 0x00]);
        data.extend_from_slice(&[0x00, 0x00, 0x00, 0x00]);
    }
    let bytes = drain_through_chunks(&data, 12, 5);
    assert_eq!(bytes, data);
    let records = decode_all(&bytes);
    assert_eq!(records.len(), 3);
    assert!(records.iter().all(|(_, r)| matches!(r, Record::NULL)));
}

#[test]
fn test_empty_stream_through_chunks() {
    let data: Vec<u8> = Vec::new();
    let bytes = drain_through_chunks(&data, 16, 4);
    assert!(bytes.is_empty());
    assert!(decode_all(&bytes).is_empty());
}
