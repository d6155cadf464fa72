use sandbox_exec::collector::{read_capped, OutputCollector};
use sandbox_exec::exec::{MAX_STREAM_OUTPUT, MAX_STREAM_OUTPUT_LINES};

#[test]
fn short_stream_is_kept_whole() {
    let mut c = OutputCollector::new(MAX_STREAM_OUTPUT, MAX_STREAM_OUTPUT_LINES);
    c.push_chunk(b"hi\n");
    assert!(!c.is_full());
    assert_eq!(c.into_bytes(), b"hi\n".to_vec());
}

#[test]
fn byte_cap_binds_first() {
    let mut c = OutputCollector::new(MAX_STREAM_OUTPUT, MAX_STREAM_OUTPUT_LINES);
    let chunk = vec![b'a'; 8192];
    c.push_chunk(&chunk);
    c.push_chunk(&chunk);
    c.push_chunk(&chunk);
    assert!(c.is_full());
    let kept = c.into_bytes();
    assert_eq!(kept.len(), 10 * 1024);
    assert!(kept.iter().all(|b| *b == b'a'));
}

#[test]
fn line_cap_binds_first() {
    let mut c = OutputCollector::new(MAX_STREAM_OUTPUT, MAX_STREAM_OUTPUT_LINES);
    let mut stream = Vec::new();
    for _ in 0..300 {
        stream.extend_from_slice(b"x\n");
    }
    c.push_chunk(&stream);
    let kept = c.into_bytes();
    assert_eq!(kept.len(), 512);
    assert_eq!(kept.iter().filter(|b| **b == b'\n').count(), 256);
    assert_eq!(*kept.last().unwrap(), b'\n');
}

#[test]
fn output_over_both_caps_stays_within_both() {
    let mut stream = Vec::new();
    for i in 0..5000 {
        stream.extend_from_slice(format!("line number {}\n", i).as_bytes());
    }
    assert!(stream.len() > MAX_STREAM_OUTPUT);
    let chunks: Vec<Vec<u8>> = stream.chunks(8192).map(|c| c.to_vec()).collect();
    let kept = read_capped(&chunks, MAX_STREAM_OUTPUT, MAX_STREAM_OUTPUT_LINES);
    assert!(kept.len() <= MAX_STREAM_OUTPUT);
    assert!(kept.iter().filter(|b| **b == b'\n').count() <= MAX_STREAM_OUTPUT_LINES);
    assert_eq!(&stream[..kept.len()], &kept[..]);
    // Lines are about 15 bytes long, so the line cap binds here.
    assert_eq!(kept.iter().filter(|b| **b == b'\n').count(), 256);
}

#[test]
fn chunking_does_not_matter() {
    let mut stream = Vec::new();
    for i in 0..40 {
        stream.extend_from_slice(format!("{}\n", i).as_bytes());
    }
    let whole = read_capped(&vec![stream.clone()], 50, 12);
    for size in [1usize, 2, 3, 7, 64] {
        let chunks: Vec<Vec<u8>> = stream.chunks(size).map(|c| c.to_vec()).collect();
        assert_eq!(read_capped(&chunks, 50, 12), whole);
    }
    assert_eq!(whole, b"0\n1\n2\n3\n4\n5\n6\n7\n8\n9\n10\n11\n".to_vec());
}

#[test]
fn zero_caps_keep_nothing() {
    assert_eq!(read_capped(&vec![b"abc".to_vec()], 0, 10), Vec::<u8>::new());
    assert_eq!(read_capped(&vec![b"abc".to_vec()], 10, 0), Vec::<u8>::new());
    assert_eq!(read_capped(&vec![], 10, 10), Vec::<u8>::new());
}

#[test]
fn every_chunk_is_accepted_after_the_cap() {
    let mut c = OutputCollector::new(4, 10);
    c.push_chunk(b"abcdef");
    assert!(c.is_full());
    for _ in 0..100 {
        c.push_chunk(b"more and more");
    }
    assert_eq!(c.into_bytes(), b"abcd".to_vec());
}
