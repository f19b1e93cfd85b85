use ptyctl::buffer::OutputBuffer;

#[test]
fn buffer_drops_oldest_on_max_bytes() {
    let mut buffer = OutputBuffer::new(5, 10);
    buffer.append(b"hello");
    buffer.append(b"world");

    assert_eq!(buffer.buffer_start(), 5);
    assert_eq!(buffer.buffer_end(), 10);
    let slice = buffer.slice_from(0, 10);
    assert!(slice.truncated);
    assert_eq!(slice.dropped_bytes, 5);
    assert_eq!(slice.bytes, b"world");
}

#[test]
fn buffer_limits_lines() {
    let mut buffer = OutputBuffer::new(100, 2);
    buffer.append(b"a\nb\nc\n");
    let slice = buffer.slice_from(buffer.buffer_start(), 100);
    assert_eq!(slice.bytes, b"b\nc\n");
}

#[test]
fn tail_respects_max_lines() {
    let mut buffer = OutputBuffer::new(100, 10);
    buffer.append(b"line1\nline2\nline3\n");
    let tail = buffer.tail(100, Some(1));
    assert_eq!(tail.bytes, b"line3\n");
}

#[test]
fn tail_without_line_cap_returns_last_bytes() {
    let mut buffer = OutputBuffer::new(100, 10);
    buffer.append(b"abcdef");
    let tail = buffer.tail(4, None);
    assert_eq!(tail.bytes, b"cdef");
    assert!(tail.truncated);
    assert_eq!(tail.start_cursor, 2);
    let all = buffer.tail(100, None);
    assert_eq!(all.bytes, b"abcdef");
    assert!(!all.truncated);
}

#[test]
fn cursor_reads_chain_without_gap_or_overlap() {
    let mut buffer = OutputBuffer::new(100, 100);
    buffer.append(b"hello");
    buffer.append(b"world");
    let first = buffer.slice_from(0, 3);
    assert_eq!(first.bytes, b"hel");
    let second = buffer.slice_from(3, 100);
    assert_eq!(second.bytes, b"loworld");
    let past_end = buffer.slice_from(10, 100);
    assert!(past_end.bytes.is_empty());
    assert!(!past_end.truncated);
}

#[test]
fn append_reports_eviction_and_keeps_cursor_monotone() {
    let mut buffer = OutputBuffer::new(4, 10);
    let dropped = buffer.append(b"abc");
    assert_eq!(dropped, 0);
    assert_eq!(buffer.buffer_start(), 0);
    let dropped = buffer.append(b"defg");
    assert_eq!(dropped, 3);
    assert_eq!(buffer.buffer_start(), 3);
    assert_eq!(buffer.buffer_end(), 7);
    assert_eq!(buffer.buffered_bytes(), 4);
}

#[test]
fn stale_cursor_reports_exact_drop() {
    let mut buffer = OutputBuffer::new(3, 10);
    buffer.append(b"abcdef");
    let slice = buffer.slice_from(1, 10);
    assert!(slice.truncated);
    assert_eq!(slice.dropped_bytes, 2);
    assert_eq!(slice.bytes, b"def");
    let empty = OutputBuffer::new(3, 10);
    let slice = empty.slice_from(0, 10);
    assert!(!slice.truncated);
    assert_eq!(slice.dropped_bytes, 0);
    assert!(slice.bytes.is_empty());
}

#[test]
fn zero_limits_clamp_to_one() {
    let mut buffer = OutputBuffer::new(0, 0);
    buffer.append(b"xy");
    assert_eq!(buffer.buffered_bytes(), 1);
    let slice = buffer.slice_from(buffer.buffer_start(), 10);
    assert_eq!(slice.bytes, b"y");
    assert_eq!(slice.buffer_limit_bytes, 1);
}

#[test]
fn tail_applies_line_cap_before_byte_cap() {
    let mut buffer = OutputBuffer::new(100, 10);
    buffer.append(b"one\ntwo\nthree\n");
    let tail = buffer.tail(3, Some(1));
    assert_eq!(tail.bytes, b"ee\n");
    assert!(tail.truncated);
    let tail = buffer.tail(100, Some(0));
    assert!(tail.bytes.is_empty());
}
