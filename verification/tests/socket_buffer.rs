use conmon::socket_buffer::SocketBuffer;

const BUFFER_SIZE: usize = 8;

/// Writes to a buffer as a read of a socket does.
fn write(buf: &mut SocketBuffer<BUFFER_SIZE>, bytes: &[u8]) {
    assert!(buf.make_space());
    let dst = buf.spare_slice_mut();
    dst[..bytes.len()].copy_from_slice(bytes);
    buf.advance_by(bytes.len());
}

#[test]
fn multiple_writes_combined() {
    let mut buf = SocketBuffer::<BUFFER_SIZE>::new();
    write(&mut buf, b"abc");
    write(&mut buf, b"de");
    assert_eq!(buf.data(), b"abcde");
}

#[test]
fn clear_empties_buffer() {
    let mut buf = SocketBuffer::<BUFFER_SIZE>::new();
    write(&mut buf, b"abc");
    buf.clear();
    assert!(buf.data().is_empty());
}

#[test]
fn peek_line_is_non_consuming_and_returns_first_line() {
    let mut buf = SocketBuffer::<BUFFER_SIZE>::new();

    // No newline - returns None.
    write(&mut buf, b"ab");
    assert_eq!(buf.peek_line(), None);

    // Two lines buffered.
    write(&mut buf, b"\nc\n");

    // Multiple calls are idempotent - only first line returned.
    assert_eq!(buf.peek_line(), Some(&b"ab\n"[..]));
    assert_eq!(buf.peek_line(), Some(&b"ab\n"[..]));

    // data() returns both lines.
    assert_eq!(buf.data(), b"ab\nc\n");
}

#[test]
fn consume_advances_head_then_resets_when_drained() {
    let mut buf = SocketBuffer::<8>::new();
    write(&mut buf, b"a\nbc");

    // Consume 2 bytes, 2 remain.
    buf.consume(2);
    assert_eq!(buf.data(), b"bc");

    // Consume the rest.
    buf.consume(2);

    // No more data to consume.
    assert!(buf.data().is_empty());

    // Buffer is empty.
    assert_eq!(buf.spare_slice_mut().len(), BUFFER_SIZE);
}

#[test]
fn make_space_compacts_reclaimed_space() {
    let mut buf = SocketBuffer::<BUFFER_SIZE>::new();

    // Fill up the buffer.
    write(&mut buf, b"abcdefgh");
    assert_eq!(buf.data().len(), BUFFER_SIZE);

    // Consume some.
    const CONSUMED: usize = 3;
    buf.consume(CONSUMED); // start = 3

    // Data survives compaction.
    assert!(buf.make_space());
    assert_eq!(buf.data(), b"defgh");

    // There is free space now equal to the consumed bytes.
    assert_eq!(buf.spare_slice_mut().len(), CONSUMED);
}

#[test]
fn make_space_fails_when_full() {
    let mut buf = SocketBuffer::<BUFFER_SIZE>::new();
    write(&mut buf, b"abcdefgh");
    assert!(!buf.make_space());
}

#[test]
fn capacity_is_the_size_of_the_storage() {
    let mut buf = SocketBuffer::<BUFFER_SIZE>::new();
    assert_eq!(buf.capacity(), 8);
    write(&mut buf, b"abc");
    assert_eq!(buf.capacity(), 8);
    assert_eq!((buf.start(), buf.end()), (0, 3));
}

#[test]
fn compact_moves_data_to_the_front() {
    let mut buf = SocketBuffer::<BUFFER_SIZE>::new();
    write(&mut buf, b"abcdef");
    buf.consume(4);
    assert_eq!((buf.start(), buf.end()), (4, 6));
    buf.compact();
    assert_eq!((buf.start(), buf.end()), (0, 2));
    assert_eq!(buf.data(), b"ef");
}

#[test]
fn make_space_leaves_a_buffer_with_room_alone() {
    let mut buf = SocketBuffer::<BUFFER_SIZE>::new();
    write(&mut buf, b"abcdef");
    buf.consume(4);
    assert!(buf.make_space());
    assert_eq!((buf.start(), buf.end()), (4, 6));
}

#[test]
fn lines_and_the_rest_make_up_what_was_buffered() {
    let mut buf = SocketBuffer::<BUFFER_SIZE>::new();
    write(&mut buf, b"a\n\nbc\nd");
    let mut taken: Vec<u8> = Vec::new();
    let mut lines = 0;
    while let Some(line) = buf.peek_line() {
        let len = line.len();
        taken.extend_from_slice(line);
        buf.consume(len);
        lines += 1;
    }
    assert_eq!(lines, 3);
    assert_eq!(taken, b"a\n\nbc\n");
    assert_eq!(buf.data(), b"d");
}

#[test]
fn a_complete_line_is_not_changed_by_later_bytes() {
    let mut buf = SocketBuffer::<BUFFER_SIZE>::new();
    write(&mut buf, b"x\n");
    assert_eq!(buf.peek_line(), Some(&b"x\n"[..]));
    write(&mut buf, b"y\nz");
    assert_eq!(buf.peek_line(), Some(&b"x\n"[..]));
}

#[test]
fn a_buffer_without_storage_is_always_full() {
    let mut buf = SocketBuffer::<0>::new();
    assert!(!buf.make_space());
    assert!(buf.data().is_empty());
    assert_eq!(buf.capacity(), 0);
}
