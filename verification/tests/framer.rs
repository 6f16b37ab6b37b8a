use spewcap::framer::Buffer;

fn drain(b: &mut Buffer) -> Vec<Vec<u8>> {
    let mut lines = Vec::new();
    while let Some(line) = b.get_line() {
        lines.push(line);
    }
    lines
}

#[test]
fn line_split_across_chunks() {
    // Bytes b"AB", then b"C\nDE", then b"F\n", fed as three write+drain+compact
    // cycles, must yield exactly the two lines "ABC\n" and "DEF\n".
    let mut b = Buffer::new();
    let mut all_lines: Vec<Vec<u8>> = Vec::new();

    b.write(b"AB", 2);
    all_lines.extend(drain(&mut b));
    b.shift_remaining();

    b.write(b"C\nDE", 4);
    all_lines.extend(drain(&mut b));
    b.shift_remaining();

    b.write(b"F\n", 2);
    all_lines.extend(drain(&mut b));
    b.shift_remaining();

    assert_eq!(all_lines.len(), 2);
    assert_eq!(all_lines[0], b"ABC\n".to_vec());
    assert_eq!(all_lines[1], b"DEF\n".to_vec());
}

#[test]
fn drain_then_compact_preserves_suffix() {
    let mut b = Buffer::new();
    b.write(b"hello\nworld", 11);
    assert_eq!(b.get_line(), Some(b"hello\n".to_vec()));
    assert_eq!(b.get_line(), None);
    b.shift_remaining();
    b.write(b"!\n", 2);
    assert_eq!(b.get_line(), Some(b"world!\n".to_vec()));
    assert_eq!(b.get_line(), None);
}

#[test]
fn empty_write_is_a_no_op() {
    let mut b = Buffer::new();
    b.write(b"", 0);
    assert_eq!(b.get_line(), None);
    b.write(b"ok\n", 3);
    assert_eq!(b.get_line(), Some(b"ok\n".to_vec()));
}

#[test]
fn write_uses_only_the_given_size() {
    let mut b = Buffer::new();
    // Only the first 3 bytes of the chunk count, as after a bounded read into
    // a larger transfer buffer.
    b.write(b"ab\nzzzz", 3);
    assert_eq!(b.get_line(), Some(b"ab\n".to_vec()));
    assert_eq!(b.get_line(), None);
}

#[test]
fn overflow_drops_excess_until_compact_frees_space() {
    let mut b = Buffer::new();
    // Fill the buffer completely: a consumed line of 2 bytes, then 1022
    // bytes of an unfinished line.
    b.write(b"a\n", 2);
    let filler = vec![b'x'; 1022];
    b.write(&filler, 1022);
    assert_eq!(b.get_line(), Some(b"a\n".to_vec()));
    assert_eq!(b.get_line(), None);

    // The buffer is at capacity: this newline is dropped silently.
    b.write(b"Z\n", 2);
    assert_eq!(b.get_line(), None);

    // Compaction frees the 2 consumed bytes; the same write now fits and
    // completes the pending 1022-byte line.
    b.shift_remaining();
    b.write(b"Z\n", 2);
    let line = b.get_line().expect("line must be complete now");
    assert_eq!(line.len(), 1024);
    assert_eq!(&line[..1022], &filler[..]);
    assert_eq!(&line[1022..], b"Z\n");
    assert_eq!(b.get_line(), None);
}

#[test]
fn long_line_without_newline_is_truncated_forever() {
    let mut b = Buffer::new();
    // A line longer than the capacity can never be completed: the trailing
    // bytes beyond capacity are lost.
    let huge = vec![b'y'; 2000];
    b.write(&huge, 2000);
    assert_eq!(b.get_line(), None);
    b.shift_remaining();
    // Still full: the newline is dropped too, the line stays incomplete.
    b.write(b"\n", 1);
    assert_eq!(b.get_line(), None);
}

#[test]
fn partial_line_is_kept_across_writes() {
    let mut b = Buffer::new();
    b.write(b"no newline yet", 14);
    assert_eq!(b.get_line(), None);
    b.shift_remaining();
    b.write(b" and done\n", 10);
    assert_eq!(b.get_line(), Some(b"no newline yet and done\n".to_vec()));
}
