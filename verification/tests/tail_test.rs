use rust_ci::handlers::tail::{last_lines_offset, TailScan, TailStep, TAIL_CHUNK};

#[test]
fn empty_content_starts_at_zero() {
    assert_eq!(last_lines_offset(b"", 5), 0);
    assert_eq!(last_lines_offset(b"", 0), 0);
}

#[test]
fn fewer_lines_than_wanted_shows_everything() {
    assert_eq!(last_lines_offset(b"a\nb\nc\n", 5), 0);
    assert_eq!(last_lines_offset(b"a\nb\nc\n", 3), 0);
}

#[test]
fn last_lines_start_after_a_newline() {
    // "a\nb\nc\n": the last two lines are "b\nc\n", starting at 2.
    assert_eq!(last_lines_offset(b"a\nb\nc\n", 2), 2);
    assert_eq!(last_lines_offset(b"a\nb\nc\n", 1), 4);
    // Zero lines: just past the last newline.
    assert_eq!(last_lines_offset(b"a\nb\nc\n", 0), 6);
    // Without a trailing newline, the unterminated line counts as part of the tail.
    assert_eq!(last_lines_offset(b"a\nb\nc", 1), 2);
}

#[test]
fn newlines_across_chunks() {
    let mut content = vec![b'x'; 3 * TAIL_CHUNK + 17];
    content[5] = b'\n';
    content[TAIL_CHUNK + 3] = b'\n';
    content[2 * TAIL_CHUNK + 100] = b'\n';
    let len = content.len();
    assert_eq!(last_lines_offset(&content, 0), (2 * TAIL_CHUNK + 101) as u64);
    assert_eq!(last_lines_offset(&content, 1), (TAIL_CHUNK + 4) as u64);
    assert_eq!(last_lines_offset(&content, 2), 6);
    assert_eq!(last_lines_offset(&content, 3), 0);
    assert!(len > 3 * TAIL_CHUNK);
}

#[test]
fn five_thousand_lines_window() {
    let mut content = Vec::new();
    for i in 0..6000u32 {
        content.extend_from_slice(format!("line {}\n", i).as_bytes());
    }
    let start = last_lines_offset(&content, 5000) as usize;
    let shown = std::str::from_utf8(&content[start..]).unwrap();
    assert_eq!(shown.lines().count(), 5000);
    assert!(shown.starts_with("line 1000\n"));
}

#[test]
fn scan_asks_for_chunks_from_the_end() {
    let (scan, step) = TailScan::start(20000, 1);
    assert_eq!(step, TailStep::Read { offset: 20000 - 8192, len: 8192 });
    let mut scan = scan;
    let chunk = vec![b'y'; 8192];
    let step = scan.feed(&chunk);
    assert_eq!(step, TailStep::Read { offset: 20000 - 2 * 8192, len: 8192 });
    let step = scan.feed(&chunk);
    assert_eq!(step, TailStep::Read { offset: 0, len: 20000 - 2 * 8192 });
    let mut last = vec![b'y'; 20000 - 2 * 8192];
    last[10] = b'\n';
    last[20] = b'\n';
    assert_eq!(scan.feed(&last), TailStep::Done(11));
}

#[test]
fn scan_of_empty_file_is_done() {
    let (_, step) = TailScan::start(0, 5000);
    assert_eq!(step, TailStep::Done(0));
}

#[test]
fn scan_without_enough_newlines_ends_at_zero() {
    let (mut scan, step) = TailScan::start(3, 5);
    assert_eq!(step, TailStep::Read { offset: 0, len: 3 });
    assert_eq!(scan.feed(b"a\nb"), TailStep::Done(0));
}
