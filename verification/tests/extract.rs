use healthz::limits::{CHUNK_LEN, REQUEST_CAP};
use healthz::{Extraction, LineExtractor, ReadOutcome};

/// Feeds the reads in turn and gives the line and the number of reads taken.
fn run(reads: &[ReadOutcome<'_>]) -> (Vec<u8>, usize) {
    let mut extractor = LineExtractor::new();
    let mut taken = 0;
    for read in reads {
        taken += 1;
        let outcome = match read {
            ReadOutcome::Bytes(chunk) => ReadOutcome::Bytes(chunk),
            ReadOutcome::Failed => ReadOutcome::Failed,
        };
        match extractor.feed(outcome) {
            Extraction::More(next) => extractor = next,
            Extraction::Done(line) => return (line, taken),
        }
    }
    panic!("the extraction wants another read");
}

#[test]
fn chunk_len_is_sixteen() {
    assert_eq!(CHUNK_LEN, 16);
}

#[test]
fn extraction_stops_at_the_carriage_return() {
    let (line, taken) = run(&[ReadOutcome::Bytes(b"GET / HTTP/1.1\r\n")]);
    assert_eq!(line, b"GET / HTTP/1.1");
    assert_eq!(taken, 1);
}

#[test]
fn extraction_joins_full_chunks() {
    let (line, taken) = run(&[
        ReadOutcome::Bytes(b"GET /healthz HTT"),
        ReadOutcome::Bytes(b"P/1.1\r\nHost: x\r\n"),
        ReadOutcome::Bytes(b"never read"),
    ]);
    assert_eq!(line, b"GET /healthz HTTP/1.1");
    assert_eq!(taken, 2);
}

#[test]
fn extraction_ends_on_a_short_read() {
    let (line, taken) = run(&[
        ReadOutcome::Bytes(b"0123456789abcdef"),
        ReadOutcome::Bytes(b"0123"),
        ReadOutcome::Bytes(b"never read"),
    ]);
    assert_eq!(line, b"0123456789abcdef0123");
    assert_eq!(taken, 2);
}

#[test]
fn extraction_ends_on_an_empty_read() {
    let (line, taken) = run(&[ReadOutcome::Bytes(b"")]);
    assert!(line.is_empty());
    assert_eq!(taken, 1);

    let (line, taken) =
        run(&[ReadOutcome::Bytes(b"0123456789abcdef"), ReadOutcome::Bytes(b"")]);
    assert_eq!(line, b"0123456789abcdef");
    assert_eq!(taken, 2);
}

#[test]
fn extraction_ends_on_a_failed_read() {
    let (line, taken) = run(&[ReadOutcome::Failed]);
    assert!(line.is_empty());
    assert_eq!(taken, 1);

    let (line, taken) = run(&[
        ReadOutcome::Bytes(b"0123456789abcdef"),
        ReadOutcome::Failed,
        ReadOutcome::Bytes(b"never read"),
    ]);
    assert_eq!(line, b"0123456789abcdef");
    assert_eq!(taken, 2);
}

#[test]
fn extraction_drops_the_carriage_return_at_a_chunk_start() {
    let (line, taken) =
        run(&[ReadOutcome::Bytes(b"0123456789abcdef"), ReadOutcome::Bytes(b"\r\n0123456789abcd")]);
    assert_eq!(line, b"0123456789abcdef");
    assert_eq!(taken, 2);

    let (line, _) = run(&[ReadOutcome::Bytes(b"\rGET / HTTP/1.1")]);
    assert!(line.is_empty());
}

#[test]
fn extraction_keeps_what_stands_before_the_first_carriage_return_only() {
    let (line, _) = run(&[ReadOutcome::Bytes(b"a\rb\rc\r0123456789")]);
    assert_eq!(line, b"a");
    let (line, _) = run(&[ReadOutcome::Bytes(b"line\nmore\r")]);
    assert_eq!(line, b"line\nmore");
}

#[test]
fn extraction_takes_a_line_of_exactly_the_capacity() {
    let chunk = [b'a'; CHUNK_LEN];
    let mut extractor = LineExtractor::new();
    for _ in 0..REQUEST_CAP / CHUNK_LEN {
        extractor = match extractor.feed(ReadOutcome::Bytes(&chunk)) {
            Extraction::More(next) => next,
            Extraction::Done(_) => panic!("the extraction ended before the capacity"),
        };
    }
    let line = match extractor.feed(ReadOutcome::Bytes(b"")) {
        Extraction::More(_) => panic!("the extraction goes on after an empty read"),
        Extraction::Done(line) => line,
    };
    assert_eq!(line.len(), REQUEST_CAP);
    assert!(line.iter().all(|byte| *byte == b'a'));
}

#[test]
fn extraction_cuts_what_exceeds_the_capacity() {
    let chunk = [b'a'; CHUNK_LEN];
    let mut extractor = LineExtractor::new();
    for _ in 0..REQUEST_CAP / CHUNK_LEN {
        extractor = match extractor.feed(ReadOutcome::Bytes(&chunk)) {
            Extraction::More(next) => next,
            Extraction::Done(_) => panic!("the extraction ended before the capacity"),
        };
    }
    let line = match extractor.feed(ReadOutcome::Bytes(b"bbbbbbbbbbbbbbbb")) {
        Extraction::More(_) => panic!("the extraction goes on beyond the capacity"),
        Extraction::Done(line) => line,
    };
    assert_eq!(line.len(), REQUEST_CAP);
    assert!(line.iter().all(|byte| *byte == b'a'));
}

#[test]
fn extraction_cuts_the_last_chunk_to_fit() {
    let chunk = [b'a'; CHUNK_LEN];
    let mut extractor = LineExtractor::new();
    for _ in 0..REQUEST_CAP / CHUNK_LEN - 1 {
        extractor = match extractor.feed(ReadOutcome::Bytes(&chunk)) {
            Extraction::More(next) => next,
            Extraction::Done(_) => panic!("the extraction ended before the capacity"),
        };
    }
    extractor = match extractor.feed(ReadOutcome::Bytes(b"01234567")) {
        Extraction::More(_) => panic!("the extraction goes on after a short read"),
        Extraction::Done(line) => {
            assert_eq!(line.len(), REQUEST_CAP - 8);
            let mut again = LineExtractor::new();
            for _ in 0..REQUEST_CAP / CHUNK_LEN - 1 {
                again = match again.feed(ReadOutcome::Bytes(&chunk)) {
                    Extraction::More(next) => next,
                    Extraction::Done(_) => panic!("the extraction ended before the capacity"),
                };
            }
            again
        },
    };
    let long = [b'b'; 24];
    let line = match extractor.feed(ReadOutcome::Bytes(&long)) {
        Extraction::More(_) => panic!("the extraction goes on beyond the capacity"),
        Extraction::Done(line) => line,
    };
    assert_eq!(line.len(), REQUEST_CAP);
    assert_eq!(&line[REQUEST_CAP - CHUNK_LEN..], b"bbbbbbbbbbbbbbbb");
    assert!(line[..REQUEST_CAP - CHUNK_LEN].iter().all(|byte| *byte == b'a'));
}

#[test]
fn extraction_goes_on_after_a_longer_chunk() {
    let (line, taken) = run(&[
        ReadOutcome::Bytes(b"0123456789abcdefghij"),
        ReadOutcome::Bytes(b"klm\r"),
    ]);
    assert_eq!(line, b"0123456789abcdefghijklm");
    assert_eq!(taken, 2);
}
