use helloui_core::stream::{is_progress_line, split_lines, LineReader, Notification, StreamOrigin};

fn describe(notes: &[Notification]) -> Vec<String> {
    notes
        .iter()
        .map(|n| match n {
            Notification::Progress { text } => format!("progress:{}", text),
            Notification::Output { output } => format!("{}:{}", output.output_type, output.text),
            Notification::Preview { data_url } => format!("preview:{}", data_url),
        })
        .collect()
}

#[test]
fn progress_lines_are_recognised() {
    assert!(is_progress_line("sampling 50%"));
    assert!(is_progress_line("step 3/20"));
    assert!(is_progress_line("Step 3/20"));
    assert!(is_progress_line("footstep"));
    assert!(!is_progress_line("STEP 3/20"));
    assert!(!is_progress_line("loading model"));
    assert!(!is_progress_line(""));
}

#[test]
fn origin_labels() {
    assert_eq!(StreamOrigin::Stdout.label(), "stdout");
    assert_eq!(StreamOrigin::Stderr.label(), "stderr");
}

#[test]
fn split_lines_cuts_at_line_feeds() {
    let (lines, rest) = split_lines(&b"one\ntwo\r\nthr".to_vec());
    assert_eq!(lines, vec![b"one".to_vec(), b"two".to_vec()]);
    assert_eq!(rest, b"thr".to_vec());
    let (lines, rest) = split_lines(&b"\n\n".to_vec());
    assert_eq!(lines, vec![Vec::<u8>::new(), Vec::<u8>::new()]);
    assert!(rest.is_empty());
    let (lines, rest) = split_lines(&Vec::new());
    assert!(lines.is_empty());
    assert!(rest.is_empty());
    let (lines, rest) = split_lines(&b"\r\nx\r".to_vec());
    assert_eq!(lines, vec![Vec::<u8>::new()]);
    assert_eq!(rest, b"x\r".to_vec());
}

#[test]
fn a_plain_line_is_announced_once() {
    let mut r = LineReader::new(StreamOrigin::Stdout);
    let notes = r.accept_line("loading model".to_string());
    assert_eq!(describe(&notes), vec!["stdout:loading model"]);
    assert_eq!(r.tail(10), vec!["loading model"]);
}

#[test]
fn a_progress_line_is_announced_as_progress_first() {
    let mut r = LineReader::new(StreamOrigin::Stderr);
    let notes = r.accept_line("step 1/20 5%".to_string());
    assert_eq!(describe(&notes), vec!["progress:step 1/20 5%", "stderr:step 1/20 5%"]);
}

#[test]
fn feed_joins_chunks_into_lines() {
    let mut r = LineReader::new(StreamOrigin::Stdout);
    assert_eq!(describe(&r.feed(b"hello\nwor")), vec!["stdout:hello"]);
    assert_eq!(
        describe(&r.feed(b"ld 50%\r\nnext")),
        vec!["progress:world 50%", "stdout:world 50%"]
    );
    assert!(r.feed(b"").is_empty());
    assert_eq!(r.tail(10), vec!["hello", "world 50%"]);
}

#[test]
fn a_line_that_is_not_utf8_is_passed_over() {
    let mut r = LineReader::new(StreamOrigin::Stdout);
    let notes = r.feed(b"\xff\xfe\nok\n");
    assert_eq!(describe(&notes), vec!["stdout:ok"]);
    assert_eq!(r.tail(10), vec!["ok"]);
}

#[test]
fn an_unfinished_last_line_is_dropped() {
    let mut r = LineReader::new(StreamOrigin::Stdout);
    let notes = r.feed(b"done\npartial");
    assert_eq!(describe(&notes), vec!["stdout:done"]);
    let buffer = r.finish();
    assert_eq!(buffer.tail(10), vec!["done"]);
}

#[test]
fn the_reader_keeps_at_most_two_hundred_lines() {
    let mut r = LineReader::new(StreamOrigin::Stdout);
    let mut data = Vec::new();
    for i in 0..450 {
        data.extend_from_slice(format!("l{}\n", i).as_bytes());
    }
    let notes = r.feed(&data);
    assert_eq!(notes.len(), 450);
    assert!(r.buffer().len() <= 200);
    assert_eq!(r.tail(1), vec!["l449"]);
}

#[test]
fn multibyte_text_survives_a_split_chunk() {
    let mut r = LineReader::new(StreamOrigin::Stdout);
    let bytes = "héllo ✓\n".as_bytes();
    assert!(r.feed(&bytes[..2]).is_empty());
    assert_eq!(describe(&r.feed(&bytes[2..])), vec!["stdout:héllo ✓"]);
}

#[test]
fn only_well_formed_utf8_is_taken_for_text() {
    let cases: Vec<(&[u8], bool)> = vec![
        (b"plain", true),
        (b"", true),
        (&[0xC3, 0xA9], true),
        (&[0xF4, 0x8F, 0xBF, 0xBF], true),
        (&[0xEF, 0xBF, 0xBF], true),
        (&[0xED, 0x9F, 0xBF], true),
        (&[0xEE, 0x80, 0x80], true),
        (&[0xC0, 0x80], false),
        (&[0xC1, 0xBF], false),
        (&[0xE0, 0x80, 0x80], false),
        (&[0xF0, 0x80, 0x80, 0x80], false),
        (&[0xED, 0xA0, 0x80], false),
        (&[0xED, 0xBF, 0xBF], false),
        (&[0xF4, 0x90, 0x80, 0x80], false),
        (&[0xF5, 0x80, 0x80, 0x80], false),
        (&[0xF8, 0x88, 0x80, 0x80, 0x80], false),
        (&[0x80], false),
        (&[0xC3], false),
        (&[0xE2, 0x82], false),
        (&[0x61, 0xFF], false),
    ];
    for (bytes, accepted) in cases {
        let mut r = LineReader::new(StreamOrigin::Stdout);
        let mut data = bytes.to_vec();
        data.push(b'\n');
        let notes = r.feed(&data);
        assert_eq!(!notes.is_empty(), accepted, "bytes {:x?}", bytes);
        if accepted {
            assert_eq!(r.tail(1), vec![String::from_utf8(bytes.to_vec()).unwrap()]);
        } else {
            assert!(r.tail(1).is_empty());
        }
    }
}
