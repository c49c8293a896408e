use mkf::capture::CaptureMode;
use mkf::capture::capture_contents;
use mkf::readline::unbuffered_readline;

fn text_mode(marker: &[u8]) -> CaptureMode {
    CaptureMode::Text { marker: marker.to_vec() }
}

#[test]
fn binary_mode_is_identity() {
    let input: Vec<u8> = vec![0, 1, 2, 255, 10, 13, 10, 0, 42];
    let out = capture_contents(&input, &CaptureMode::Binary);
    assert_eq!(out, input);
}

#[test]
fn binary_mode_keeps_empty_input_empty() {
    let input: Vec<u8> = Vec::new();
    let out = capture_contents(&input, &CaptureMode::Binary);
    assert!(out.is_empty());
}

#[test]
fn binary_mode_ignores_marker_looking_text() {
    let input = b"a\nEND\nb\n".to_vec();
    let out = capture_contents(&input, &CaptureMode::Binary);
    assert_eq!(out, input);
}

#[test]
fn text_mode_stops_at_marker() {
    let input = b"a\nb\nEND\nc\n".to_vec();
    let out = capture_contents(&input, &text_mode(b"END"));
    assert_eq!(out, b"a\nb\n".to_vec());
}

#[test]
fn text_mode_without_marker_line_writes_everything() {
    let input = b"one\ntwo\nthree\n".to_vec();
    let out = capture_contents(&input, &text_mode(b"END"));
    assert_eq!(out, input);
}

#[test]
fn text_mode_marker_on_first_line_writes_nothing() {
    let input = b"END\nrest\n".to_vec();
    let out = capture_contents(&input, &text_mode(b"END"));
    assert!(out.is_empty());
}

#[test]
fn text_mode_matches_marker_on_final_partial_line() {
    // The final line has no trailing newline; the comparison still sees
    // exactly the marker, so nothing of that line is written.
    let input = b"a\nEND".to_vec();
    let out = capture_contents(&input, &text_mode(b"END"));
    assert_eq!(out, b"a\n".to_vec());
}

#[test]
fn text_mode_keeps_final_partial_line_as_read() {
    let input = b"a\nb".to_vec();
    let out = capture_contents(&input, &text_mode(b"END"));
    assert_eq!(out, input);
}

#[test]
fn text_mode_needs_exact_equality() {
    // Neither a prefix nor a padded variant of the marker stops the capture.
    let input = b"EN\nENDX\n END\nEND\nafter\n".to_vec();
    let out = capture_contents(&input, &text_mode(b"END"));
    assert_eq!(out, b"EN\nENDX\n END\n".to_vec());
}

#[test]
fn text_mode_empty_marker_stops_at_blank_line() {
    let input = b"x\n\ny\n".to_vec();
    let out = capture_contents(&input, &text_mode(b""));
    assert_eq!(out, b"x\n".to_vec());
}

#[test]
fn text_mode_marker_with_newline_never_matches() {
    // No line, once its trailing newline is stripped, can hold a newline, so
    // such a marker never stops the capture.
    let input = b"a\nb\nc\n".to_vec();
    let out = capture_contents(&input, &text_mode(b"a\nb"));
    assert_eq!(out, input);
}

#[test]
fn text_mode_empty_input_writes_nothing() {
    let input: Vec<u8> = Vec::new();
    let out = capture_contents(&input, &text_mode(b"END"));
    assert!(out.is_empty());
}

#[test]
fn readline_stops_at_newline() {
    let stream = b"hello\nworld\n".to_vec();
    assert_eq!(unbuffered_readline(&stream), b"hello".to_vec());
}

#[test]
fn readline_takes_everything_without_newline() {
    let stream = b"no newline".to_vec();
    assert_eq!(unbuffered_readline(&stream), b"no newline".to_vec());
}

#[test]
fn readline_of_empty_stream_is_empty() {
    let stream: Vec<u8> = Vec::new();
    assert!(unbuffered_readline(&stream).is_empty());
}
