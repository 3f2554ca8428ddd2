use color_ssh::output_newlines::{normalize_captured_output_chunk, normalize_managed_output_newlines, CapturedOutputNewlineNormalizer};
use color_ssh::terminal_queries::{contains_clear_sequence, terminal_query_responses};

#[test]
fn answers_device_attribute_and_status_queries() {
    let out = terminal_query_responses(b"x\x1b[c y\x1b[>c\x1b[5n\x1b[6n\x1b[0c\x1b[2J");
    assert_eq!(out.len(), 5);
    assert_eq!(out[0], b"\x1b[?62;1;2;6;9;15;22c".to_vec());
    assert_eq!(out[1], b"\x1b[>41;279;0c".to_vec());
    assert_eq!(out[2], b"\x1b[0n".to_vec());
    assert_eq!(out[3], b"\x1b[1;1R".to_vec());
    assert_eq!(out[4], b"\x1b[?62;1;2;6;9;15;22c".to_vec());
}

#[test]
fn plain_output_needs_no_answer() {
    assert!(terminal_query_responses(b"hello world\r\n").is_empty());
    assert!(terminal_query_responses(b"\x1b[").is_empty());
}

#[test]
fn clear_sequences_are_detected() {
    assert!(contains_clear_sequence(b"abc\x1b[2Jdef"));
    assert!(!contains_clear_sequence(b"abc\x1b[Kdef"));
    assert!(!contains_clear_sequence(b""));
}

#[test]
fn bare_line_feeds_get_a_carriage_return() {
    let mut prev = false;
    assert_eq!(normalize_managed_output_newlines(b"a\nb\r\nc\n", &mut prev), b"a\r\nb\r\nc\r\n".to_vec());
    assert!(!prev);
    let mut prev = true;
    assert_eq!(normalize_managed_output_newlines(b"\nx", &mut prev), b"\nx".to_vec());
}

#[test]
fn carriage_return_at_a_chunk_end_carries_over() {
    let mut n = CapturedOutputNewlineNormalizer::new();
    assert_eq!(normalize_captured_output_chunk(&mut n, b"line\r"), b"line\r".to_vec());
    assert!(n.previous_byte_was_carriage_return);
    assert_eq!(normalize_captured_output_chunk(&mut n, b"\nnext\n"), b"\nnext\r\n".to_vec());
    assert!(!n.previous_byte_was_carriage_return);
}

#[test]
fn chunking_does_not_change_the_normalized_stream() {
    let whole = b"a\r\nb\nc\r\r\nd\n";
    let mut prev = false;
    let all_at_once = normalize_managed_output_newlines(whole, &mut prev);
    for split in 0..whole.len() {
        let mut prev = false;
        let mut pieces = normalize_managed_output_newlines(&whole[..split], &mut prev);
        pieces.extend(normalize_managed_output_newlines(&whole[split..], &mut prev));
        assert_eq!(pieces, all_at_once);
    }
}
