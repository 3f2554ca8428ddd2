use color_ssh::osc52::{collect_osc52_sequences, find_osc_end};

#[test]
fn osc52_find_osc_end_supports_bel_and_st() {
    assert_eq!(find_osc_end(b"\x1b]52;c;abc\x07"), Some(11));
    assert_eq!(find_osc_end(b"\x1b]52;c;abc\x1b\\"), Some(12));
}

#[test]
fn osc52_collect_osc52_sequences_handles_chunked_input_iteratively() {
    let mut osc_buf = Vec::new();
    let first = collect_osc52_sequences(b"\x1b]52;c;Zm9v", &mut osc_buf);
    assert!(first.is_empty());
    assert!(!osc_buf.is_empty());

    let second = collect_osc52_sequences(b"YmFy\x07after", &mut osc_buf);
    assert_eq!(second.len(), 1);
    assert_eq!(second[0], b"\x1b]52;c;Zm9vYmFy\x07".to_vec());
    assert!(osc_buf.is_empty());
}

#[test]
fn ssh_session_find_osc_end_supports_bel_and_st() {
    assert_eq!(find_osc_end(b"\x1b]52;c;abc\x07"), Some(11));
    assert_eq!(find_osc_end(b"\x1b]52;c;abc\x1b\\"), Some(12));
}

#[test]
fn ssh_session_collect_osc52_sequences_handles_chunked_input_iteratively() {
    let mut osc_buf = Vec::new();
    let first = collect_osc52_sequences(b"\x1b]52;c;Zm9v", &mut osc_buf);
    assert!(first.is_empty());
    assert!(!osc_buf.is_empty());

    let second = collect_osc52_sequences(b"YmFy\x07after", &mut osc_buf);
    assert_eq!(second.len(), 1);
    assert_eq!(second[0], b"\x1b]52;c;Zm9vYmFy\x07".to_vec());
    assert!(osc_buf.is_empty());
}

#[test]
fn find_osc_end_without_terminator_is_none() {
    assert_eq!(find_osc_end(b"\x1b]52;c;abc"), None);
    assert_eq!(find_osc_end(b""), None);
}

#[test]
fn collect_osc52_ignores_other_output_and_other_osc_codes() {
    let mut osc_buf = Vec::new();
    let out = collect_osc52_sequences(b"plain text \x1b]0;title\x07 more", &mut osc_buf);
    assert!(out.is_empty());
    assert!(osc_buf.is_empty());
}

#[test]
fn collect_osc52_finds_two_sequences_in_one_chunk() {
    let mut osc_buf = Vec::new();
    let out = collect_osc52_sequences(b"a\x1b]52;c;QQ==\x07b\x1b]52;p;Qg==\x1b\\c", &mut osc_buf);
    assert_eq!(out.len(), 2);
    assert_eq!(out[0], b"\x1b]52;c;QQ==\x07".to_vec());
    assert_eq!(out[1], b"\x1b]52;p;Qg==\x1b\\".to_vec());
    assert!(osc_buf.is_empty());
}

#[test]
fn osc52_split_reads_match_one_read() {
    let data: &[u8] = b"ab\x1b]52;c;SGVsbG8=\x1b\\xy\x1b]52;p;QQ==\x07z\x1b]52;c;tail";
    let mut whole_buf = Vec::new();
    let whole = collect_osc52_sequences(data, &mut whole_buf);
    for split in 0..=data.len() {
        let straddles = (0..split).any(|i| i + 5 > split && data[i..].starts_with(b"\x1b]52;"));
        if straddles {
            continue;
        }
        let mut buf = Vec::new();
        let mut parts = collect_osc52_sequences(&data[..split], &mut buf);
        parts.extend(collect_osc52_sequences(&data[split..], &mut buf));
        assert_eq!(parts, whole, "split at {split}");
        assert_eq!(buf, whole_buf, "split at {split}");
    }
}

#[test]
fn osc52_buffer_only_holds_an_unterminated_sequence() {
    let chunks: [&[u8]; 4] = [b"x\x1b]52;c;AA", b"AA\x07y\x1b]52;p;B", b"BB", b"\x1b\\done"];
    let mut buf = Vec::new();
    for chunk in chunks {
        let _ = collect_osc52_sequences(chunk, &mut buf);
        assert!(buf.is_empty() || (buf.starts_with(b"\x1b]52;") && find_osc_end(&buf).is_none()));
    }
    assert!(buf.is_empty());
}
