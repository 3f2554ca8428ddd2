use color_ssh::text_edit::{
    backspace, byte_index_for_char, char_len, delete_char, delete_selection, insert_char, move_cursor_end,
    move_cursor_home, move_cursor_left, move_cursor_right, normalized_selection, select_all, text_equal,
};
use color_ssh::text_format::{format_folder_path, format_vault_time_left, match_counter, parse_folder_path_display, scroll_indicator, trim_text};

#[test]
fn inserting_and_deleting_characters() {
    let mut text = String::from("héllo");
    let mut cursor = 1usize;
    let mut sel = None;
    insert_char(&mut text, &mut cursor, &mut sel, 'X');
    assert_eq!(text, "hXéllo");
    assert_eq!(cursor, 2);
    assert!(backspace(&mut text, &mut cursor, &mut sel));
    assert_eq!(text, "héllo");
    assert_eq!(cursor, 1);
    assert!(delete_char(&mut text, &mut cursor, &mut sel));
    assert_eq!(text, "hllo");
    move_cursor_home(&mut cursor, &mut sel);
    assert_eq!(cursor, 0);
    assert!(!backspace(&mut text, &mut cursor, &mut sel));
    move_cursor_end(&text, &mut cursor, &mut sel);
    assert_eq!(cursor, 4);
    assert!(!delete_char(&mut text, &mut cursor, &mut sel));
}

#[test]
fn select_all_then_delete_empties_the_text() {
    let mut text = String::from("abc");
    let mut cursor = 1usize;
    let mut sel = None;
    select_all(&text, &mut cursor, &mut sel);
    assert_eq!(sel, Some((0, 3)));
    assert!(delete_selection(&mut text, &mut cursor, &mut sel));
    assert_eq!(text, "");
    assert_eq!(cursor, 0);
    assert_eq!(sel, None);
}

#[test]
fn typing_over_a_selection_replaces_it() {
    let mut text = String::from("abcdef");
    let mut cursor = 4usize;
    let mut sel = Some((4, 1));
    insert_char(&mut text, &mut cursor, &mut sel, 'Z');
    assert_eq!(text, "aZef");
    assert_eq!(cursor, 2);
}

#[test]
fn cursor_moves_collapse_the_selection() {
    let text = "abcd";
    let mut cursor = 3usize;
    let mut sel = Some((1, 3));
    move_cursor_left(text, &mut cursor, &mut sel);
    assert_eq!(sel, None);
    let mut cursor = 4usize;
    move_cursor_right(text, &mut cursor, &mut sel);
    assert_eq!(cursor, 4);
}

#[test]
fn selection_is_ordered_and_clamped() {
    assert_eq!(normalized_selection("abc", Some((9, 1))), Some((1, 3)));
    assert_eq!(normalized_selection("abc", Some((2, 2))), None);
    assert_eq!(normalized_selection("abc", None), None);
}

#[test]
fn char_offsets_in_bytes() {
    assert_eq!(char_len("a界c"), 3);
    assert_eq!(byte_index_for_char("a界c", 0), 0);
    assert_eq!(byte_index_for_char("a界c", 2), 4);
    assert_eq!(byte_index_for_char("a界c", 9), 5);
    assert!(text_equal("a界", "a界"));
    assert!(!text_equal("a界", "a"));
}

#[test]
fn vault_time_left_formats() {
    assert_eq!(format_vault_time_left(None), "n/a");
    assert_eq!(format_vault_time_left(Some(0)), "0:00");
    assert_eq!(format_vault_time_left(Some(65)), "1:05");
    assert_eq!(format_vault_time_left(Some(3725)), "1:02:05");
    assert_eq!(format_vault_time_left(Some(36000)), "10:00:00");
}

#[test]
fn match_counter_and_scroll_indicator() {
    assert_eq!(match_counter(0, 0), "0/0");
    assert_eq!(match_counter(2, 17), "3/17");
    assert_eq!(scroll_indicator(0), "");
    assert_eq!(scroll_indicator(120), " +120");
}

#[test]
fn folder_paths_format_and_parse() {
    assert_eq!(format_folder_path(&[]), "/");
    let segs = vec!["prod".to_string(), "db servers".to_string()];
    assert_eq!(format_folder_path(&segs), "/prod/db servers/");
    assert_eq!(parse_folder_path_display(&format_folder_path(&segs)), segs);
    assert_eq!(parse_folder_path_display("  / a //b/ "), vec!["a".to_string(), "b".to_string()]);
    assert!(parse_folder_path_display("/").is_empty());
    assert!(parse_folder_path_display("   ").is_empty());
    assert_eq!(trim_text("\u{3000} x y\t"), "x y");
}
