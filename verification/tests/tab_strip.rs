use color_ssh::tab_strip::{
    close_current_tab, ensure_tab_visible, final_right_tab_scroll_offset, move_tab, next_tab_scroll_offset,
    normalize_tab_scroll_offset, prev_tab_scroll_offset, tab_bar_hit_test, tab_display_width, TabBarHit,
};

fn widths_of_titles(titles: &[&str]) -> Vec<usize> {
    titles.iter().map(|t| tab_display_width(t.chars().count())).collect()
}

#[test]
fn normalizes_tab_scroll_offset_by_snapping_and_clamping() {
    let widths = widths_of_titles(&["aaa", "bbb", "ccc"]);
    assert_eq!(normalize_tab_scroll_offset(&widths, 7, 8), 6);
    assert_eq!(normalize_tab_scroll_offset(&widths, 999, 8), 12);
}

#[test]
fn computes_prev_and_next_tab_scroll_offsets_with_overflow() {
    let widths = widths_of_titles(&["aaa", "bbb", "ccc"]);
    assert_eq!(prev_tab_scroll_offset(&widths, 6, 8), Some(0));
    assert_eq!(next_tab_scroll_offset(&widths, 6, 8), Some(12));
    assert_eq!(next_tab_scroll_offset(&widths, 12, 8), None);
}

#[test]
fn computes_final_right_offset_with_wide_titles() {
    // "a界" is three cells wide: one narrow and one wide character.
    let widths = vec![tab_display_width(3), tab_display_width(4), tab_display_width(2)];
    assert_eq!(final_right_tab_scroll_offset(&widths, 10), 13);
}

#[test]
fn no_overflow_means_no_scrolling() {
    let widths = widths_of_titles(&["a", "b"]);
    assert_eq!(final_right_tab_scroll_offset(&widths, 80), 0);
    assert_eq!(normalize_tab_scroll_offset(&widths, 5, 80), 0);
    assert_eq!(prev_tab_scroll_offset(&widths, 0, 80), None);
    assert_eq!(next_tab_scroll_offset(&widths, 0, 80), None);
}

#[test]
fn hit_test_finds_titles_close_markers_and_overflow_markers() {
    let widths = widths_of_titles(&["aaa", "bbb", "ccc"]);
    let mut offset = 0usize;
    // Bar at x = 10, 8 cells wide: "aaa" spans local 0..6, close marker at 4.
    assert_eq!(tab_bar_hit_test(&widths, 10, 8, &mut offset, 10), Some(TabBarHit::TabTitle(0)));
    assert_eq!(tab_bar_hit_test(&widths, 10, 8, &mut offset, 14), Some(TabBarHit::TabClose(0)));
    assert_eq!(tab_bar_hit_test(&widths, 10, 8, &mut offset, 17), Some(TabBarHit::RightOverflow));
    let mut offset = 7usize;
    assert_eq!(tab_bar_hit_test(&widths, 10, 8, &mut offset, 10), Some(TabBarHit::LeftOverflow));
    assert_eq!(offset, 6);
}

#[test]
fn moving_a_tab_keeps_the_selected_tab() {
    let mut tabs = vec!["a", "b", "c", "d"];
    let mut selected = 2usize;
    assert!(move_tab(&mut tabs, &mut selected, 0, 3));
    assert_eq!(tabs, vec!["b", "c", "d", "a"]);
    assert_eq!(tabs[selected], "c");
    assert!(!move_tab(&mut tabs, &mut selected, 1, 1));
    assert!(!move_tab(&mut tabs, &mut selected, 0, 9));
}

#[test]
fn closing_the_last_tab_moves_the_selection_back() {
    let mut tabs = vec!["a", "b", "c"];
    let mut selected = 2usize;
    assert!(close_current_tab(&mut tabs, &mut selected));
    assert_eq!(tabs, vec!["a", "b"]);
    assert_eq!(selected, 1);
    let mut selected = 5usize;
    assert!(!close_current_tab(&mut tabs, &mut selected));
}

#[test]
fn ensure_tab_visible_scrolls_to_a_hidden_tab() {
    let widths = widths_of_titles(&["aaa", "bbb", "ccc"]);
    assert_eq!(ensure_tab_visible(&widths, 2, 0, 8), 12);
    assert_eq!(ensure_tab_visible(&widths, 0, 6, 8), 0);
    assert_eq!(ensure_tab_visible(&widths, 1, 6, 8), 6);
    assert_eq!(ensure_tab_visible(&[], 0, 6, 8), 0);
}

#[test]
fn normalized_offsets_are_tab_starts_and_stable() {
    let widths = [8usize, 12, 5, 20, 9];
    let starts = [0usize, 8, 20, 25, 45];
    for available in [10usize, 25, 40] {
        for raw in 0..80usize {
            let r = normalize_tab_scroll_offset(&widths, raw, available);
            assert!(starts.contains(&r));
            assert!(r <= raw);
            assert_eq!(normalize_tab_scroll_offset(&widths, r, available), r);
        }
    }
}
