//! Opening, focusing and closing tabs outside key and mouse handling: a
//! session tab after a launch, a host editor tab, and closing an editor
//! once it saved or deleted its entry.

use vstd::prelude::*;
use crate::mouse_routing::{
    ManagerView, TabView, focused, visible, tabs_sound, same_frame, focus_manager_panel,
    make_tab_visible, tab_widths, lemma_tabs_sound_after_edit, lemma_tabs_fit,
};

verus! {

/// The UI after a new tab was added at the end: it is selected, and the
/// focus leaves the host panel and its search.
pub open spec fn tab_pushed(ui: ManagerView, tabs: Seq<TabView>, tab: TabView) -> (ManagerView, Seq<TabView>) {
    let all = tabs.push(tab);
    (ManagerView { selected_tab: (all.len() - 1) as usize, focus_on_manager: false, search_mode: false, ..ui }, all)
}

/// Add `tab` at the end of the tab list and select it.
pub fn push_host_tab(ui: &mut ManagerView, tabs: &mut Vec<TabView>, tab: TabView)
    requires
        tabs_sound(old(tabs)@.push(tab)),
    ensures
        ({
            let r = tab_pushed(*old(ui), old(tabs)@, tab);
            &&& *final(ui) == r.0
            &&& final(tabs)@ == r.1
        }),
        tabs_sound(final(tabs)@),
        same_frame(*old(ui), *final(ui)),
{
    tabs.push(tab);
    ui.selected_tab = tabs.len() - 1;
    ui.focus_on_manager = false;
    ui.search_mode = false;
}

/// The UI after the editor tab at `existing` (if the entry already has one)
/// was focused, or a new one was added: selected, focused, and scrolled
/// into the tab bar.
pub open spec fn editor_tab_opened(ui: ManagerView, tabs: Seq<TabView>, existing: Option<usize>, tab: TabView) -> (ManagerView, Seq<TabView>) {
    match existing {
        Some(i) if i < tabs.len() => {
            let ui2 = ManagerView { selected_tab: i, focus_on_manager: false, search_mode: false, ..ui };
            (visible(ui2, tabs), tabs)
        },
        _ => {
            let (ui2, all) = tab_pushed(ui, tabs, tab);
            (visible(ui2, all), all)
        },
    }
}

/// Focus the editor tab at `existing`, or add `tab` as a new editor tab.
pub fn open_or_focus_editor_tab(ui: &mut ManagerView, tabs: &mut Vec<TabView>, existing: Option<usize>, tab: TabView)
    requires
        tabs_sound(old(tabs)@),
        tabs_sound(old(tabs)@.push(tab)),
    ensures
        ({
            let r = editor_tab_opened(*old(ui), old(tabs)@, existing, tab);
            &&& *final(ui) == r.0
            &&& final(tabs)@ == r.1
        }),
        tabs_sound(final(tabs)@),
        same_frame(*old(ui), *final(ui)),
{
    match existing {
        Some(i) => {
            if i < tabs.len() {
                ui.selected_tab = i;
                ui.focus_on_manager = false;
                ui.search_mode = false;
                proof {
                    lemma_tabs_fit(tabs@);
                }
                let widths = tab_widths(tabs);
                make_tab_visible(ui, &widths, Ghost(tabs@));
                return;
            }
        },
        None => {},
    }
    push_host_tab(ui, tabs, tab);
    proof {
        lemma_tabs_fit(tabs@);
    }
    let widths = tab_widths(tabs);
    make_tab_visible(ui, &widths, Ghost(tabs@));
}

/// The UI after the selected tab, an editor tab, was closed: the selection
/// moves back when it was the last tab, and the host panel takes the focus
/// when no tab is left. Nothing changes when the selected tab is not an
/// editor (`is_editor`) or no tab is selected.
pub open spec fn editor_tab_closed(ui: ManagerView, tabs: Seq<TabView>, is_editor: bool) -> (ManagerView, Seq<TabView>) {
    if tabs.len() == 0 || ui.selected_tab >= tabs.len() || !is_editor {
        (ui, tabs)
    } else {
        let rest = tabs.remove(ui.selected_tab as int);
        let sel = if ui.selected_tab >= rest.len() && ui.selected_tab > 0 { (ui.selected_tab - 1) as usize } else { ui.selected_tab };
        let ui2 = ManagerView { selected_tab: sel, ..ui };
        (if rest.len() == 0 { focused(ui2) } else { visible(ui2, rest) }, rest)
    }
}

/// Close the selected tab when it is an editor tab.
pub fn close_selected_editor_tab(ui: &mut ManagerView, tabs: &mut Vec<TabView>, is_editor: bool) -> (closed: bool)
    requires
        tabs_sound(old(tabs)@),
    ensures
        ({
            let r = editor_tab_closed(*old(ui), old(tabs)@, is_editor);
            &&& *final(ui) == r.0
            &&& final(tabs)@ == r.1
        }),
        closed == (old(tabs)@.len() > 0 && old(ui).selected_tab < old(tabs)@.len() && is_editor),
        tabs_sound(final(tabs)@),
        same_frame(*old(ui), *final(ui)),
{
    if tabs.len() == 0 || ui.selected_tab >= tabs.len() || !is_editor {
        return false;
    }
    let idx = ui.selected_tab;
    proof {
        lemma_tabs_sound_after_edit(tabs@, idx as int, 0);
    }
    let _ = tabs.remove(idx);
    if ui.selected_tab >= tabs.len() && ui.selected_tab > 0 {
        ui.selected_tab = ui.selected_tab - 1;
    }
    if tabs.len() == 0 {
        focus_manager_panel(ui);
    } else {
        proof {
            lemma_tabs_fit(tabs@);
        }
        let widths = tab_widths(tabs);
        make_tab_visible(ui, &widths, Ghost(tabs@));
    }
    true
}

/// Opening a new editor tab and closing it again gives back the tab list
/// as it was.
pub proof fn lemma_open_then_close_editor_tab(ui: ManagerView, tabs: Seq<TabView>, tab: TabView)
    requires
        tabs.len() < usize::MAX,
    ensures
        ({
            let opened = editor_tab_opened(ui, tabs, None, tab);
            editor_tab_closed(opened.0, opened.1, true).1 == tabs
        }),
{
    reveal(visible);
    let opened = editor_tab_opened(ui, tabs, None, tab);
    assert(opened.1 == tabs.push(tab));
    assert(opened.0.selected_tab == tabs.len());
    assert(tabs.push(tab).remove(tabs.len() as int) =~= tabs);
}

} // verus!
