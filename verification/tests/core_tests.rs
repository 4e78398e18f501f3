use joshuto_core::dirlist::DirectoryList;
use joshuto_core::entry::{DirectoryEntry, EntryKind, EntryMetadata};
use joshuto_core::matcher::MatchState;
use joshuto_core::select::{select_by_names, select_files, SelectOption};
use joshuto_core::state::{AppState, MessageLevel, Tab, TabState};

fn meta() -> EntryMetadata {
    EntryMetadata { kind: EntryKind::File, size: 0, modified: 0, permissions: 0o644 }
}

fn entry(name: &str, selected: bool) -> DirectoryEntry {
    DirectoryEntry::new(
        name.to_string(),
        format!("/tmp/{}", name),
        meta(),
        selected,
    )
}

fn app_with(names_selected: &[(&str, bool)]) -> AppState {
    let entries: Vec<DirectoryEntry> =
        names_selected.iter().map(|(n, s)| entry(n, *s)).collect();
    let list = DirectoryList::new("/tmp".to_string(), entries);
    let tab = Tab::new("/tmp".to_string(), Some(list));
    AppState::new(TabState::new(tab))
}

fn flags(app: &AppState) -> Vec<bool> {
    app.tab_state.tabs[app.tab_state.index]
        .curr_list
        .as_ref()
        .unwrap()
        .contents
        .iter()
        .map(|e| e.selected)
        .collect()
}

fn cursor(app: &AppState) -> Option<usize> {
    app.tab_state.tabs[app.tab_state.index].curr_list.as_ref().unwrap().index
}

fn last_message(app: &AppState) -> &joshuto_core::state::Message {
    app.message_queue.contents.last().unwrap()
}

#[test]
fn viewport_middle_of_long_list() {
    let entries: Vec<DirectoryEntry> = (0..10).map(|i| entry(&format!("f{}", i), false)).collect();
    let mut list = DirectoryList::new("/tmp".to_string(), entries);
    list.index = Some(5);
    let s = list.first_index_for_viewport(4, 1);
    assert_eq!(s, 3);
    assert!(s <= 5 && 5 < s + 4);
}

#[test]
fn viewport_near_start_collapses_margin() {
    let entries: Vec<DirectoryEntry> = (0..10).map(|i| entry(&format!("f{}", i), false)).collect();
    let list = DirectoryList::new("/tmp".to_string(), entries);
    assert_eq!(list.first_index_for_viewport(4, 3), 0);
}

#[test]
fn viewport_near_end_collapses_margin() {
    let entries: Vec<DirectoryEntry> = (0..10).map(|i| entry(&format!("f{}", i), false)).collect();
    let mut list = DirectoryList::new("/tmp".to_string(), entries);
    list.index = Some(9);
    let s = list.first_index_for_viewport(4, 1);
    assert_eq!(s, 6);
    assert!(s <= 9 && 9 < s + 4);
}

#[test]
fn viewport_short_list_never_skips() {
    let entries: Vec<DirectoryEntry> = (0..3).map(|i| entry(&format!("f{}", i), false)).collect();
    let mut list = DirectoryList::new("/tmp".to_string(), entries);
    list.index = Some(2);
    assert_eq!(list.first_index_for_viewport(10, 6), 0);
}

#[test]
fn toggle_twice_restores_selection() {
    let mut app = app_with(&[("a", true), ("b", false), ("c", true)]);
    let opts = SelectOption { toggle: true, all: true, reverse: false };
    select_files(&mut app, &MatchState::NoPattern, &opts).unwrap();
    assert_eq!(flags(&app), vec![false, true, false]);
    select_files(&mut app, &MatchState::NoPattern, &opts).unwrap();
    assert_eq!(flags(&app), vec![true, false, true]);
}

#[test]
fn reverse_always_deselects() {
    let mut app = app_with(&[("a.txt", true), ("b.txt", false), ("c.log", true)]);
    let opts = SelectOption { toggle: true, all: false, reverse: true };
    let pattern = MatchState::Literal { pattern: ".txt".to_string(), case_sensitive: true };
    select_files(&mut app, &pattern, &opts).unwrap();
    assert_eq!(flags(&app), vec![false, false, true]);
}

#[test]
fn cursor_entry_selected_and_cursor_advances() {
    let mut app = app_with(&[("a", false), ("b", false), ("c", false)]);
    let opts = SelectOption { toggle: true, all: false, reverse: false };
    select_files(&mut app, &MatchState::NoPattern, &opts).unwrap();
    assert_eq!(flags(&app), vec![true, false, false]);
    assert_eq!(cursor(&app), Some(1));
    assert!(app.message_queue.contents.is_empty());
}

#[test]
fn cursor_clamps_at_last_entry() {
    let mut app = app_with(&[("only", false)]);
    let opts = SelectOption { toggle: true, all: false, reverse: false };
    select_files(&mut app, &MatchState::NoPattern, &opts).unwrap();
    assert_eq!(cursor(&app), Some(0));
    select_files(&mut app, &MatchState::NoPattern, &opts).unwrap();
    assert_eq!(flags(&app), vec![false]);
    assert_eq!(cursor(&app), Some(0));
}

#[test]
fn pattern_selection_reports_count() {
    let mut app = app_with(&[("a.txt", false), ("b.txt", true), ("c.log", false)]);
    let opts = SelectOption { toggle: false, all: false, reverse: false };
    let pattern = MatchState::Literal { pattern: ".txt".to_string(), case_sensitive: true };
    select_files(&mut app, &pattern, &opts).unwrap();
    assert_eq!(flags(&app), vec![true, true, false]);
    let m = last_message(&app);
    assert!(matches!(m.level, MessageLevel::Info));
    assert_eq!(m.text, "2 files selected");
}

#[test]
fn pattern_selection_zero_matches_still_reports() {
    let mut app = app_with(&[("a.txt", false), ("b.txt", true)]);
    let opts = SelectOption { toggle: true, all: false, reverse: false };
    let pattern = MatchState::Literal { pattern: "zzz".to_string(), case_sensitive: true };
    select_files(&mut app, &pattern, &opts).unwrap();
    assert_eq!(flags(&app), vec![false, true]);
    assert_eq!(last_message(&app).text, "0 files selected");
}

#[test]
fn select_by_names_with_deselect_others() {
    let mut app = app_with(&[("a.txt", false), ("b.txt", true), ("c.txt", true)]);
    let names = vec!["a.txt".to_string(), "b.txt".to_string()];
    select_by_names(&mut app, &names, true).unwrap();
    assert_eq!(flags(&app), vec![true, true, false]);
    assert_eq!(last_message(&app).text, "2 files selected, 1 files deselected");
}

#[test]
fn select_by_names_without_deselect_others() {
    let mut app = app_with(&[("a.txt", false), ("b.txt", true), ("c.txt", true)]);
    let names = vec!["a.txt".to_string()];
    select_by_names(&mut app, &names, false).unwrap();
    assert_eq!(flags(&app), vec![true, true, true]);
    assert_eq!(last_message(&app).text, "1 files selected");
}

#[test]
fn select_by_names_ignores_unknown_names() {
    let mut app = app_with(&[("a.txt", false)]);
    let names = vec!["missing.txt".to_string(), "a.txt".to_string()];
    select_by_names(&mut app, &names, true).unwrap();
    assert_eq!(flags(&app), vec![true]);
    assert_eq!(last_message(&app).text, "1 files selected, 0 files deselected");
}

#[test]
fn empty_list_selection_is_a_noop() {
    let list = DirectoryList::new("/tmp".to_string(), Vec::new());
    let tab = Tab::new("/tmp".to_string(), Some(list));
    let mut app = AppState::new(TabState::new(tab));
    let opts = SelectOption { toggle: true, all: false, reverse: false };
    select_files(&mut app, &MatchState::NoPattern, &opts).unwrap();
    assert_eq!(cursor(&app), None);
    assert!(app.message_queue.contents.is_empty());
}

#[test]
fn literal_match_is_substring_and_case_foldable() {
    let sensitive = MatchState::Literal { pattern: "Foo".to_string(), case_sensitive: true };
    assert!(sensitive.is_match("myFoo.txt"));
    assert!(!sensitive.is_match("myfoo.txt"));
    let insensitive = MatchState::Literal { pattern: "Foo".to_string(), case_sensitive: false };
    assert!(insensitive.is_match("MYFOO.TXT"));
    let empty = MatchState::Literal { pattern: String::new(), case_sensitive: true };
    assert!(empty.is_match("anything"));
    assert!(empty.is_match(""));
}

#[test]
fn glob_match_through_globset() {
    let glob = MatchState::Glob { pattern: "*.txt".to_string() };
    assert!(glob.is_match("a.txt"));
    assert!(!glob.is_match("a.log"));
    let broken = MatchState::Glob { pattern: "[".to_string() };
    assert!(!broken.is_match("a.txt"));
}

#[test]
fn regex_match_through_regex_crate() {
    let re = MatchState::Regex { pattern: "^ab+c$".to_string() };
    assert!(re.is_match("abbbc"));
    assert!(!re.is_match("ac"));
    let broken = MatchState::Regex { pattern: "(".to_string() };
    assert!(!broken.is_match("abc"));
}

#[test]
fn no_pattern_matches_everything() {
    let none = MatchState::NoPattern;
    assert!(none.is_none());
    assert!(none.is_match("whatever"));
    assert!(!MatchState::Literal { pattern: "x".to_string(), case_sensitive: true }.is_none());
}

#[test]
fn default_select_option_toggles_one_entry() {
    let opts = SelectOption::default();
    assert!(opts.toggle);
    assert!(!opts.all);
    assert!(!opts.reverse);
    assert_eq!(
        opts.option_string(),
        "--toggle=true --all=false --deselect=false"
    );
}

#[test]
fn navigation_cache_preserves_selection_and_cursor() {
    let entries = vec![entry("a", true), entry("b", false)];
    let list = DirectoryList::new("/one".to_string(), entries);
    let mut tab = Tab::new("/one".to_string(), Some(list));
    {
        let l = tab.curr_list.as_mut().unwrap();
        l.index = Some(1);
    }
    let fresh = vec![entry("x", false)];
    tab.change_directory_to("/two".to_string(), fresh);
    assert_eq!(tab.cwd, "/two");
    assert_eq!(tab.curr_list.as_ref().unwrap().path, "/two");
    tab.change_directory_to("/one".to_string(), Vec::new());
    let back = tab.curr_list.as_ref().unwrap();
    assert_eq!(back.path, "/one");
    assert_eq!(back.index, Some(1));
    assert!(back.contents[0].selected);
    assert!(!back.contents[1].selected);
}

#[test]
fn cursor_down_clamps_and_keeps_entries() {
    let entries: Vec<DirectoryEntry> = (0..4).map(|i| entry(&format!("f{}", i), false)).collect();
    let mut list = DirectoryList::new("/tmp".to_string(), entries);
    list.cursor_down(2);
    assert_eq!(list.index, Some(2));
    list.cursor_down(5);
    assert_eq!(list.index, Some(3));
    assert_eq!(list.contents.len(), 4);
    let mut empty = DirectoryList::new("/tmp".to_string(), Vec::new());
    empty.cursor_down(1);
    assert_eq!(empty.index, None);
}

#[test]
fn message_queue_keeps_order() {
    let mut app = app_with(&[("a", false)]);
    app.message_queue.push_info("first".to_string());
    app.message_queue.push_error("second".to_string());
    let texts: Vec<&str> =
        app.message_queue.contents.iter().map(|m| m.text.as_str()).collect();
    assert_eq!(texts, vec!["first", "second"]);
    assert!(matches!(app.message_queue.contents[1].level, MessageLevel::Error));
}

#[test]
fn huge_glob_pattern_does_not_abort() {
    let glob = MatchState::Glob { pattern: "?".repeat(400_000) };
    assert!(!glob.is_match("a.txt"));
}
