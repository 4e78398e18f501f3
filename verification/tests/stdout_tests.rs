use joshuto_core::dirlist::DirectoryList;
use joshuto_core::entry::{DirectoryEntry, EntryKind, EntryMetadata};
use joshuto_core::error::AppErrorKind;
use joshuto_core::state::{AppState, MessageLevel, Tab, TabState};
use joshuto_core::stdout::{
    as_one_existing_directory, assert_one_line, post_process_std_out, resolve_existing_directory,
    PostOutcome, PostProcessor,
};
use joshuto_core::text::{trim_str, u64_to_string};

fn entry(name: &str, selected: bool) -> DirectoryEntry {
    DirectoryEntry::new(
        name.to_string(),
        format!("/tmp/{}", name),
        EntryMetadata { kind: EntryKind::File, size: 1, modified: 2, permissions: 0o644 },
        selected,
    )
}

fn app_with(names_selected: &[(&str, bool)]) -> AppState {
    let entries: Vec<DirectoryEntry> =
        names_selected.iter().map(|(n, s)| entry(n, *s)).collect();
    let list = DirectoryList::new("/tmp".to_string(), entries);
    let tab = Tab::new("/tmp".to_string(), Some(list));
    AppState::new(TabState::new(tab))
}

fn flags(app: &AppState) -> Vec<bool> {
    app.tab_state.tabs[app.tab_state.index]
        .curr_list
        .as_ref()
        .unwrap()
        .contents
        .iter()
        .map(|e| e.selected)
        .collect()
}

#[test]
fn processor_keys_are_cd_and_select_names() {
    assert!(matches!(
        PostProcessor::from_str("cd"),
        Some(PostProcessor::ChangeDirectory)
    ));
    assert!(matches!(
        PostProcessor::from_str("select-names"),
        Some(PostProcessor::SelectNames)
    ));
    assert!(PostProcessor::from_str("cd ").is_none());
    assert!(PostProcessor::from_str("rename").is_none());
    assert!(PostProcessor::from_str("").is_none());
}

#[test]
fn no_capture_is_a_state_error() {
    let mut app = app_with(&[("a", false)]);
    let r = post_process_std_out(&PostProcessor::ChangeDirectory, &mut app);
    let e = r.unwrap_err();
    assert!(matches!(e.kind, AppErrorKind::StateError));
    assert_eq!(e.message, "No result from a former `shell` available");
}

#[test]
fn change_directory_resolves_single_directory_line() {
    let mut app = app_with(&[("a", false)]);
    app.set_last_stdout("/\n".to_string());
    let r = post_process_std_out(&PostProcessor::ChangeDirectory, &mut app).unwrap();
    match r {
        PostOutcome::DirectoryChange { path } => assert_eq!(path, "/"),
        _ => panic!("expected a directory change"),
    }
    assert_eq!(app.tab_state.tabs[0].cwd, "/tmp");
}

#[test]
fn change_directory_resolves_file_to_parent() {
    let mut app = app_with(&[("a", false)]);
    app.set_last_stdout("/proc/version\n".to_string());
    let r = post_process_std_out(&PostProcessor::ChangeDirectory, &mut app).unwrap();
    match r {
        PostOutcome::DirectoryChange { path } => assert_eq!(path, "/proc"),
        _ => panic!("expected a directory change"),
    }
}

#[test]
fn change_directory_rejects_two_lines() {
    let mut app = app_with(&[("a", true), ("b", false)]);
    app.set_last_stdout("/one\n/two\n".to_string());
    let before = flags(&app);
    let e = post_process_std_out(&PostProcessor::ChangeDirectory, &mut app).unwrap_err();
    assert!(matches!(e.kind, AppErrorKind::StateError));
    assert_eq!(
        e.message,
        "The last `capture` stdout does not have exactly one line as expected for this stdout processor"
    );
    assert_eq!(flags(&app), before);
    assert_eq!(app.tab_state.tabs[0].cwd, "/tmp");
    assert!(app.message_queue.contents.is_empty());
}

#[test]
fn change_directory_rejects_missing_path() {
    let mut app = app_with(&[("a", false)]);
    app.set_last_stdout("/surely/not/an/existing/path-zzz\n".to_string());
    let e = post_process_std_out(&PostProcessor::ChangeDirectory, &mut app).unwrap_err();
    assert_eq!(e.message, "The last `capture` output line is not an existing path");
}

#[test]
fn select_names_collapses_duplicates_and_deselects_others() {
    let mut app = app_with(&[("x.txt", false), ("y.txt", false), ("z.txt", true)]);
    app.set_last_stdout("x.txt\ny.txt\nx.txt\n".to_string());
    let r = post_process_std_out(&PostProcessor::SelectNames, &mut app).unwrap();
    assert!(matches!(r, PostOutcome::NamesSelected));
    assert_eq!(flags(&app), vec![true, true, false]);
    let m = app.message_queue.contents.last().unwrap();
    assert!(matches!(m.level, MessageLevel::Info));
    assert_eq!(m.text, "2 files selected, 1 files deselected");
}

#[test]
fn select_names_is_idempotent_on_unchanged_capture() {
    let mut app = app_with(&[("x.txt", false), ("y.txt", true)]);
    app.set_last_stdout("x.txt\n".to_string());
    post_process_std_out(&PostProcessor::SelectNames, &mut app).unwrap();
    let after_first = flags(&app);
    post_process_std_out(&PostProcessor::SelectNames, &mut app).unwrap();
    assert_eq!(flags(&app), after_first);
}

#[test]
fn one_line_check_counts_logical_lines() {
    assert!(assert_one_line("abc").is_ok());
    assert!(assert_one_line("").is_err());
    assert!(assert_one_line("a\nb").is_err());
}

#[test]
fn resolution_cases_are_exact() {
    let ok = resolve_existing_directory("/d".to_string(), true, false, None).unwrap();
    assert_eq!(ok, "/d");
    let parent =
        resolve_existing_directory("/d/f".to_string(), true, true, Some("/d".to_string())).unwrap();
    assert_eq!(parent, "/d");
    let no_parent = resolve_existing_directory("f".to_string(), true, true, None).unwrap_err();
    assert_eq!(
        no_parent.message,
        "The last `capture` output is a file but without a valid directory as parent in the file system"
    );
    let missing = resolve_existing_directory("/m".to_string(), false, false, None).unwrap_err();
    assert_eq!(missing.message, "The last `capture` output line is not an existing path");
}

#[test]
fn one_existing_directory_requires_one_line() {
    let e = as_one_existing_directory("a\nb").unwrap_err();
    assert!(matches!(e.kind, AppErrorKind::StateError));
}

#[test]
fn trimming_and_rendering_helpers() {
    assert_eq!(trim_str("  /home/user\n"), "/home/user");
    assert_eq!(trim_str("\t\r\n"), "");
    assert_eq!(trim_str("a b"), "a b");
    assert_eq!(u64_to_string(0), "0");
    assert_eq!(u64_to_string(12345), "12345");
    assert_eq!(u64_to_string(10), "10");
}

#[test]
fn split_lines_strips_carriage_returns() {
    let ls = joshuto_core::text::split_lines("a\r\nb\nc");
    assert_eq!(ls, vec!["a".to_string(), "b".to_string(), "c".to_string()]);
    assert!(joshuto_core::text::split_lines("").is_empty());
}

#[test]
fn raw_theme_starts_empty() {
    let t = joshuto_core::theme::JoshutoRawTheme::new();
    assert!(t.default_.is_none());
    assert!(t.directory.is_none());
    assert!(t.selection.is_none());
    assert!(t.executable.is_none());
    assert!(t.socket.is_none());
    assert!(t.extensions.is_none());
}

#[test]
fn widget_view_wraps_a_list() {
    let list = DirectoryList::new("/tmp".to_string(), vec![entry("a", false)]);
    let view = joshuto_core::widget::TuiDirList::new(&list);
    assert_eq!(view.dirlist.path, "/tmp");
    assert_eq!(view.dirlist.contents.len(), 1);
}

#[test]
fn trimming_removes_unicode_whitespace() {
    assert_eq!(trim_str("\u{a0}/srv\u{2028}"), "/srv");
    assert_eq!(trim_str("\u{3000}\u{205f}"), "");
}

#[test]
fn final_line_without_ending_keeps_lone_carriage_return() {
    let ls = joshuto_core::text::split_lines("a\r");
    assert_eq!(ls, vec!["a\r".to_string()]);
    let ls2 = joshuto_core::text::split_lines("a\r\n");
    assert_eq!(ls2, vec!["a".to_string()]);
}
