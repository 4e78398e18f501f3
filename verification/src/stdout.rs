//! The post-processing pipeline: validate the captured stdout of the most
//! recent external command and turn it into a directory change or a
//! selection by names.

use vstd::prelude::*;
use crate::entry::{with_selected, DirectoryEntry};
use crate::error::{AppError, AppErrorKind};
use crate::select::{by_names_msg, name_in, pushed_info, select_by_names, select_frame};
use crate::state::AppState;
use crate::text::{lines_of, split_lines, trim_str, trimmed};

verus! {

/// The recognized interpretations of a capture.
#[derive(Debug, Clone)]
pub enum PostProcessor {
    ChangeDirectory,
    SelectNames,
}

/// Which processor a textual key names: exactly `cd` and `select-names`.
pub open spec fn spec_processor_of(key: Seq<char>) -> Option<PostProcessor> {
    if key == "cd"@ {
        Some(PostProcessor::ChangeDirectory)
    } else if key == "select-names"@ {
        Some(PostProcessor::SelectNames)
    } else {
        None
    }
}

impl PostProcessor {
    /// Parse a processor key; any unrecognized key yields no processor and
    /// is the caller's configuration error.
    pub fn from_str(args: &str) -> (r: Option<PostProcessor>)
        ensures
            r == spec_processor_of(args@),
    {
        let key = args.to_owned();
        if key.eq(&String::from_str("cd")) {
            Some(PostProcessor::ChangeDirectory)
        } else if key.eq(&String::from_str("select-names")) {
            Some(PostProcessor::SelectNames)
        } else {
            None
        }
    }
}

/// What the post-processing pipeline produced: a resolved directory the
/// caller must change into (the directory-change collaborator performs the
/// move and the fresh read), or a selection already applied in place.
#[derive(Debug)]
pub enum PostOutcome {
    DirectoryChange { path: String },
    NamesSelected,
}

/// The error text when no capture was ever recorded.
pub open spec fn msg_no_capture() -> Seq<char> {
    "No result from a former `shell` available"@
}

/// The error text when the capture does not hold exactly one line.
pub open spec fn msg_one_line() -> Seq<char> {
    "The last `capture` stdout does not have exactly one line as expected for this stdout processor"@
}

/// The error text when the captured path does not exist.
pub open spec fn msg_not_existing() -> Seq<char> {
    "The last `capture` output line is not an existing path"@
}

/// The error text when the captured path is a file without a parent.
pub open spec fn msg_no_parent() -> Seq<char> {
    "The last `capture` output is a file but without a valid directory as parent in the file system"@
}

/// Text that shell expansion passes through unchanged: no variable
/// reference anywhere and no leading home shorthand.
pub open spec fn no_shell_syntax(s: Seq<char>) -> bool {
    &&& (s.len() > 0 ==> s[0] != '~')
    &&& (forall|k: int| 0 <= k < s.len() ==> s[k] != '$')
}

/// Relies on shellexpand's `full`: expands home-directory and environment
/// variable syntax from the process environment; an input whose expansion
/// fails is passed through unchanged, so expansion is total. The source
/// scans for `$` and substitutes only a leading `~`, so text free of both
/// comes back as it is.
#[verifier::external_body]
fn expand_shell_string(s: &str) -> (r: String)
    ensures
        no_shell_syntax(s@) ==> r@ == s@,
{
    match shellexpand::full(s) {
        Ok(c) => c.into_owned(),
        Err(_) => s.to_owned(),
    }
}

/// Relies on `std::path::Path::exists`: probes the filesystem.
#[verifier::external_body]
fn path_exists(path: &str) -> (r: bool) {
    std::path::Path::new(path).exists()
}

/// Relies on `std::path::Path::is_file`: probes the filesystem.
#[verifier::external_body]
fn path_is_file(path: &str) -> (r: bool) {
    std::path::Path::new(path).is_file()
}

/// The parent of a path in the sense of `std::path::Path::parent`: a purely
/// syntactic function of the path text.
pub uninterp spec fn parent_of(path: Seq<char>) -> Option<Seq<char>>;

/// Relies on `std::path::Path::parent`: purely syntactic on the path text.
#[verifier::external_body]
fn path_parent(path: &str) -> (r: Option<String>)
    ensures
        r is Some <==> parent_of(path@) is Some,
        r matches Some(p) ==> parent_of(path@) == Some(p@),
{
    match std::path::Path::new(path).parent() {
        Some(p) => Some(p.to_string_lossy().into_owned()),
        None => None,
    }
}

/// Require the captured text to hold exactly one line.
pub fn assert_one_line(stdout: &str) -> (r: Result<(), AppError>)
    ensures
        r is Ok <==> lines_of(stdout@).len() == 1,
        r matches Err(e) ==> e.kind == AppErrorKind::StateError && e.message@ == msg_one_line(),
{
    let ls = split_lines(stdout);
    if ls.len() == 1 {
        Ok(())
    } else {
        Err(
            AppError::new(
                AppErrorKind::StateError,
                String::from_str(
                    "The last `capture` stdout does not have exactly one line as expected for this stdout processor",
                ),
            ),
        )
    }
}

/// Resolve a probed path to the directory a capture names: a directory is
/// used as it is, a regular file stands for its parent directory, a file
/// with no parent or a missing path is a state error.
pub fn resolve_existing_directory(
    expanded: String,
    present: bool,
    is_file: bool,
    parent: Option<String>,
) -> (r: Result<String, AppError>)
    ensures
        !present ==> (r matches Err(e) && e.kind == AppErrorKind::StateError && e.message@
            == msg_not_existing()),
        present && !is_file ==> r == Ok::<String, AppError>(expanded),
        present && is_file && parent is Some ==> r == Ok::<String, AppError>(parent->0),
        present && is_file && parent is None ==> (r matches Err(e) && e.kind
            == AppErrorKind::StateError && e.message@ == msg_no_parent()),
{
    if !present {
        Err(
            AppError::new(
                AppErrorKind::StateError,
                String::from_str("The last `capture` output line is not an existing path"),
            ),
        )
    } else if is_file {
        match parent {
            Some(p) => Ok(p),
            None => Err(
                AppError::new(
                    AppErrorKind::StateError,
                    String::from_str(
                        "The last `capture` output is a file but without a valid directory as parent in the file system",
                    ),
                ),
            ),
        }
    } else {
        Ok(expanded)
    }
}

/// Interpret a capture as a single existing directory: exactly one line,
/// shell syntax expanded, the path probed on disk, a regular file resolved
/// to its parent.
pub fn as_one_existing_directory(stdout: &str) -> (r: Result<String, AppError>)
    ensures
        lines_of(stdout@).len() != 1 ==> (r matches Err(e) && e.message@ == msg_one_line()),
        r matches Err(e) ==> e.kind == AppErrorKind::StateError && (e.message@ == msg_one_line()
            || e.message@ == msg_not_existing() || e.message@ == msg_no_parent()),
        lines_of(stdout@).len() == 1 ==> (r matches Err(e) ==> e.message@ == msg_not_existing()
            || e.message@ == msg_no_parent()),
        r is Ok ==> lines_of(stdout@).len() == 1,
        no_shell_syntax(stdout@) ==> (r matches Ok(p) ==> p@ == stdout@ || Some(p@) == parent_of(
            stdout@,
        )),
        no_shell_syntax(stdout@) ==> (r matches Err(e) ==> (e.message@ == msg_no_parent()
            ==> parent_of(stdout@) is None)),
{
    proof {
        reveal_strlit(
            "The last `capture` stdout does not have exactly one line as expected for this stdout processor",
        );
        reveal_strlit("The last `capture` output line is not an existing path");
        reveal_strlit(
            "The last `capture` output is a file but without a valid directory as parent in the file system",
        );
        assert(msg_one_line()[19] == 's' && msg_no_parent()[19] == 'o');
        assert(msg_one_line() != msg_no_parent());
        assert(msg_not_existing().len() == 54 && msg_no_parent().len() == 94);
        assert(msg_not_existing() != msg_no_parent());
    }
    match assert_one_line(stdout) {
        Err(e) => Err(e),
        Ok(()) => {
            let expanded = expand_shell_string(stdout);
            let present = path_exists(expanded.as_str());
            let is_file = if present {
                path_is_file(expanded.as_str())
            } else {
                false
            };
            let parent = if present && is_file {
                path_parent(expanded.as_str())
            } else {
                None
            };
            resolve_existing_directory(expanded, present, is_file, parent)
        },
    }
}

/// The captured lines as the name set handed to the selection by names.
pub fn as_string_hash(stdout: &str) -> (r: Result<Vec<String>, AppError>)
    ensures
        r matches Ok(v) && v@.len() == lines_of(stdout@).len() && (forall|k: int|
            0 <= k < v@.len() ==> (#[trigger] v@[k])@ == lines_of(stdout@)[k]),
{
    Ok(split_lines(stdout))
}

/// Whether `n` is one of the lines.
pub open spec fn line_present(ls: Seq<Seq<char>>, n: Seq<char>) -> bool {
    exists|k: int| 0 <= k < ls.len() && ls[k] == n
}

/// The entries after a post-processed selection: entries named on a captured
/// line are selected, every other selected entry is deselected.
pub open spec fn names_selected_after(
    entries: Seq<DirectoryEntry>,
    ls: Seq<Seq<char>>,
) -> Seq<DirectoryEntry> {
    entries.map_values(
        |e: DirectoryEntry|
            if line_present(ls, e.name@) {
                with_selected(e, true)
            } else if e.selected {
                with_selected(e, false)
            } else {
                e
            },
    )
}

/// How many entries are named on a captured line.
pub open spec fn count_found_lines(entries: Seq<DirectoryEntry>, ls: Seq<Seq<char>>) -> nat
    decreases entries.len(),
{
    if entries.len() == 0 {
        0
    } else {
        count_found_lines(entries.drop_last(), ls) + (if line_present(ls, entries.last().name@) {
            1nat
        } else {
            0nat
        })
    }
}

/// How many selected entries are not named on any captured line.
pub open spec fn count_deselected_lines(entries: Seq<DirectoryEntry>, ls: Seq<Seq<char>>) -> nat
    decreases entries.len(),
{
    if entries.len() == 0 {
        0
    } else {
        count_deselected_lines(entries.drop_last(), ls) + (if !line_present(
            ls,
            entries.last().name@,
        ) && entries.last().selected {
            1nat
        } else {
            0nat
        })
    }
}

/// Re-running a post-processed selection over an unchanged capture changes
/// nothing: the resulting selection is a pure function of the captured
/// lines and the entry names.
pub proof fn lemma_post_selection_idempotent(entries: Seq<DirectoryEntry>, ls: Seq<Seq<char>>)
    ensures
        names_selected_after(names_selected_after(entries, ls), ls) == names_selected_after(
            entries,
            ls,
        ),
{
    let once = names_selected_after(entries, ls);
    let twice = names_selected_after(once, ls);
    assert forall|k: int| 0 <= k < entries.len() implies twice[k] == once[k] by {
        assert(once[k] == (if line_present(ls, entries[k].name@) {
            with_selected(entries[k], true)
        } else if entries[k].selected {
            with_selected(entries[k], false)
        } else {
            entries[k]
        }));
    }
    assert(twice =~= once);
}

proof fn lemma_by_names_congruent(entries: Seq<DirectoryEntry>, names: Seq<String>, ls: Seq<
    Seq<char>,
>)
    requires
        forall|n: Seq<char>| #[trigger] name_in(names, n) == line_present(ls, n),
    ensures
        crate::select::by_names_after(entries, names, true) == names_selected_after(entries, ls),
        crate::select::count_found(entries, names) == count_found_lines(entries, ls),
        crate::select::count_deselected(entries, names) == count_deselected_lines(entries, ls),
    decreases entries.len(),
{
    if entries.len() > 0 {
        lemma_by_names_congruent(entries.drop_last(), names, ls);
        assert(name_in(names, entries.last().name@) == line_present(ls, entries.last().name@));
    }
    let a = crate::select::by_names_after(entries, names, true);
    let b = names_selected_after(entries, ls);
    assert forall|k: int| 0 <= k < entries.len() implies a[k] == b[k] by {
        assert(name_in(names, entries[k].name@) == line_present(ls, entries[k].name@));
    }
    assert(a =~= b);
}

/// What running ChangeDirectory on trimmed capture `t` may return: the
/// one-line error exactly when `t` does not hold one line; otherwise only
/// the two post-validation errors; a success is a resolved directory that,
/// for text free of shell syntax, is the capture itself or its parent, and
/// the no-parent error then means the capture really has no parent.
pub open spec fn cd_resolution_ok(t: Seq<char>, r: Result<PostOutcome, AppError>) -> bool {
    &&& (lines_of(t).len() != 1 ==> (r matches Err(e) && e.message@ == msg_one_line()))
    &&& (r matches Err(e) ==> e.message@ == msg_one_line() || e.message@ == msg_not_existing()
        || e.message@ == msg_no_parent())
    &&& (lines_of(t).len() == 1 ==> (r matches Err(e) ==> e.message@ == msg_not_existing()
        || e.message@ == msg_no_parent()))
    &&& (r matches Ok(o) ==> lines_of(t).len() == 1 && (o matches PostOutcome::DirectoryChange {
        path,
    } && (no_shell_syntax(t) ==> path@ == t || Some(path@) == parent_of(t))))
    &&& (no_shell_syntax(t) ==> (r matches Err(e) ==> (e.message@ == msg_no_parent()
        ==> parent_of(t) is None)))
}

/// After a post-processed selection on capture `pre.last_stdout`: named
/// entries selected, every other selected entry deselected, and one message
/// reporting both counts.
pub open spec fn names_selection_applied(pre: AppState, post: AppState) -> bool
    recommends
        pre.last_stdout is Some,
{
    let ls = lines_of(trimmed(pre.last_stdout->0@));
    match pre.curr_list_spec() {
        None => post.curr_list_spec() is None && post.message_queue.contents@
            == pre.message_queue.contents@,
        Some(l) => post.curr_list_spec() matches Some(l2) && l2.path == l.path && l2.index
            == l.index && l2.contents@ == names_selected_after(l.contents@, ls) && pushed_info(
            pre.message_queue.contents@,
            post.message_queue.contents@,
            by_names_msg(
                count_found_lines(l.contents@, ls),
                count_deselected_lines(l.contents@, ls),
                true,
            ),
        ),
    }
}

/// Run the requested processor on the most recent capture. With no capture
/// recorded, or a capture that fails the processor's validation, the state
/// is left untouched and a state error is returned; a directory change is
/// resolved and handed back for the directory-change collaborator to
/// perform; a selection by names is applied in place, deselecting every
/// entry not named.
pub fn post_process_std_out(processor: &PostProcessor, app_state: &mut AppState) -> (r: Result<
    PostOutcome,
    AppError,
>)
    requires
        old(app_state).wf(),
    ensures
        final(app_state).wf(),
        r matches Err(e) ==> e.kind == AppErrorKind::StateError && *final(app_state) == *old(
            app_state,
        ),
        old(app_state).last_stdout is None ==> (r matches Err(e) && e.message@
            == msg_no_capture()),
        processor is ChangeDirectory ==> *final(app_state) == *old(app_state) && (r matches Ok(o)
            ==> o is DirectoryChange),
        old(app_state).last_stdout matches Some(s) ==> (processor is ChangeDirectory
            ==> cd_resolution_ok(trimmed(s@), r)),
        (processor is SelectNames && old(app_state).last_stdout is Some) ==> (r matches Ok(o)
            && o is NamesSelected && select_frame(*old(app_state), *final(app_state))
            && names_selection_applied(*old(app_state), *final(app_state))),
{
    let captured: Option<String> = match &app_state.last_stdout {
        Some(s) => Some(trim_str(s.as_str())),
        None => None,
    };
    match captured {
        None => Err(
            AppError::new(
                AppErrorKind::StateError,
                String::from_str("No result from a former `shell` available"),
            ),
        ),
        Some(t) => {
            match processor {
                PostProcessor::ChangeDirectory => {
                    match as_one_existing_directory(t.as_str()) {
                        Ok(p) => Ok(PostOutcome::DirectoryChange { path: p }),
                        Err(e) => Err(e),
                    }
                },
                PostProcessor::SelectNames => {
                    let names = match as_string_hash(t.as_str()) {
                        Ok(v) => v,
                        Err(e) => {
                            return Err(e);
                        },
                    };
                    let ghost ls = lines_of(trimmed(old(app_state).last_stdout->0@));
                    proof {
                        assert forall|n: Seq<char>| #[trigger] name_in(names@, n) == line_present(
                            ls,
                            n,
                        ) by {
                            if name_in(names@, n) {
                                let j = choose|j: int|
                                    0 <= j < names@.len() && (#[trigger] names@[j])@ == n;
                                assert(ls[j] == n);
                            }
                            if line_present(ls, n) {
                                let k = choose|k: int| 0 <= k < ls.len() && ls[k] == n;
                                assert((names@[k])@ == n);
                            }
                        }
                        match old(app_state).curr_list_spec() {
                            Some(l) => lemma_by_names_congruent(l.contents@, names@, ls),
                            None => (),
                        }
                    }
                    match select_by_names(app_state, &names, true) {
                        Ok(()) => Ok(PostOutcome::NamesSelected),
                        Err(e) => Err(e),
                    }
                },
            }
        },
    }
}

} // verus!
