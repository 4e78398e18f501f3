//! The selection engine: mutate entry selection flags for the whole list,
//! the cursor entry, the entries matching a pattern, or the entries named in
//! a set.

use vstd::prelude::*;
use crate::entry::{with_selected, DirectoryEntry};
use crate::dirlist::DirectoryList;
use crate::error::AppError;
use crate::matcher::MatchState;
use crate::state::{AppState, Message, MessageLevel};
use crate::text::{dec_str, u64_to_string};

verus! {

/// How the selection engine mutates a targeted entry. `reverse` forces
/// deselection and wins over `toggle`, which flips and wins over the plain
/// force-select; `all` chooses the scope when no pattern is given.
#[derive(Clone, Copy, Debug)]
pub struct SelectOption {
    pub toggle: bool,
    pub all: bool,
    pub reverse: bool,
}

impl Default for SelectOption {
    fn default() -> (r: Self)
        ensures
            r.toggle && !r.all && !r.reverse,
    {
        SelectOption { toggle: true, all: false, reverse: false }
    }
}

pub open spec fn spec_bool_str(b: bool) -> Seq<char> {
    if b {
        "true"@
    } else {
        "false"@
    }
}

/// The textual form of the options, flag by flag.
pub open spec fn option_text(o: SelectOption) -> Seq<char> {
    "--toggle="@ + spec_bool_str(o.toggle) + " --all="@ + spec_bool_str(o.all) + " --deselect="@
        + spec_bool_str(o.reverse)
}

fn bool_str(b: bool) -> (r: &'static str)
    ensures
        r@ == spec_bool_str(b),
{
    if b {
        "true"
    } else {
        "false"
    }
}

impl SelectOption {
    /// Render the options as command-line flags.
    pub fn option_string(&self) -> (r: String)
        ensures
            r@ == option_text(*self),
    {
        let r = String::from_str("--toggle=").concat(bool_str(self.toggle)).concat(
            " --all=",
        ).concat(bool_str(self.all)).concat(" --deselect=").concat(bool_str(self.reverse));
        proof {
            assert(r@ =~= option_text(*self));
        }
        r
    }
}

/// The mutation rule for one targeted entry, in precedence order.
pub open spec fn apply_rule(opts: SelectOption, cur: bool) -> bool {
    if opts.reverse {
        false
    } else if opts.toggle {
        !cur
    } else {
        true
    }
}

fn apply_rule_exec(opts: &SelectOption, cur: bool) -> (r: bool)
    ensures
        r == apply_rule(*opts, cur),
{
    if opts.reverse {
        false
    } else if opts.toggle {
        !cur
    } else {
        true
    }
}

/// The entries after the mutation rule was applied to every entry whose name
/// the pattern accepts (`NoPattern` accepts every name).
pub open spec fn sel_after(
    entries: Seq<DirectoryEntry>,
    pattern: MatchState,
    opts: SelectOption,
) -> Seq<DirectoryEntry> {
    entries.map_values(
        |e: DirectoryEntry|
            if pattern.spec_matches(e.name@) {
                with_selected(e, apply_rule(opts, e.selected))
            } else {
                e
            },
    )
}

/// How many entry names the pattern accepts.
pub open spec fn count_matching(entries: Seq<DirectoryEntry>, pattern: MatchState) -> nat
    decreases entries.len(),
{
    if entries.len() == 0 {
        0
    } else {
        count_matching(entries.drop_last(), pattern) + (if pattern.spec_matches(
            entries.last().name@,
        ) {
            1nat
        } else {
            0nat
        })
    }
}

/// Whether `name` is one of `names`.
pub open spec fn name_in(names: Seq<String>, name: Seq<char>) -> bool {
    exists|k: int| 0 <= k < names.len() && (#[trigger] names[k])@ == name
}

/// The entries after a selection by names: named entries are selected; with
/// `deselect_others` the remaining selected entries are deselected.
pub open spec fn by_names_after(
    entries: Seq<DirectoryEntry>,
    names: Seq<String>,
    deselect_others: bool,
) -> Seq<DirectoryEntry> {
    entries.map_values(
        |e: DirectoryEntry|
            if name_in(names, e.name@) {
                with_selected(e, true)
            } else if deselect_others && e.selected {
                with_selected(e, false)
            } else {
                e
            },
    )
}

/// How many entries are named in `names`.
pub open spec fn count_found(entries: Seq<DirectoryEntry>, names: Seq<String>) -> nat
    decreases entries.len(),
{
    if entries.len() == 0 {
        0
    } else {
        count_found(entries.drop_last(), names) + (if name_in(names, entries.last().name@) {
            1nat
        } else {
            0nat
        })
    }
}

/// How many selected entries are not named in `names`.
pub open spec fn count_deselected(entries: Seq<DirectoryEntry>, names: Seq<String>) -> nat
    decreases entries.len(),
{
    if entries.len() == 0 {
        0
    } else {
        count_deselected(entries.drop_last(), names) + (if !name_in(names, entries.last().name@)
            && entries.last().selected {
            1nat
        } else {
            0nat
        })
    }
}

/// The informational message reporting how many entries a pattern selection
/// touched.
pub open spec fn select_msg(n: nat) -> Seq<char> {
    dec_str(n) + " files selected"@
}

/// The informational message of a selection by names: the deselection clause
/// appears only when `deselect_others` was asked for.
pub open spec fn by_names_msg(found: nat, deselected: nat, deselect_others: bool) -> Seq<char> {
    if deselect_others {
        dec_str(found) + " files selected"@ + ", "@ + dec_str(deselected) + " files deselected"@
    } else {
        dec_str(found) + " files selected"@
    }
}

/// What every selection operation leaves untouched: the capture slot, the
/// tab layout, the other tabs, and the active tab's directory and cache.
pub open spec fn select_frame(pre: AppState, post: AppState) -> bool {
    &&& post.wf()
    &&& post.last_stdout == pre.last_stdout
    &&& post.tab_state.index == pre.tab_state.index
    &&& post.tab_state.tabs@.len() == pre.tab_state.tabs@.len()
    &&& (forall|j: int|
        0 <= j < pre.tab_state.tabs@.len() && j != pre.tab_state.index ==> post.tab_state.tabs@[j]
            == pre.tab_state.tabs@[j])
    &&& post.tab_state.active().cwd == pre.tab_state.active().cwd
    &&& post.tab_state.active().history == pre.tab_state.active().history
}

/// One informational message with text `text` was appended to the queue.
pub open spec fn pushed_info(pre: Seq<Message>, post: Seq<Message>, text: Seq<char>) -> bool {
    &&& post.len() == pre.len() + 1
    &&& (forall|k: int| 0 <= k < pre.len() ==> post[k] == pre[k])
    &&& post.last().level == MessageLevel::Info
    &&& post.last().text@ == text
}

/// The directory-list relation of a selection without a pattern: the whole
/// list under `all`, else the cursor entry alone followed by a bounded
/// cursor advance; a missing or empty list is a silent no-op.
pub open spec fn without_pattern_rel(
    pre_l: Option<DirectoryList>,
    post_l: Option<DirectoryList>,
    opts: SelectOption,
) -> bool {
    match pre_l {
        None => post_l is None,
        Some(l) => post_l matches Some(l2) && l2.path == l.path && (if opts.all {
            l2.contents@ == sel_after(l.contents@, MatchState::NoPattern, opts) && l2.index
                == l.index
        } else {
            match l.index {
                Some(i) => l2.contents@ == l.contents@.update(
                    i as int,
                    with_selected(l.contents@[i as int], apply_rule(opts, l.contents@[i as int].selected)),
                ) && l2.index == Some(
                    (if i + 1 < l.contents@.len() {
                        i + 1
                    } else {
                        l.contents@.len() - 1
                    }) as usize,
                ),
                None => l2 == l,
            }
        }),
    }
}

/// The directory-list relation of a pattern selection: the mutation rule on
/// every matching entry, the cursor untouched.
pub open spec fn with_pattern_rel(
    pre_l: Option<DirectoryList>,
    post_l: Option<DirectoryList>,
    pattern: MatchState,
    opts: SelectOption,
) -> bool {
    match pre_l {
        None => post_l is None,
        Some(l) => post_l matches Some(l2) && l2.path == l.path && l2.index == l.index
            && l2.contents@ == sel_after(l.contents@, pattern, opts),
    }
}

/// The directory-list relation of a selection by names.
pub open spec fn by_names_rel(
    pre_l: Option<DirectoryList>,
    post_l: Option<DirectoryList>,
    names: Seq<String>,
    deselect_others: bool,
) -> bool {
    match pre_l {
        None => post_l is None,
        Some(l) => post_l matches Some(l2) && l2.path == l.path && l2.index == l.index
            && l2.contents@ == by_names_after(l.contents@, names, deselect_others),
    }
}

/// Apply the mutation rule to every entry whose name the pattern accepts and
/// count the accepted entries.
fn select_entries_matching(
    v: &mut Vec<DirectoryEntry>,
    pattern: &MatchState,
    opts: &SelectOption,
) -> (found: usize)
    ensures
        final(v)@ == sel_after(old(v)@, *pattern, *opts),
        found == count_matching(old(v)@, *pattern),
{
    let ghost olds = old(v)@;
    let mut found: usize = 0;
    let mut i: usize = 0;
    while i < v.len()
        invariant
            v@.len() == olds.len(),
            0 <= i <= olds.len(),
            found <= i,
            found == count_matching(olds.take(i as int), *pattern),
            forall|k: int| 0 <= k < i ==> v@[k] == sel_after(olds, *pattern, *opts)[k],
            forall|k: int| i <= k < olds.len() ==> v@[k] == olds[k],
        decreases olds.len() - i,
    {
        let m = {
            let e = &v[i];
            pattern.is_match(e.name.as_str())
        };
        let cur = {
            let e = &v[i];
            e.selected
        };
        if m {
            let b = apply_rule_exec(opts, cur);
            crate::entry::set_entry_selected(v, i, b);
            found = found + 1;
        }
        proof {
            assert(olds.take(i + 1 as int).drop_last() =~= olds.take(i as int));
            assert(olds.take(i + 1 as int).last() == olds[i as int]);
        }
        i = i + 1;
    }
    proof {
        assert(olds.take(olds.len() as int) =~= olds);
        assert(v@ =~= sel_after(olds, *pattern, *opts));
    }
    found
}

/// Select every entry named in `names`; with `deselect_others` deselect the
/// remaining selected entries. Counts both mutations.
fn select_entries_by_names(v: &mut Vec<DirectoryEntry>, names: &Vec<String>, deselect_others: bool)
    -> (counts: (usize, usize))
    ensures
        final(v)@ == by_names_after(old(v)@, names@, deselect_others),
        counts.0 == count_found(old(v)@, names@),
        counts.1 == count_deselected(old(v)@, names@),
{
    let ghost olds = old(v)@;
    let mut found: usize = 0;
    let mut des: usize = 0;
    let mut i: usize = 0;
    while i < v.len()
        invariant
            v@.len() == olds.len(),
            0 <= i <= olds.len(),
            found <= i,
            des <= i,
            found == count_found(olds.take(i as int), names@),
            des == count_deselected(olds.take(i as int), names@),
            forall|k: int| 0 <= k < i ==> v@[k] == by_names_after(olds, names@, deselect_others)[k],
            forall|k: int| i <= k < olds.len() ==> v@[k] == olds[k],
        decreases olds.len() - i,
    {
        let m = {
            let e = &v[i];
            name_member(names, &e.name)
        };
        let cur = {
            let e = &v[i];
            e.selected
        };
        if m {
            crate::entry::set_entry_selected(v, i, true);
            found = found + 1;
        } else if cur {
            if deselect_others {
                crate::entry::set_entry_selected(v, i, false);
            }
            des = des + 1;
        }
        proof {
            assert(olds.take(i + 1 as int).drop_last() =~= olds.take(i as int));
            assert(olds.take(i + 1 as int).last() == olds[i as int]);
        }
        i = i + 1;
    }
    proof {
        assert(olds.take(olds.len() as int) =~= olds);
        assert(v@ =~= by_names_after(olds, names@, deselect_others));
    }
    (found, des)
}

/// Whether `name` is one of `names`.
fn name_member(names: &Vec<String>, name: &String) -> (r: bool)
    ensures
        r == name_in(names@, name@),
{
    let mut j: usize = 0;
    while j < names.len()
        invariant
            0 <= j <= names@.len(),
            forall|k: int| 0 <= k < j ==> (#[trigger] names@[k])@ != name@,
        decreases names@.len() - j,
    {
        let nj = &names[j];
        if nj.eq(name) {
            return true;
        }
        j = j + 1;
    }
    false
}

/// Selection without a pattern: under `all` the mutation rule runs over the
/// whole current list; otherwise it touches the cursor entry alone and the
/// cursor then advances one step, clamped at the last entry. A missing list
/// or absent cursor is a silent no-op, never an error.
fn select_without_pattern(app_state: &mut AppState, options: &SelectOption) -> (r: Result<
    (),
    AppError,
>)
    requires
        old(app_state).wf(),
    ensures
        r is Ok,
        select_frame(*old(app_state), *final(app_state)),
        without_pattern_rel(
            old(app_state).curr_list_spec(),
            final(app_state).curr_list_spec(),
            *options,
        ),
        final(app_state).message_queue.contents@ == old(app_state).message_queue.contents@,
{
    let lst = app_state.tab_state.take_active_list();
    match lst {
        None => {
            app_state.tab_state.put_active_list(None);
            proof {
                assert(app_state.tab_state.tabs@ =~= old(app_state).tab_state.tabs@);
            }
            Ok(())
        },
        Some(mut l) => {
            if options.all {
                let _ = select_entries_matching(&mut l.contents, &MatchState::NoPattern, options);
            } else {
                match l.index {
                    Some(i) => {
                        let cur = {
                            let e = &l.contents[i];
                            e.selected
                        };
                        let b = apply_rule_exec(options, cur);
                        crate::entry::set_entry_selected(&mut l.contents, i, b);
                        l.cursor_down(1);
                    },
                    None => {},
                }
            }
            app_state.tab_state.put_active_list(Some(l));
            Ok(())
        },
    }
}

/// Pattern selection: the mutation rule runs over every entry whose name
/// matches, whatever `all` says, and an informational message reports the
/// count of entries affected, zero included.
fn select_with_pattern(
    app_state: &mut AppState,
    pattern: &MatchState,
    options: &SelectOption,
) -> (r: Result<(), AppError>)
    requires
        old(app_state).wf(),
    ensures
        r is Ok,
        select_frame(*old(app_state), *final(app_state)),
        with_pattern_rel(
            old(app_state).curr_list_spec(),
            final(app_state).curr_list_spec(),
            *pattern,
            *options,
        ),
        match old(app_state).curr_list_spec() {
            None => final(app_state).message_queue.contents@ == old(
                app_state,
            ).message_queue.contents@,
            Some(l) => pushed_info(
                old(app_state).message_queue.contents@,
                final(app_state).message_queue.contents@,
                select_msg(count_matching(l.contents@, *pattern)),
            ),
        },
{
    let lst = app_state.tab_state.take_active_list();
    match lst {
        None => {
            app_state.tab_state.put_active_list(None);
            proof {
                assert(app_state.tab_state.tabs@ =~= old(app_state).tab_state.tabs@);
            }
            Ok(())
        },
        Some(mut l) => {
            let found = select_entries_matching(&mut l.contents, pattern, options);
            app_state.tab_state.put_active_list(Some(l));
            let msg = u64_to_string(found as u64).concat(" files selected");
            proof {
                assert(msg@ =~= select_msg(found as nat));
            }
            app_state.message_queue.push_info(msg);
            Ok(())
        },
    }
}

/// Entry point of the selection engine: with no pattern the scope is the
/// whole list or the cursor entry, as `all` says; with a pattern the rule
/// runs over the matching entries and the count is reported.
pub fn select_files(app_state: &mut AppState, pattern: &MatchState, options: &SelectOption) -> (r:
    Result<(), AppError>)
    requires
        old(app_state).wf(),
    ensures
        r is Ok,
        select_frame(*old(app_state), *final(app_state)),
        pattern.spec_is_none() ==> without_pattern_rel(
            old(app_state).curr_list_spec(),
            final(app_state).curr_list_spec(),
            *options,
        ) && final(app_state).message_queue.contents@ == old(app_state).message_queue.contents@,
        !pattern.spec_is_none() ==> with_pattern_rel(
            old(app_state).curr_list_spec(),
            final(app_state).curr_list_spec(),
            *pattern,
            *options,
        ) && (match old(app_state).curr_list_spec() {
            None => final(app_state).message_queue.contents@ == old(
                app_state,
            ).message_queue.contents@,
            Some(l) => pushed_info(
                old(app_state).message_queue.contents@,
                final(app_state).message_queue.contents@,
                select_msg(count_matching(l.contents@, *pattern)),
            ),
        }),
{
    if pattern.is_none() {
        select_without_pattern(app_state, options)
    } else {
        select_with_pattern(app_state, pattern, options)
    }
}

/// Select every entry of the current list whose base name is in `names`;
/// with `deselect_others` the remaining selected entries are deselected.
/// Names absent from the list are ignored without error. One message
/// reports the counts, the deselection clause only under `deselect_others`.
pub fn select_by_names(app_state: &mut AppState, names: &Vec<String>, deselect_others: bool) -> (r:
    Result<(), AppError>)
    requires
        old(app_state).wf(),
    ensures
        r is Ok,
        select_frame(*old(app_state), *final(app_state)),
        by_names_rel(
            old(app_state).curr_list_spec(),
            final(app_state).curr_list_spec(),
            names@,
            deselect_others,
        ),
        match old(app_state).curr_list_spec() {
            None => final(app_state).message_queue.contents@ == old(
                app_state,
            ).message_queue.contents@,
            Some(l) => pushed_info(
                old(app_state).message_queue.contents@,
                final(app_state).message_queue.contents@,
                by_names_msg(
                    count_found(l.contents@, names@),
                    count_deselected(l.contents@, names@),
                    deselect_others,
                ),
            ),
        },
{
    let lst = app_state.tab_state.take_active_list();
    match lst {
        None => {
            app_state.tab_state.put_active_list(None);
            proof {
                assert(app_state.tab_state.tabs@ =~= old(app_state).tab_state.tabs@);
            }
            Ok(())
        },
        Some(mut l) => {
            let counts = select_entries_by_names(&mut l.contents, names, deselect_others);
            app_state.tab_state.put_active_list(Some(l));
            let mut msg = u64_to_string(counts.0 as u64).concat(" files selected");
            if deselect_others {
                msg = msg.concat(", ").concat(u64_to_string(counts.1 as u64).as_str()).concat(
                    " files deselected",
                );
            }
            proof {
                assert(msg@ =~= by_names_msg(counts.0 as nat, counts.1 as nat, deselect_others));
            }
            app_state.message_queue.push_info(msg);
            Ok(())
        },
    }
}

/// Toggling with neither `reverse` nor a second rule in force is an
/// involution: running the same pattern selection twice restores every
/// selection flag.
pub proof fn lemma_toggle_twice(
    entries: Seq<DirectoryEntry>,
    pattern: MatchState,
    opts: SelectOption,
)
    requires
        opts.toggle,
        !opts.reverse,
    ensures
        sel_after(sel_after(entries, pattern, opts), pattern, opts) == entries,
{
    let once = sel_after(entries, pattern, opts);
    let twice = sel_after(once, pattern, opts);
    assert forall|k: int| 0 <= k < entries.len() implies twice[k] == entries[k] by {
        assert(once[k] == (if pattern.spec_matches(entries[k].name@) {
            with_selected(entries[k], apply_rule(opts, entries[k].selected))
        } else {
            entries[k]
        }));
    }
    assert(twice =~= entries);
}

/// A reversing selection always clears the flag of every targeted entry,
/// whatever its prior state.
pub proof fn lemma_reverse_clears(
    entries: Seq<DirectoryEntry>,
    pattern: MatchState,
    opts: SelectOption,
    k: int,
)
    requires
        opts.reverse,
        0 <= k < entries.len(),
        pattern.spec_matches(entries[k].name@),
    ensures
        sel_after(entries, pattern, opts)[k].selected == false,
{
}

} // verus!
