//! Tab and application state: the active directory list, the navigation
//! cache, the message queue, and the capture slot for external-command
//! output.

use vstd::prelude::*;
use crate::dirlist::DirectoryList;
use crate::entry::DirectoryEntry;

verus! {

#[derive(Clone, Copy, Debug, PartialEq, Eq, Structural)]
pub enum MessageLevel {
    Info,
    Error,
}

/// One transient notice for the user.
#[derive(Debug)]
pub struct Message {
    pub level: MessageLevel,
    pub text: String,
}

/// Append-only ordered queue of notices, consumed by the rendering layer.
#[derive(Debug)]
pub struct MessageQueue {
    pub contents: Vec<Message>,
}

impl MessageQueue {
    pub fn new() -> (r: MessageQueue)
        ensures
            r.contents@.len() == 0,
    {
        MessageQueue { contents: Vec::new() }
    }

    pub fn push_info(&mut self, text: String)
        ensures
            final(self).contents@ == old(self).contents@.push(
                Message { level: MessageLevel::Info, text },
            ),
    {
        self.contents.push(Message { level: MessageLevel::Info, text });
    }

    pub fn push_error(&mut self, text: String)
        ensures
            final(self).contents@ == old(self).contents@.push(
                Message { level: MessageLevel::Error, text },
            ),
    {
        self.contents.push(Message { level: MessageLevel::Error, text });
    }
}

/// One tab: a working directory, its active directory list, and the cache of
/// lists for directories visited before, keyed by their absolute path.
#[derive(Debug)]
pub struct Tab {
    pub cwd: String,
    pub curr_list: Option<DirectoryList>,
    pub history: Vec<DirectoryList>,
}

/// The same tab with another active list.
pub open spec fn tab_with_list(t: Tab, l: Option<DirectoryList>) -> Tab {
    Tab { curr_list: l, ..t }
}

impl Tab {
    /// The active list, if present, is well formed; cached lists are well
    /// formed and cached under pairwise distinct paths.
    pub open spec fn wf(self) -> bool {
        &&& (match self.curr_list {
            Some(l) => l.wf(),
            None => true,
        })
        &&& history_wf(self.history@)
    }

    pub fn new(cwd: String, curr_list: Option<DirectoryList>) -> (r: Tab)
        requires
            (curr_list matches Some(l) ==> l.wf()),
        ensures
            r.cwd == cwd,
            r.curr_list == curr_list,
            r.history@.len() == 0,
            r.wf(),
    {
        Tab { cwd, curr_list, history: Vec::new() }
    }

    /// What change_directory_to leaves as the active list and the cache:
    /// the prior list is cached under its path; a list cached under the new
    /// path is re-attached, keeping its selection and cursor; otherwise a
    /// fresh list over `entries` starts with the cursor on the first entry.
    pub open spec fn changed_dir_ok(
        self,
        post: Tab,
        path: Seq<char>,
        entries: Seq<DirectoryEntry>,
    ) -> bool {
        let h1 = match self.curr_list {
            Some(l) => spec_history_insert(self.history@, l),
            None => self.history@,
        };
        &&& post.cwd@ == path
        &&& (if history_has(h1, path) {
            post.curr_list == Some(h1[history_idx(h1, path)]) && post.history@ == h1.remove(
                history_idx(h1, path),
            )
        } else {
            (match post.curr_list {
                Some(l2) => l2.path@ == path && l2.contents@ == entries && l2.index == (
                if entries.len() > 0 {
                    Some(0usize)
                } else {
                    None::<usize>
                }),
                None => false,
            }) && post.history@ == h1
        })
    }

    /// Move this tab to directory `path`, whose fresh entries the caller
    /// read from disk. The prior list is cached; revisiting a cached
    /// directory re-attaches its list, preserving selection and cursor.
    pub fn change_directory_to(&mut self, path: String, fresh_entries: Vec<DirectoryEntry>)
        requires
            old(self).wf(),
        ensures
            final(self).wf(),
            old(self).changed_dir_ok(*final(self), path@, fresh_entries@),
    {
        let prior = self.curr_list.take();
        match prior {
            Some(l) => history_insert(&mut self.history, l),
            None => {},
        }
        let cached = history_remove(&mut self.history, path.as_str());
        match cached {
            Some(l) => {
                self.curr_list = Some(l);
            },
            None => {
                self.curr_list = Some(DirectoryList::new(path.clone(), fresh_entries));
            },
        }
        self.cwd = path;
    }
}

/// Cached lists are well formed and cached under pairwise distinct paths.
pub open spec fn history_wf(h: Seq<DirectoryList>) -> bool {
    &&& (forall|k: int| 0 <= k < h.len() ==> (#[trigger] h[k]).wf())
    &&& (forall|k: int, m: int|
        0 <= k < m < h.len() ==> (#[trigger] h[k]).path@ != (#[trigger] h[m]).path@)
}

/// Whether the cache holds a list for directory `p`.
pub open spec fn history_has(h: Seq<DirectoryList>, p: Seq<char>) -> bool {
    exists|k: int| 0 <= k < h.len() && (#[trigger] h[k]).path@ == p
}

/// The cache slot holding the list for directory `p`.
pub open spec fn history_idx(h: Seq<DirectoryList>, p: Seq<char>) -> int {
    choose|k: int| 0 <= k < h.len() && (#[trigger] h[k]).path@ == p
}

/// The cache after `l` was stored under its path, replacing any list cached
/// under the same path.
pub open spec fn spec_history_insert(h: Seq<DirectoryList>, l: DirectoryList) -> Seq<
    DirectoryList,
> {
    if history_has(h, l.path@) {
        h.update(history_idx(h, l.path@), l)
    } else {
        h.push(l)
    }
}

/// The slot of the cached list for `path`, if any.
fn history_find(h: &Vec<DirectoryList>, path: &str) -> (r: Option<usize>)
    requires
        history_wf(h@),
    ensures
        r matches Some(j) ==> j < h@.len() && h@[j as int].path@ == path@ && j as int
            == history_idx(h@, path@),
        r is None ==> !history_has(h@, path@),
{
    let p = path.to_owned();
    let mut j: usize = 0;
    while j < h.len()
        invariant
            history_wf(h@),
            p@ == path@,
            0 <= j <= h@.len(),
            forall|k: int| 0 <= k < j ==> (#[trigger] h@[k]).path@ != path@,
        decreases h@.len() - j,
    {
        let hj = &h[j];
        if hj.path.eq(&p) {
            proof {
                assert(history_has(h@, path@));
                let c = history_idx(h@, path@);
                assert(0 <= c < h@.len() && h@[c].path@ == path@);
                if c < j as int {
                    assert(h@[c].path@ != h@[j as int].path@);
                } else if c > j as int {
                    assert(h@[j as int].path@ != h@[c].path@);
                }
            }
            return Some(j);
        }
        j = j + 1;
    }
    None
}

/// Store `l` in the cache under its path, replacing any same-path entry.
fn history_insert(h: &mut Vec<DirectoryList>, l: DirectoryList)
    requires
        history_wf(old(h)@),
        l.wf(),
    ensures
        final(h)@ == spec_history_insert(old(h)@, l),
        history_wf(final(h)@),
{
    match history_find(h, l.path.as_str()) {
        Some(j) => {
            h.set(j, l);
        },
        None => {
            h.push(l);
        },
    }
}

/// Take the cached list for `path` out of the cache, if one is there.
fn history_remove(h: &mut Vec<DirectoryList>, path: &str) -> (r: Option<DirectoryList>)
    requires
        history_wf(old(h)@),
    ensures
        history_has(old(h)@, path@) ==> r == Some(old(h)@[history_idx(old(h)@, path@)])
            && final(h)@ == old(h)@.remove(history_idx(old(h)@, path@)),
        !history_has(old(h)@, path@) ==> r is None && final(h)@ == old(h)@,
        history_wf(final(h)@),
        r matches Some(l) ==> l.wf(),
{
    match history_find(h, path) {
        Some(j) => {
            let l = h.remove(j);
            proof {
                assert(forall|k: int|
                    0 <= k < h@.len() ==> #[trigger] h@[k] == (if k < j as int {
                        old(h)@[k]
                    } else {
                        old(h)@[k + 1]
                    }));
            }
            Some(l)
        },
        None => None,
    }
}

/// The ordered tabs of one session and the index of the active one.
#[derive(Debug)]
pub struct TabState {
    pub tabs: Vec<Tab>,
    pub index: usize,
}

impl TabState {
    pub open spec fn wf(self) -> bool {
        &&& self.tabs@.len() > 0
        &&& self.index < self.tabs@.len()
        &&& (forall|k: int| 0 <= k < self.tabs@.len() ==> (#[trigger] self.tabs@[k]).wf())
    }

    /// The active tab.
    pub open spec fn active(self) -> Tab {
        self.tabs@[self.index as int]
    }

    pub fn new(tab: Tab) -> (r: TabState)
        requires
            tab.wf(),
        ensures
            r.wf(),
            r.index == 0,
            r.tabs@.len() == 1,
            r.tabs@[0] == tab,
    {
        let mut tabs: Vec<Tab> = Vec::new();
        tabs.push(tab);
        TabState { tabs, index: 0 }
    }

    /// Detach the active tab's directory list, leaving the slot empty.
    pub fn take_active_list(&mut self) -> (r: Option<DirectoryList>)
        requires
            old(self).wf(),
        ensures
            final(self).wf(),
            final(self).index == old(self).index,
            final(self).tabs@ == old(self).tabs@.update(
                old(self).index as int,
                tab_with_list(old(self).active(), None),
            ),
            r == old(self).active().curr_list,
    {
        let i = self.index;
        let mut taken = Tab { cwd: String::new(), curr_list: None, history: Vec::new() };
        self.tabs.set_and_swap(i, &mut taken);
        let Tab { cwd, curr_list, history } = taken;
        self.tabs.set(i, Tab { cwd, curr_list: None, history });
        proof {
            assert(self.tabs@ =~= old(self).tabs@.update(
                old(self).index as int,
                tab_with_list(old(self).active(), None),
            ));
        }
        curr_list
    }

    /// Put a directory list back into the active tab's slot.
    pub fn put_active_list(&mut self, l: Option<DirectoryList>)
        requires
            old(self).wf(),
            (l matches Some(x) ==> x.wf()),
        ensures
            final(self).wf(),
            final(self).index == old(self).index,
            final(self).tabs@ == old(self).tabs@.update(
                old(self).index as int,
                tab_with_list(old(self).active(), l),
            ),
    {
        let i = self.index;
        let mut taken = Tab { cwd: String::new(), curr_list: None, history: Vec::new() };
        self.tabs.set_and_swap(i, &mut taken);
        let Tab { cwd, curr_list: _, history } = taken;
        self.tabs.set(i, Tab { cwd, curr_list: l, history });
        proof {
            assert(self.tabs@ =~= old(self).tabs@.update(
                old(self).index as int,
                tab_with_list(old(self).active(), l),
            ));
        }
    }
}

/// Process-wide interactive state: the tabs, the user-notice queue, and the
/// single overwritable slot holding the most recent captured stdout of an
/// external command.
#[derive(Debug)]
pub struct AppState {
    pub tab_state: TabState,
    pub message_queue: MessageQueue,
    pub last_stdout: Option<String>,
}

impl AppState {
    pub open spec fn wf(self) -> bool {
        self.tab_state.wf()
    }

    /// The active tab's directory list.
    pub open spec fn curr_list_spec(self) -> Option<DirectoryList> {
        self.tab_state.active().curr_list
    }

    pub fn new(tab_state: TabState) -> (r: AppState)
        requires
            tab_state.wf(),
        ensures
            r.wf(),
            r.tab_state == tab_state,
            r.message_queue.contents@.len() == 0,
            r.last_stdout is None,
    {
        AppState { tab_state, message_queue: MessageQueue::new(), last_stdout: None }
    }

    /// Record the stdout captured from the most recently completed external
    /// command, overwriting any prior capture.
    pub fn set_last_stdout(&mut self, captured: String)
        ensures
            *final(self) == (AppState { last_stdout: Some(captured), ..*old(self) }),
    {
        self.last_stdout = Some(captured);
    }
}

} // verus!
