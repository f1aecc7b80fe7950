//! The directory walker: a depth-first walk of a tree that enters no
//! directory twice and none below the depth limit.
//!
//! The walker reads nothing itself. It is a machine that asks its driver for
//! one thing at a time (the identity of a directory, to open it, its next
//! entry, the filter's answer) and decides from the reply what comes next.
//! The driver keeps the opened directories on a stack of its own: it pushes
//! the directory it opened, reads entries from the one on top, and drops the
//! top when its entries have ended or could not be read.

use vstd::prelude::*;
use std::collections::HashSet;

verus! {

broadcast use vstd::std_specs::hash::group_hash_axioms;

/// How a tree is walked.
#[derive(Debug, Clone, Copy, PartialEq, Eq, Structural)]
pub struct WalkConfig {
    /// Whether links to directories are entered.
    pub follow_symlinks: bool,
    /// Entries deeper than this below the root are not entered.
    pub max_depth: usize,
    /// Whether a directory that was entered once is never entered again.
    pub dedup_dirs: bool,
}

impl Default for WalkConfig {
    fn default() -> (r: Self)
        ensures
            r == (WalkConfig { follow_symlinks: true, max_depth: 100, dedup_dirs: true }),
    {
        WalkConfig { follow_symlinks: true, max_depth: 100, dedup_dirs: true }
    }
}

/// What a filter answers for an entry.
#[derive(Debug, Clone, Copy, PartialEq, Eq, Structural)]
pub enum Filtering {
    /// Do not yield the entry; if it is a directory, enter it still.
    Ignore,
    /// Do not yield the entry, nor enter it.
    IgnoreDir,
    /// Yield the entry.
    Continue,
}

/// The identity of a file on its volume.
#[derive(Debug, Clone, Copy, PartialEq, Eq, Hash, Structural)]
pub struct FileId {
    pub volume: u64,
    pub index: u64,
}

/// The identity of a file as one number: volume and index side by side.
pub open spec fn key_of(id: FileId) -> u128 {
    (id.volume * 0x1_0000_0000_0000_0000 + id.index) as u128
}

/// Two files with one key are one file.
pub proof fn lemma_key_is_one_to_one(a: FileId, b: FileId)
    requires
        key_of(a) == key_of(b),
    ensures
        a == b,
{
}

fn key(id: FileId) -> (k: u128)
    ensures
        k == key_of(id),
{
    (id.volume as u128) * 0x1_0000_0000_0000_0000 + (id.index as u128)
}

/// The kind of an entry, a link being a link.
#[derive(Debug, Clone, Copy, PartialEq, Eq, Structural)]
pub enum EntryKind {
    File,
    Dir,
    Symlink,
    Other,
}

/// An entry that the walk came upon.
#[derive(Debug, PartialEq, Eq)]
pub struct WalkEntry {
    pub path: String,
    /// Depth below the root, whose entries have depth 1.
    pub depth: usize,
    pub file_type: EntryKind,
}

impl WalkEntry {
    /// The path of the entry.
    pub fn path(&self) -> (r: &str)
        ensures
            r@ == self.path@,
    {
        self.path.as_str()
    }
}

impl Clone for WalkEntry {
    fn clone(&self) -> (r: Self)
        ensures
            r == *self,
    {
        WalkEntry { path: self.path.clone(), depth: self.depth, file_type: self.file_type }
    }
}

/// A directory on the walker's stack.
#[derive(Debug, PartialEq, Eq)]
pub enum Frame {
    /// A directory that is still to be entered. `id_hint` is its identity
    /// where the walker knows it already.
    Pending { path: String, depth: usize, id_hint: Option<FileId> },
    /// A directory that was opened and is being read.
    Open { depth: usize },
}

/// What the walker asks its driver to do.
#[derive(Debug, PartialEq, Eq)]
pub enum WalkRequest {
    /// Read the metadata of `path`, following links; reply with `Stat`.
    Stat { path: String },
    /// Open the directory `path`; reply with `Opened`.
    OpenDir { path: String },
    /// Read the next entry of the directory on top and its kind; reply with
    /// `Entry`.
    NextEntry,
    /// Ask the filter about `entry`; reply with `Filtered`.
    Filter { entry: WalkEntry },
    /// Read the metadata of what the link `path` leads to; reply with
    /// `Resolved`.
    ResolveLink { path: String },
    /// Hand this entry on as the next item of the walk; reply with `Resume`.
    Yield(WalkEntry),
    /// Hand this error on as the next item of the walk; reply with `Resume`.
    YieldError(String),
    /// The walk is over.
    Done,
}

/// What the driver found when it read the next entry of a directory.
#[derive(Debug, PartialEq, Eq)]
pub enum EntryRead {
    /// An entry with its path and kind.
    Found { path: String, kind: EntryKind },
    /// The directory has no further entry. The driver has dropped it.
    End,
    /// The directory could not be read further. The driver has dropped it.
    ReadFailed(String),
    /// The kind of the entry could not be read. The directory stays open.
    KindFailed(String),
}

/// The driver's reply to a request.
#[derive(Debug, PartialEq, Eq)]
pub enum WalkReply {
    /// Start the walk, or go on after an item was handed on.
    Resume,
    /// The metadata was read: the identity of the directory, or `None` where
    /// the path is no directory. An error carries its message.
    Stat(Result<Option<FileId>, String>),
    /// The directory was opened, or could not be, with a message.
    Opened(Result<(), String>),
    /// The next entry of the directory on top.
    Entry(EntryRead),
    /// The filter's answer.
    Filtered(Filtering),
    /// What a link leads to: `Some` where it is a directory, with its
    /// identity where that was read; `None` where it is none or could not be
    /// told.
    Resolved(Option<Option<FileId>>),
}

/// What the walker waits for.
#[derive(Debug, PartialEq, Eq)]
pub enum Waiting {
    /// For `Resume`.
    Resume,
    /// For the identity of the directory that is to be entered.
    Stat { path: String, depth: usize },
    /// For the directory to be opened.
    Opened { depth: usize },
    /// For the next entry of the directory on top.
    Entry,
    /// For the filter's answer about an entry.
    Filtered { entry: WalkEntry },
    /// For the target of a link that the filter let pass.
    Resolved { entry: WalkEntry, filtering: Filtering },
    /// For nothing: the walk is over.
    Finished,
}

/// The state of a walk as a value.
pub struct WalkState {
    pub cfg: WalkConfig,
    /// Whether a filter is asked about each entry.
    pub filtered: bool,
    pub stack: Seq<Frame>,
    /// The directories that were entered, where they are entered once.
    pub visited: Set<FileId>,
    pub waiting: Waiting,
}

/// Whether a reply answers what the walker waits for.
pub open spec fn answers(waiting: Waiting, reply: WalkReply) -> bool {
    match waiting {
        Waiting::Resume => reply is Resume,
        Waiting::Stat { path, depth } => reply is Stat,
        Waiting::Opened { depth } => reply is Opened,
        Waiting::Entry => reply is Entry,
        Waiting::Filtered { entry } => reply is Filtered,
        Waiting::Resolved { entry, filtering } => reply is Resolved,
        Waiting::Finished => true,
    }
}

/// Looks at the top of the stack until there is something to ask for: a
/// directory being read is asked for its next entry; a directory to be
/// entered is dropped if it lies too deep or was entered before, and is else
/// identified (where directories are entered once) and opened.
pub open spec fn settle(cfg: WalkConfig, filtered: bool, stack: Seq<Frame>, visited: Set<FileId>) -> (
    WalkState,
    WalkRequest,
)
    decreases stack.len(), 0int,
{
    if stack.len() == 0 {
        (WalkState { cfg, filtered, stack, visited, waiting: Waiting::Finished }, WalkRequest::Done)
    } else {
        match stack.last() {
            Frame::Open { depth } => (
                WalkState { cfg, filtered, stack, visited, waiting: Waiting::Entry },
                WalkRequest::NextEntry,
            ),
            Frame::Pending { path, depth, id_hint } => {
                let rest = stack.drop_last();
                if depth > cfg.max_depth {
                    settle(cfg, filtered, rest, visited)
                } else if cfg.dedup_dirs {
                    match id_hint {
                        Some(id) => enter(cfg, filtered, rest, visited, path, depth, Some(id)),
                        None => (
                            WalkState {
                                cfg,
                                filtered,
                                stack: rest,
                                visited,
                                waiting: Waiting::Stat { path, depth },
                            },
                            WalkRequest::Stat { path },
                        ),
                    }
                } else {
                    enter(cfg, filtered, rest, visited, path, depth, None)
                }
            },
        }
    }
}

/// Enters a directory whose identity is `id`, if known: one that was
/// entered before is passed over; any other is noted as entered and opened.
pub open spec fn enter(
    cfg: WalkConfig,
    filtered: bool,
    stack: Seq<Frame>,
    visited: Set<FileId>,
    path: String,
    depth: usize,
    id: Option<FileId>,
) -> (WalkState, WalkRequest)
    decreases stack.len(), 1int,
{
    match id {
        Some(id) => if visited.contains(id) {
            settle(cfg, filtered, stack, visited)
        } else {
            (
                WalkState {
                    cfg,
                    filtered,
                    stack,
                    visited: visited.insert(id),
                    waiting: Waiting::Opened { depth },
                },
                WalkRequest::OpenDir { path },
            )
        },
        None => (
            WalkState { cfg, filtered, stack, visited, waiting: Waiting::Opened { depth } },
            WalkRequest::OpenDir { path },
        ),
    }
}

/// Hands an entry on if the filter said so, and goes on otherwise.
pub open spec fn emit(
    cfg: WalkConfig,
    filtered: bool,
    stack: Seq<Frame>,
    visited: Set<FileId>,
    entry: WalkEntry,
    filtering: Filtering,
) -> (WalkState, WalkRequest) {
    if filtering == Filtering::Continue {
        (WalkState { cfg, filtered, stack, visited, waiting: Waiting::Resume }, WalkRequest::Yield(entry))
    } else {
        settle(cfg, filtered, stack, visited)
    }
}

/// Whether the walk descends into an entry: the filter must not forbid it
/// and the entry must not lie below the depth limit.
pub open spec fn descends(cfg: WalkConfig, entry: WalkEntry, filtering: Filtering) -> bool {
    filtering != Filtering::IgnoreDir && entry.depth <= cfg.max_depth
}

/// What follows the filter's answer about an entry: a directory that the
/// walk descends into is put on the stack; a link that it may follow is
/// resolved first; then the entry is handed on, if the filter said so.
pub open spec fn after_filter(s: WalkState, entry: WalkEntry, filtering: Filtering) -> (
    WalkState,
    WalkRequest,
) {
    if descends(s.cfg, entry, filtering) && entry.file_type == EntryKind::Dir {
        emit(
            s.cfg,
            s.filtered,
            s.stack.push(Frame::Pending { path: entry.path, depth: entry.depth, id_hint: None }),
            s.visited,
            entry,
            filtering,
        )
    } else if descends(s.cfg, entry, filtering) && entry.file_type == EntryKind::Symlink
        && s.cfg.follow_symlinks {
        (
            WalkState { waiting: Waiting::Resolved { entry, filtering }, ..s },
            WalkRequest::ResolveLink { path: entry.path },
        )
    } else {
        emit(s.cfg, s.filtered, s.stack, s.visited, entry, filtering)
    }
}

/// The step of the walk: from a state and the reply to its last request to
/// the next state and request.
pub open spec fn step_of(s: WalkState, reply: WalkReply) -> (WalkState, WalkRequest) {
    match s.waiting {
        Waiting::Finished => (s, WalkRequest::Done),
        Waiting::Resume => settle(s.cfg, s.filtered, s.stack, s.visited),
        Waiting::Stat { path, depth } => match reply {
            WalkReply::Stat(Ok(id)) => enter(
                s.cfg,
                s.filtered,
                s.stack,
                s.visited,
                path,
                depth,
                id,
            ),
            WalkReply::Stat(Err(e)) => (
                WalkState { waiting: Waiting::Resume, ..s },
                WalkRequest::YieldError(e),
            ),
            _ => (s, WalkRequest::Done),
        },
        Waiting::Opened { depth } => match reply {
            WalkReply::Opened(Ok(_)) => settle(
                s.cfg,
                s.filtered,
                s.stack.push(Frame::Open { depth }),
                s.visited,
            ),
            WalkReply::Opened(Err(e)) => (
                WalkState { waiting: Waiting::Resume, ..s },
                WalkRequest::YieldError(e),
            ),
            _ => (s, WalkRequest::Done),
        },
        Waiting::Entry => match reply {
            WalkReply::Entry(EntryRead::Found { path, kind }) => {
                let entry = WalkEntry {
                    path,
                    depth: (s.stack.last()->Open_depth + 1) as usize,
                    file_type: kind,
                };
                if s.filtered {
                    (
                        WalkState { waiting: Waiting::Filtered { entry }, ..s },
                        WalkRequest::Filter { entry },
                    )
                } else {
                    after_filter(s, entry, Filtering::Continue)
                }
            },
            WalkReply::Entry(EntryRead::End) => settle(
                s.cfg,
                s.filtered,
                s.stack.drop_last(),
                s.visited,
            ),
            WalkReply::Entry(EntryRead::ReadFailed(e)) => (
                WalkState { stack: s.stack.drop_last(), waiting: Waiting::Resume, ..s },
                WalkRequest::YieldError(e),
            ),
            WalkReply::Entry(EntryRead::KindFailed(e)) => (
                WalkState { waiting: Waiting::Resume, ..s },
                WalkRequest::YieldError(e),
            ),
            _ => (s, WalkRequest::Done),
        },
        Waiting::Filtered { entry } => match reply {
            WalkReply::Filtered(filtering) => after_filter(s, entry, filtering),
            _ => (s, WalkRequest::Done),
        },
        Waiting::Resolved { entry, filtering } => match reply {
            WalkReply::Resolved(Some(id)) => emit(
                s.cfg,
                s.filtered,
                s.stack.push(
                    Frame::Pending {
                        path: entry.path,
                        depth: entry.depth,
                        id_hint: if s.cfg.dedup_dirs {
                            id
                        } else {
                            None
                        },
                    },
                ),
                s.visited,
                entry,
                filtering,
            ),
            WalkReply::Resolved(None) => emit(
                s.cfg,
                s.filtered,
                s.stack,
                s.visited,
                entry,
                filtering,
            ),
            _ => (s, WalkRequest::Done),
        },
    }
}

/// Whether a state is one that a walk can be in: no directory on the stack
/// lies below the depth limit, and where the walker waits for an entry a
/// directory is being read.
pub open spec fn state_ok(s: WalkState) -> bool {
    &&& s.cfg.max_depth < usize::MAX
    &&& forall|i: int|
        0 <= i < s.stack.len() ==> match #[trigger] s.stack[i] {
            Frame::Open { depth } => depth <= s.cfg.max_depth,
            Frame::Pending { path, depth, id_hint } => depth <= s.cfg.max_depth + 1,
        }
    &&& s.waiting is Entry ==> s.stack.len() > 0 && s.stack.last() is Open
    &&& (match s.waiting {
        Waiting::Stat { path, depth } => depth <= s.cfg.max_depth,
        Waiting::Opened { depth } => depth <= s.cfg.max_depth,
        Waiting::Filtered { entry } => entry.depth <= s.cfg.max_depth + 1,
        Waiting::Resolved { entry, filtering } => entry.depth <= s.cfg.max_depth + 1,
        _ => true,
    })
}

/// Whether the frames of a stack lie within the depth limit.
pub open spec fn frames_ok(cfg: WalkConfig, stack: Seq<Frame>) -> bool {
    forall|i: int|
        0 <= i < stack.len() ==> match #[trigger] stack[i] {
            Frame::Open { depth } => depth <= cfg.max_depth,
            Frame::Pending { path, depth, id_hint } => depth <= cfg.max_depth + 1,
        }
}

/// The walker of one tree.
#[derive(Debug)]
pub struct Walker {
    cfg: WalkConfig,
    filtered: bool,
    stack: Vec<Frame>,
    visited: HashSet<u128>,
    waiting: Waiting,
}

impl Walker {
    /// The state of the walk.
    pub closed spec fn view(&self) -> WalkState {
        WalkState {
            cfg: self.cfg,
            filtered: self.filtered,
            stack: self.stack@,
            visited: Set::new(|id: FileId| self.visited@.contains(key_of(id))),
            waiting: self.waiting,
        }
    }

    /// A walk of the tree under `root` that has not started: the root is
    /// the one directory to be entered, at depth 0. A filter is asked about
    /// each entry if `filtered`; else every entry is yielded.
    pub fn new(root: String, cfg: WalkConfig, filtered: bool) -> (walker: Self)
        requires
            cfg.max_depth < usize::MAX,
        ensures
            state_ok(walker@),
            walker@.cfg == cfg,
            walker@.filtered == filtered,
            walker@.stack == seq![Frame::Pending { path: root, depth: 0, id_hint: None }],
            walker@.visited == Set::<FileId>::empty(),
            walker@.waiting == Waiting::Resume,
    {
        let mut stack: Vec<Frame> = Vec::new();
        stack.push(Frame::Pending { path: root, depth: 0, id_hint: None });
        assert(stack@ == seq![Frame::Pending { path: root, depth: 0, id_hint: None }]);
        let walker = Walker {
            cfg,
            filtered,
            stack,
            visited: HashSet::new(),
            waiting: Waiting::Resume,
        };
        assert(walker@.visited =~= Set::<FileId>::empty());
        walker
    }

    /// Whether the walk is over.
    pub fn is_done(&self) -> (r: bool)
        ensures
            r == (self@.waiting is Finished),
    {
        match self.waiting {
            Waiting::Finished => true,
            _ => false,
        }
    }

    fn was_visited(&self, id: FileId) -> (r: bool)
        ensures
            r == self@.visited.contains(id),
    {
        let k = key(id);
        self.visited.contains(&k)
    }

    fn settle(&mut self) -> (request: WalkRequest)
        requires
            old(self)@.cfg.max_depth < usize::MAX,
            frames_ok(old(self)@.cfg, old(self)@.stack),
        ensures
            (final(self)@, request) == settle(
                old(self)@.cfg,
                old(self)@.filtered,
                old(self)@.stack,
                old(self)@.visited,
            ),
            state_ok(final(self)@),
    {
        loop
            invariant
                self@.cfg == old(self)@.cfg,
                self@.filtered == old(self)@.filtered,
                self@.cfg.max_depth < usize::MAX,
                frames_ok(self@.cfg, self@.stack),
                settle(self@.cfg, self@.filtered, self@.stack, self@.visited) == settle(
                    old(self)@.cfg,
                    old(self)@.filtered,
                    old(self)@.stack,
                    old(self)@.visited,
                ),
            decreases self.stack.len(),
        {
            let ghost at_start = self@;
            let top = match self.stack.pop() {
                None => {
                    self.waiting = Waiting::Finished;
                    return WalkRequest::Done;
                },
                Some(top) => top,
            };
            let ghost before = self.stack@.push(top);
            assert(before == at_start.stack);
            assert(before.drop_last() == self.stack@);
            assert(before.last() == top);
            assert forall|i: int| 0 <= i < self.stack@.len() implies match #[trigger] self.stack@[i] {
                Frame::Open { depth } => depth <= self.cfg.max_depth,
                Frame::Pending { path, depth, id_hint } => depth <= self.cfg.max_depth + 1,
            } by {
                assert(self.stack@[i] == before[i]);
            }
            match top {
                Frame::Open { depth } => {
                    self.stack.push(Frame::Open { depth });
                    assert(self.stack@ == before);
                    self.waiting = Waiting::Entry;
                    return WalkRequest::NextEntry;
                },
                Frame::Pending { path, depth, id_hint } => {
                    if depth > self.cfg.max_depth {
                        continue ;
                    }
                    proof {
                            reveal_with_fuel(settle, 2);
                            reveal_with_fuel(enter, 2);
                    }
                    if self.cfg.dedup_dirs {
                        match id_hint {
                            Some(id) => {
                                assert(settle(
                                    at_start.cfg,
                                    at_start.filtered,
                                    at_start.stack,
                                    at_start.visited,
                                ) == enter(
                                    at_start.cfg,
                                    at_start.filtered,
                                    self.stack@,
                                    at_start.visited,
                                    path,
                                    depth,
                                    Some(id),
                                ));
                                if self.was_visited(id) {
                                    continue ;
                                }
                                self.note_visited(id);
                                self.waiting = Waiting::Opened { depth };
                                return WalkRequest::OpenDir { path };
                            },
                            None => {
                                self.waiting = Waiting::Stat { path: path.clone(), depth };
                                return WalkRequest::Stat { path };
                            },
                        }
                    } else {
                        assert(settle(
                            at_start.cfg,
                            at_start.filtered,
                            at_start.stack,
                            at_start.visited,
                        ) == enter(
                            at_start.cfg,
                            at_start.filtered,
                            self.stack@,
                            at_start.visited,
                            path,
                            depth,
                            None,
                        ));
                        self.waiting = Waiting::Opened { depth };
                        return WalkRequest::OpenDir { path };
                    }
                },
            }
        }
    }

    fn note_visited(&mut self, id: FileId)
        ensures
            final(self)@.visited == old(self)@.visited.insert(id),
            final(self)@.cfg == old(self)@.cfg,
            final(self)@.filtered == old(self)@.filtered,
            final(self)@.stack == old(self)@.stack,
            final(self)@.waiting == old(self)@.waiting,
    {
        let k = key(id);
        let _ = self.visited.insert(k);
        proof {
            assert forall|other: FileId| key_of(other) == key_of(id) implies other == id by {
                lemma_key_is_one_to_one(other, id);
            }
            assert(self@.visited =~= old(self)@.visited.insert(id));
        }
    }

    fn enter(&mut self, path: String, depth: usize, id: Option<FileId>) -> (request: WalkRequest)
        requires
            old(self)@.cfg.max_depth < usize::MAX,
            frames_ok(old(self)@.cfg, old(self)@.stack),
            depth <= old(self)@.cfg.max_depth,
        ensures
            (final(self)@, request) == enter(
                old(self)@.cfg,
                old(self)@.filtered,
                old(self)@.stack,
                old(self)@.visited,
                path,
                depth,
                id,
            ),
            state_ok(final(self)@),
    {
        match id {
            Some(id) => {
                if self.was_visited(id) {
                    return self.settle();
                }
                self.note_visited(id);
            },
            None => {},
        }
        self.waiting = Waiting::Opened { depth };
        WalkRequest::OpenDir { path }
    }

    fn emit(&mut self, entry: WalkEntry, filtering: Filtering) -> (request: WalkRequest)
        requires
            old(self)@.cfg.max_depth < usize::MAX,
            frames_ok(old(self)@.cfg, old(self)@.stack),
        ensures
            (final(self)@, request) == emit(
                old(self)@.cfg,
                old(self)@.filtered,
                old(self)@.stack,
                old(self)@.visited,
                entry,
                filtering,
            ),
            state_ok(final(self)@),
    {
        match filtering {
            Filtering::Continue => {
                self.waiting = Waiting::Resume;
                WalkRequest::Yield(entry)
            },
            _ => self.settle(),
        }
    }

    fn push_frame(&mut self, frame: Frame)
        requires
            frames_ok(old(self)@.cfg, old(self)@.stack),
            match frame {
                Frame::Open { depth } => depth <= old(self)@.cfg.max_depth,
                Frame::Pending { path, depth, id_hint } => depth <= old(self)@.cfg.max_depth + 1,
            },
        ensures
            final(self)@.stack == old(self)@.stack.push(frame),
            frames_ok(final(self)@.cfg, final(self)@.stack),
            final(self)@.cfg == old(self)@.cfg,
            final(self)@.filtered == old(self)@.filtered,
            final(self)@.visited == old(self)@.visited,
            final(self)@.waiting == old(self)@.waiting,
    {
        self.stack.push(frame);
        proof {
            assert forall|i: int| 0 <= i < self.stack@.len() implies match #[trigger] self.stack@[i] {
                Frame::Open { depth } => depth <= self.cfg.max_depth,
                Frame::Pending { path, depth, id_hint } => depth <= self.cfg.max_depth + 1,
            } by {
                if i < old(self).stack@.len() {
                    assert(self.stack@[i] == old(self).stack@[i]);
                }
            }
        }
    }

    fn pop_frame(&mut self)
        requires
            old(self)@.stack.len() > 0,
            frames_ok(old(self)@.cfg, old(self)@.stack),
        ensures
            final(self)@.stack == old(self)@.stack.drop_last(),
            frames_ok(final(self)@.cfg, final(self)@.stack),
            final(self)@.cfg == old(self)@.cfg,
            final(self)@.filtered == old(self)@.filtered,
            final(self)@.visited == old(self)@.visited,
            final(self)@.waiting == old(self)@.waiting,
    {
        let _ = self.stack.pop();
        proof {
            assert(self.stack@ == old(self).stack@.drop_last());
            assert forall|i: int| 0 <= i < self.stack@.len() implies match #[trigger] self.stack@[i] {
                Frame::Open { depth } => depth <= self.cfg.max_depth,
                Frame::Pending { path, depth, id_hint } => depth <= self.cfg.max_depth + 1,
            } by {
                assert(self.stack@[i] == old(self).stack@[i]);
            }
        }
    }

    fn after_filter(&mut self, entry: WalkEntry, filtering: Filtering) -> (request: WalkRequest)
        requires
            old(self)@.cfg.max_depth < usize::MAX,
            frames_ok(old(self)@.cfg, old(self)@.stack),
            entry.depth <= old(self)@.cfg.max_depth + 1,
        ensures
            (final(self)@, request) == after_filter(old(self)@, entry, filtering),
            state_ok(final(self)@),
    {
        let descends = match filtering {
            Filtering::IgnoreDir => false,
            _ => entry.depth <= self.cfg.max_depth,
        };
        match entry.file_type {
            EntryKind::Dir => {
                if descends {
                    self.push_frame(
                        Frame::Pending { path: entry.path.clone(), depth: entry.depth, id_hint: None },
                    );
                }
                self.emit(entry, filtering)
            },
            EntryKind::Symlink => {
                if descends && self.cfg.follow_symlinks {
                    let path = entry.path.clone();
                    self.waiting = Waiting::Resolved { entry, filtering };
                    WalkRequest::ResolveLink { path }
                } else {
                    self.emit(entry, filtering)
                }
            },
            _ => self.emit(entry, filtering),
        }
    }

    /// Takes the reply to the last request and decides the next one. A
    /// reply that does not answer the request ends the walk with `Done` and
    /// changes nothing.
    pub fn step(&mut self, reply: WalkReply) -> (request: WalkRequest)
        requires
            state_ok(old(self)@),
        ensures
            (final(self)@, request) == step_of(old(self)@, reply),
            state_ok(final(self)@),
    {
        let mut waiting = Waiting::Resume;
        std::mem::swap(&mut waiting, &mut self.waiting);
        match waiting {
            Waiting::Finished => {
                self.waiting = Waiting::Finished;
                WalkRequest::Done
            },
            Waiting::Resume => match reply {
                _ => self.settle(),
            },
            Waiting::Stat { path, depth } => match reply {
                WalkReply::Stat(Ok(id)) => self.enter(path, depth, id),
                WalkReply::Stat(Err(e)) => {
                    self.waiting = Waiting::Resume;
                    WalkRequest::YieldError(e)
                },
                _ => {
                    self.waiting = Waiting::Stat { path, depth };
                    WalkRequest::Done
                },
            },
            Waiting::Opened { depth } => match reply {
                WalkReply::Opened(Ok(_)) => {
                    self.push_frame(Frame::Open { depth });
                    self.settle()
                },
                WalkReply::Opened(Err(e)) => {
                    self.waiting = Waiting::Resume;
                    WalkRequest::YieldError(e)
                },
                _ => {
                    self.waiting = Waiting::Opened { depth };
                    WalkRequest::Done
                },
            },
            Waiting::Entry => match reply {
                WalkReply::Entry(EntryRead::Found { path, kind }) => {
                    let depth = match &self.stack[self.stack.len() - 1] {
                        Frame::Open { depth } => *depth,
                        Frame::Pending { path, depth, id_hint } => *depth,
                    };
                    let entry = WalkEntry { path, depth: depth + 1, file_type: kind };
                    if self.filtered {
                        self.waiting = Waiting::Filtered { entry: entry.clone() };
                        WalkRequest::Filter { entry }
                    } else {
                        self.waiting = Waiting::Entry;
                        self.after_filter(entry, Filtering::Continue)
                    }
                },
                WalkReply::Entry(EntryRead::End) => {
                    self.pop_frame();
                    self.settle()
                },
                WalkReply::Entry(EntryRead::ReadFailed(e)) => {
                    self.pop_frame();
                    self.waiting = Waiting::Resume;
                    WalkRequest::YieldError(e)
                },
                WalkReply::Entry(EntryRead::KindFailed(e)) => {
                    self.waiting = Waiting::Resume;
                    WalkRequest::YieldError(e)
                },
                _ => {
                    self.waiting = Waiting::Entry;
                    WalkRequest::Done
                },
            },
            Waiting::Filtered { entry } => match reply {
                WalkReply::Filtered(filtering) => self.after_filter(entry, filtering),
                _ => {
                    self.waiting = Waiting::Filtered { entry };
                    WalkRequest::Done
                },
            },
            Waiting::Resolved { entry, filtering } => match reply {
                WalkReply::Resolved(Some(id)) => {
                    let id_hint = if self.cfg.dedup_dirs {
                        id
                    } else {
                        None
                    };
                    self.push_frame(
                        Frame::Pending { path: entry.path.clone(), depth: entry.depth, id_hint },
                    );
                    self.emit(entry, filtering)
                },
                WalkReply::Resolved(None) => self.emit(entry, filtering),
                _ => {
                    self.waiting = Waiting::Resolved { entry, filtering };
                    WalkRequest::Done
                },
            },
        }
    }
}

/// Starts a walk of the tree under `root` that yields every entry.
pub fn walk(root: String, cfg: WalkConfig) -> (walker: Walker)
    requires
        cfg.max_depth < usize::MAX,
    ensures
        state_ok(walker@),
        walker@.cfg == cfg,
        !walker@.filtered,
        walker@.stack == seq![Frame::Pending { path: root, depth: 0, id_hint: None }],
        walker@.visited == Set::<FileId>::empty(),
        walker@.waiting == Waiting::Resume,
{
    Walker::new(root, cfg, false)
}

/// Starts a walk of the tree under `root` in which a filter is asked about
/// each entry.
pub fn walk_filtered(root: String, cfg: WalkConfig) -> (walker: Walker)
    requires
        cfg.max_depth < usize::MAX,
    ensures
        state_ok(walker@),
        walker@.cfg == cfg,
        walker@.filtered,
        walker@.stack == seq![Frame::Pending { path: root, depth: 0, id_hint: None }],
        walker@.visited == Set::<FileId>::empty(),
        walker@.waiting == Waiting::Resume,
{
    Walker::new(root, cfg, true)
}

/// A step never forgets a directory that was entered.
pub proof fn lemma_step_keeps_visited(s: WalkState, reply: WalkReply, id: FileId)
    requires
        s.visited.contains(id),
    ensures
        step_of(s, reply).0.visited.contains(id),
{
    match s.waiting {
        Waiting::Finished => {},
        Waiting::Resume => {
            lemma_settle_keeps_visited(s.cfg, s.filtered, s.stack, s.visited, id);
        },
        Waiting::Stat { path, depth } => {
            if let WalkReply::Stat(Ok(found)) = reply {
                lemma_enter_keeps_visited(s.cfg, s.filtered, s.stack, s.visited, path, depth, found, id);
            }
        },
        Waiting::Opened { depth } => {
            lemma_settle_keeps_visited(
                s.cfg,
                s.filtered,
                s.stack.push(Frame::Open { depth }),
                s.visited,
                id,
            );
        },
        Waiting::Entry => {
            lemma_settle_keeps_visited(s.cfg, s.filtered, s.stack.drop_last(), s.visited, id);
            if let WalkReply::Entry(EntryRead::Found { path, kind }) = reply {
                let entry = WalkEntry {
                    path,
                    depth: (s.stack.last()->Open_depth + 1) as usize,
                    file_type: kind,
                };
                lemma_after_filter_keeps_visited(s, entry, Filtering::Continue, id);
            }
        },
        Waiting::Filtered { entry } => {
            if let WalkReply::Filtered(filtering) = reply {
                lemma_after_filter_keeps_visited(s, entry, filtering, id);
            }
        },
        Waiting::Resolved { entry, filtering } => {
            lemma_settle_keeps_visited(s.cfg, s.filtered, s.stack, s.visited, id);
            if let WalkReply::Resolved(Some(found)) = reply {
                lemma_settle_keeps_visited(
                    s.cfg,
                    s.filtered,
                    s.stack.push(
                        Frame::Pending {
                            path: entry.path,
                            depth: entry.depth,
                            id_hint: if s.cfg.dedup_dirs {
                                found
                            } else {
                                None
                            },
                        },
                    ),
                    s.visited,
                    id,
                );
            }
        },
    }
}

proof fn lemma_after_filter_keeps_visited(
    s: WalkState,
    entry: WalkEntry,
    filtering: Filtering,
    id: FileId,
)
    requires
        s.visited.contains(id),
    ensures
        after_filter(s, entry, filtering).0.visited.contains(id),
{
    lemma_settle_keeps_visited(s.cfg, s.filtered, s.stack, s.visited, id);
    lemma_settle_keeps_visited(
        s.cfg,
        s.filtered,
        s.stack.push(Frame::Pending { path: entry.path, depth: entry.depth, id_hint: None }),
        s.visited,
        id,
    );
}

proof fn lemma_settle_keeps_visited(
    cfg: WalkConfig,
    filtered: bool,
    stack: Seq<Frame>,
    visited: Set<FileId>,
    id: FileId,
)
    requires
        visited.contains(id),
    ensures
        settle(cfg, filtered, stack, visited).0.visited.contains(id),
    decreases stack.len(), 0int,
{
    if stack.len() > 0 {
        if let Frame::Pending { path, depth, id_hint } = stack.last() {
            let rest = stack.drop_last();
            if depth > cfg.max_depth {
                lemma_settle_keeps_visited(cfg, filtered, rest, visited, id);
            } else if cfg.dedup_dirs {
                if let Some(hint) = id_hint {
                    lemma_enter_keeps_visited(cfg, filtered, rest, visited, path, depth, Some(hint), id);
                }
            } else {
                lemma_enter_keeps_visited(cfg, filtered, rest, visited, path, depth, None, id);
            }
        }
    }
}

proof fn lemma_enter_keeps_visited(
    cfg: WalkConfig,
    filtered: bool,
    stack: Seq<Frame>,
    visited: Set<FileId>,
    path: String,
    depth: usize,
    found: Option<FileId>,
    id: FileId,
)
    requires
        visited.contains(id),
    ensures
        enter(cfg, filtered, stack, visited, path, depth, found).0.visited.contains(id),
    decreases stack.len(), 1int,
{
    if let Some(f) = found {
        if visited.contains(f) {
            lemma_settle_keeps_visited(cfg, filtered, stack, visited, id);
        }
    }
}

/// No directory is entered twice: a directory whose identity is among
/// those entered before is passed over, the walk going on as if it were not
/// there; any other is opened and its identity noted.
pub proof fn lemma_enter_once(
    cfg: WalkConfig,
    filtered: bool,
    stack: Seq<Frame>,
    visited: Set<FileId>,
    path: String,
    depth: usize,
    id: FileId,
)
    ensures
        !visited.contains(id) ==> enter(cfg, filtered, stack, visited, path, depth, Some(id)).1
            == (WalkRequest::OpenDir { path }),
        !visited.contains(id) ==> enter(
            cfg,
            filtered,
            stack,
            visited,
            path,
            depth,
            Some(id),
        ).0.visited == visited.insert(id),
        visited.contains(id) ==> enter(cfg, filtered, stack, visited, path, depth, Some(id))
            == settle(cfg, filtered, stack, visited),
{
}

} // verus!
