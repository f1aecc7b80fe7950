//! The library service: how many files of one device are processed at once,
//! and the progress events that an ingestion emits, one for each scanned
//! file.

use vstd::prelude::*;
use crate::errors::CoreError;
use crate::errors::prefixed;
use crate::errors::ScanError;
use crate::scan::ScanGroup;
use crate::scan::ScannedFile;
use crate::text::str_eq;
use vstd::set_lib::*;

verus! {

/// Files processed at once on a device faster than 500 MiB/s.
pub const CONCURRENCY_FAST: usize = 50;

/// Files processed at once on a device faster than 100 MiB/s.
pub const CONCURRENCY_MEDIUM: usize = 20;

/// Files processed at once on a slower device of known bandwidth.
pub const CONCURRENCY_SLOW: usize = 4;

/// Files processed at once on a device of unknown bandwidth.
pub const CONCURRENCY_UNKNOWN: usize = 8;

/// The concurrency ceiling that belongs to a bandwidth tier.
pub open spec fn concurrency_for(mb_s_hint: Option<u64>) -> usize {
    match mb_s_hint {
        Some(speed) => if speed > 500 {
            CONCURRENCY_FAST
        } else if speed > 100 {
            CONCURRENCY_MEDIUM
        } else {
            CONCURRENCY_SLOW
        },
        None => CONCURRENCY_UNKNOWN,
    }
}

/// Chooses how many files of one device are processed concurrently, from the
/// device's measured bandwidth in MiB/s.
pub fn decide_concurrency(mb_s_hint: Option<u64>) -> (k: usize)
    ensures
        k == concurrency_for(mb_s_hint),
{
    match mb_s_hint {
        Some(speed) => {
            if speed > 500 {
                CONCURRENCY_FAST
            } else if speed > 100 {
                CONCURRENCY_MEDIUM
            } else {
                CONCURRENCY_SLOW
            }
        },
        None => CONCURRENCY_UNKNOWN,
    }
}

/// The files of the first `upto` groups, counted.
pub open spec fn files_in(groups: Seq<ScanGroup>, upto: int) -> int
    decreases upto,
{
    if upto <= 0 {
        0
    } else {
        files_in(groups, upto - 1) + groups[upto - 1].files@.len()
    }
}

/// The number of files of a scan, which the observer is told at the start.
pub fn total_files(groups: &Vec<ScanGroup>) -> (total: usize)
    requires
        files_in(groups@, groups.len() as int) <= usize::MAX,
    ensures
        total == files_in(groups@, groups.len() as int),
{
    let mut total: usize = 0;
    let mut i: usize = 0;
    while i < groups.len()
        invariant
            i <= groups.len(),
            total == files_in(groups@, i as int),
            files_in(groups@, groups.len() as int) <= usize::MAX,
        decreases groups.len() - i,
    {
        proof {
            lemma_files_in_grows(groups@, i + 1, groups.len() as int);
        }
        total = total + groups[i].files.len();
        i += 1;
    }
    total
}

proof fn lemma_files_in_grows(groups: Seq<ScanGroup>, a: int, b: int)
    requires
        0 <= a <= b,
    ensures
        files_in(groups, a) <= files_in(groups, b),
    decreases b - a,
{
    if a < b {
        lemma_files_in_grows(groups, a, b - 1);
    }
}

/// The number of files of a scan, or `None` where it exceeds what the
/// machine can count.
pub fn checked_total_files(groups: &Vec<ScanGroup>) -> (total: Option<usize>)
    ensures
        total is Some <==> files_in(groups@, groups.len() as int) <= usize::MAX,
        total matches Some(n) ==> n == files_in(groups@, groups.len() as int),
{
    let mut total: usize = 0;
    let mut i: usize = 0;
    while i < groups.len()
        invariant
            i <= groups.len(),
            total == files_in(groups@, i as int),
        decreases groups.len() - i,
    {
        let n = groups[i].files.len();
        if n > usize::MAX - total {
            proof {
                lemma_files_in_grows(groups@, i + 1, groups.len() as int);
            }
            return None;
        }
        total = total + n;
        i += 1;
    }
    Some(total)
}

/// The error of an ingestion whose scan failed.
pub fn scan_failed(err: &ScanError) -> (r: CoreError)
    ensures
        r matches CoreError::Scan(m) && m@ == err.message(),
{
    CoreError::Scan(err.to_string())
}

/// A step in the processing of one file.
#[derive(Debug, Clone, Copy, PartialEq, Eq, Structural)]
pub enum FileStage {
    /// The metadata of the file is being extracted.
    Probing,
    /// The song is being saved.
    SavingSong,
    /// The release is being saved.
    SavingRelease,
    /// The track is being saved.
    SavingTrack,
}

/// What follows a step in the processing of one file.
#[derive(Debug, PartialEq, Eq)]
pub enum FileNext {
    /// The next step to take.
    Continue(FileStage),
    /// The file is done and is reported as a success.
    Succeeded,
    /// The file has failed and is reported with this message.
    Failed(String),
}

/// The words that open the message of a failure at a stage.
pub open spec fn failure_prefix(stage: FileStage) -> Seq<char> {
    match stage {
        FileStage::Probing => "Metadata error: "@,
        FileStage::SavingSong => "Repo song error: "@,
        FileStage::SavingRelease => "Repo release error: "@,
        FileStage::SavingTrack => "Repo track error: "@,
    }
}

/// The step that follows a stage that went well, for a file with or without
/// release and track: the song is saved first, then the release, then the
/// track.
pub open spec fn stage_after(stage: FileStage, has_release: bool, has_track: bool) -> Option<
    FileStage,
> {
    match stage {
        FileStage::Probing => Some(FileStage::SavingSong),
        FileStage::SavingSong => if has_release {
            Some(FileStage::SavingRelease)
        } else if has_track {
            Some(FileStage::SavingTrack)
        } else {
            None
        },
        FileStage::SavingRelease => if has_track {
            Some(FileStage::SavingTrack)
        } else {
            None
        },
        FileStage::SavingTrack => None,
    }
}

/// Decides what follows a step in the processing of one file. `result` is
/// how the step ended, an error with its message. An error ends the file at
/// once: errors belong to their file and never to the batch.
pub fn after_stage(
    stage: FileStage,
    result: Result<(), String>,
    has_release: bool,
    has_track: bool,
) -> (next: FileNext)
    ensures
        match result {
            Err(e) => next matches FileNext::Failed(m) && m@ == failure_prefix(stage) + e@,
            Ok(_) => match stage_after(stage, has_release, has_track) {
                Some(following) => next == FileNext::Continue(following),
                None => next == FileNext::Succeeded,
            },
        },
{
    match result {
        Err(e) => {
            let message = match stage {
                FileStage::Probing => prefixed("Metadata error: ", e.as_str()),
                FileStage::SavingSong => prefixed("Repo song error: ", e.as_str()),
                FileStage::SavingRelease => prefixed("Repo release error: ", e.as_str()),
                FileStage::SavingTrack => prefixed("Repo track error: ", e.as_str()),
            };
            FileNext::Failed(message)
        },
        Ok(_) => {
            match stage {
                FileStage::Probing => FileNext::Continue(FileStage::SavingSong),
                FileStage::SavingSong => {
                    if has_release {
                        FileNext::Continue(FileStage::SavingRelease)
                    } else if has_track {
                        FileNext::Continue(FileStage::SavingTrack)
                    } else {
                        FileNext::Succeeded
                    }
                },
                FileStage::SavingRelease => {
                    if has_track {
                        FileNext::Continue(FileStage::SavingTrack)
                    } else {
                        FileNext::Succeeded
                    }
                },
                FileStage::SavingTrack => FileNext::Succeeded,
            }
        },
    }
}

/// An event sent to the observer of an ingestion.
#[derive(Debug, PartialEq, Eq)]
pub enum ProgressEvent {
    /// The ingestion starts; so many files will be reported.
    Start(usize),
    /// The file at this path was ingested.
    Success(String),
    /// The file at this path failed, with this message.
    Error(String, String),
    /// The ingestion is over.
    Finish,
}

impl ProgressEvent {
    /// The name under which the event is sent to the observer.
    pub open spec fn event_name(&self) -> Seq<char> {
        match self {
            ProgressEvent::Start(_) => "library:import:start"@,
            ProgressEvent::Success(_) => "library:import:success"@,
            ProgressEvent::Error(_, _) => "library:import:error"@,
            ProgressEvent::Finish => "library:import:finish"@,
        }
    }

    /// The name under which the event is sent to the observer.
    pub fn name(&self) -> (r: &'static str)
        ensures
            r@ == self.event_name(),
    {
        match self {
            ProgressEvent::Start(_) => "library:import:start",
            ProgressEvent::Success(_) => "library:import:success",
            ProgressEvent::Error(_, _) => "library:import:error",
            ProgressEvent::Finish => "library:import:finish",
        }
    }

    /// Whether the event reports one file, as a success or as an error.
    pub open spec fn reports_file(&self) -> bool {
        self is Success || self is Error
    }
}

/// The path that a file event names.
pub open spec fn event_path(event: ProgressEvent) -> Seq<char> {
    match event {
        ProgressEvent::Success(path) => path@,
        ProgressEvent::Error(path, _) => path@,
        _ => Seq::empty(),
    }
}

/// The paths of files, in their order.
pub open spec fn file_paths(files: Seq<ScannedFile>) -> Seq<Seq<char>> {
    Seq::new(files.len(), |i: int| files[i].path@)
}

/// The paths of the files of the first `upto` groups, group after group.
pub open spec fn scanned_paths(groups: Seq<ScanGroup>, upto: int) -> Seq<Seq<char>>
    decreases upto,
{
    if upto <= 0 {
        Seq::empty()
    } else {
        scanned_paths(groups, upto - 1) + file_paths(groups[upto - 1].files@)
    }
}

/// Whether `log` is the run of events of an ingestion of the files at the
/// paths `scanned`, where the file event that comes `j`-th after the start
/// reports the file `scanned[slots[j]]`: the start with the number of files,
/// then file events that each name the path of a scanned file, no file
/// twice, then, if `finished`, the finish, with every file reported.
pub open spec fn is_run(
    log: Seq<ProgressEvent>,
    scanned: Seq<Seq<char>>,
    slots: Seq<int>,
    finished: bool,
) -> bool {
    &&& log.len() == 1 + slots.len() + if finished {
        1int
    } else {
        0int
    }
    &&& log[0] is Start
    &&& log[0]->Start_0 == scanned.len()
    &&& forall|j: int|
        0 <= j < slots.len() ==> {
            &&& 0 <= #[trigger] slots[j] < scanned.len()
            &&& log[1 + j].reports_file()
            &&& event_path(log[1 + j]) == scanned[slots[j]]
        }
    &&& forall|j: int, k: int| 0 <= j < k < slots.len() ==> slots[j] != slots[k]
    &&& finished ==> slots.len() == scanned.len() && log[1 + slots.len() as int] == ProgressEvent::Finish
}

/// Indices below `n`, none twice, are at most `n`; where they are `n`, each
/// index below `n` is among them.
proof fn lemma_slots_fill(slots: Seq<int>, n: int)
    requires
        0 <= n,
        forall|j: int| 0 <= j < slots.len() ==> 0 <= #[trigger] slots[j] < n,
        forall|j: int, k: int| 0 <= j < k < slots.len() ==> slots[j] != slots[k],
    ensures
        slots.len() <= n,
        slots.len() == n ==> forall|i: int| 0 <= i < n ==> slots.contains(i),
{
    let held = slots.to_set();
    let all = set_int_range(0, n);
    assert(slots.no_duplicates()) by {
        assert forall|j: int, k: int|
            0 <= j < slots.len() && 0 <= k < slots.len() && j != k implies slots[j] != slots[k] by {
            if j < k {
            } else {
                assert(k < j);
            }
        }
    }
    slots.unique_seq_to_set();
    lemma_int_range(0, n);
    assert(held.subset_of(all)) by {
        assert forall|x: int| held.contains(x) implies all.contains(x) by {
            assert(slots.contains(x));
        }
    }
    lemma_len_subset(held, all);
    if slots.len() == n {
        lemma_subset_equality(held, all);
        assert forall|i: int| 0 <= i < n implies slots.contains(i) by {
            assert(all.contains(i));
            assert(held.contains(i));
        }
    }
}

/// The progress of one ingestion: the files that the scan found, which of
/// them have been reported, and what has been told to the observer.
pub struct ImportSession {
    paths: Vec<String>,
    done: Vec<bool>,
    cursor: usize,
    reported: usize,
    finished: bool,
    log: Ghost<Seq<ProgressEvent>>,
    slots: Ghost<Seq<int>>,
}

impl ImportSession {
    /// The paths of the files that the scan found, in the scan's order.
    pub closed spec fn scanned(&self) -> Seq<Seq<char>> {
        Seq::new(self.paths@.len(), |i: int| self.paths@[i]@)
    }

    /// The events sent so far, in order.
    pub closed spec fn log(&self) -> Seq<ProgressEvent> {
        self.log@
    }

    /// For each file event sent so far, the index in `scanned` of the file
    /// that it reported.
    pub closed spec fn slots(&self) -> Seq<int> {
        self.slots@
    }

    /// Whether the finish has been sent.
    pub closed spec fn finished(&self) -> bool {
        self.finished
    }

    /// The number of files of the ingestion.
    pub open spec fn total(&self) -> nat {
        self.scanned().len()
    }

    /// The number of files reported so far.
    pub open spec fn reported(&self) -> nat {
        self.slots().len()
    }

    /// Whether the file `scanned[i]` is still to be reported.
    pub open spec fn pending(&self, i: int) -> bool {
        0 <= i < self.scanned().len() && !self.slots().contains(i)
    }

    /// Whether a file at `path` is still to be reported.
    pub open spec fn expects(&self, path: Seq<char>) -> bool {
        exists|i: int| self.pending(i) && self.scanned()[i] == path
    }

    /// The events sent so far form the run of an ingestion of the scanned
    /// files, and the session's marks agree with it.
    pub closed spec fn wf(&self) -> bool {
        &&& self.done@.len() == self.paths@.len()
        &&& self.cursor <= self.done@.len()
        &&& forall|i: int| 0 <= i < self.cursor ==> self.done@[i]
        &&& self.reported == self.slots@.len()
        &&& forall|i: int| 0 <= i < self.done@.len() ==> self.done@[i] == self.slots@.contains(i)
        &&& is_run(self.log@, self.scanned(), self.slots@, self.finished)
    }

    /// Decides how an ingestion goes on after the scan. A scan that failed
    /// fails the ingestion with the scan's error, and nothing is reported.
    /// Otherwise the session holds the path of every file of the scan, and
    /// the first event is the start with their number.
    pub fn begin(scanned: &Result<Vec<ScanGroup>, ScanError>) -> (r: Result<
        (ImportSession, ProgressEvent),
        CoreError,
    >)
        ensures
            match scanned {
                Err(e) => r matches Err(CoreError::Scan(m)) && m@ == e.message(),
                Ok(groups) => {
                    &&& r matches Ok(started)
                    &&& started.0.wf()
                    &&& started.0.scanned() == scanned_paths(groups@, groups.len() as int)
                    &&& started.0.total() == files_in(groups@, groups.len() as int)
                    &&& started.0.slots() == Seq::<int>::empty()
                    &&& !started.0.finished()
                    &&& started.1 == ProgressEvent::Start(started.0.total() as usize)
                    &&& started.0.log() == seq![started.1]
                },
            },
    {
        let groups = match scanned {
            Err(e) => {
                return Err(scan_failed(e));
            },
            Ok(groups) => groups,
        };
        let mut paths: Vec<String> = Vec::new();
        let mut done: Vec<bool> = Vec::new();
        let mut g: usize = 0;
        while g < groups.len()
            invariant
                g <= groups.len(),
                done@.len() == paths@.len(),
                forall|i: int| 0 <= i < done@.len() ==> !done@[i],
                Seq::new(paths@.len(), |i: int| paths@[i]@) == scanned_paths(groups@, g as int),
                paths@.len() == files_in(groups@, g as int),
            decreases groups.len() - g,
        {
            let files = &groups[g].files;
            let ghost before = Seq::new(paths@.len(), |i: int| paths@[i]@);
            let mut k: usize = 0;
            while k < files.len()
                invariant
                    k <= files.len(),
                    done@.len() == paths@.len(),
                    forall|i: int| 0 <= i < done@.len() ==> !done@[i],
                    Seq::new(paths@.len(), |i: int| paths@[i]@) == before + file_paths(
                        files@,
                    ).take(k as int),
                decreases files.len() - k,
            {
                let ghost held = Seq::new(paths@.len(), |i: int| paths@[i]@);
                paths.push(files[k].path.clone());
                done.push(false);
                proof {
                    let now = Seq::new(paths@.len(), |i: int| paths@[i]@);
                    assert(now =~= held.push(files@[k as int].path@));
                    assert(file_paths(files@).take(k + 1) =~= file_paths(files@).take(
                        k as int,
                    ).push(files@[k as int].path@));
                    assert(now =~= before + file_paths(files@).take(k + 1));
                }
                k += 1;
            }
            proof {
                assert(file_paths(files@).take(k as int) =~= file_paths(files@));
            }
            g += 1;
        }
        let total = paths.len();
        let ghost started = seq![ProgressEvent::Start(total)];
        let session = ImportSession {
            paths,
            done,
            cursor: 0,
            reported: 0,
            finished: false,
            log: Ghost(started),
            slots: Ghost(Seq::empty()),
        };
        Ok((session, ProgressEvent::Start(total)))
    }

    /// The number of files of the ingestion.
    pub fn total_files(&self) -> (n: usize)
        ensures
            n == self.total(),
    {
        self.paths.len()
    }

    /// Files that are still to be reported.
    pub fn remaining(&self) -> (n: usize)
        requires
            self.wf(),
        ensures
            n == self.total() - self.reported(),
            self.reported() <= self.total(),
    {
        proof {
            lemma_slots_fill(self.slots@, self.scanned().len() as int);
        }
        self.paths.len() - self.reported
    }

    /// Whether the finish has been sent.
    pub fn is_finished(&self) -> (r: bool)
        ensures
            r == self.finished(),
    {
        self.finished
    }

    /// Reports one file: a success with its path, or an error with path and
    /// message. The event is owed where the ingestion is not finished and a
    /// scanned file at that path is still to be reported; it then stands
    /// for the first such file, which is reported from then on. Otherwise
    /// there is no event and the session stays as it is: no file is
    /// reported twice, and no path that the scan did not find.
    pub fn report(&mut self, outcome: Result<String, (String, String)>) -> (event: Option<
        ProgressEvent,
    >)
        requires
            old(self).wf(),
        ensures
            final(self).wf(),
            final(self).scanned() == old(self).scanned(),
            final(self).finished() == old(self).finished(),
            event is Some <==> !old(self).finished() && old(self).expects(outcome_path(outcome)),
            match event {
                Some(sent) => {
                    &&& sent == outcome_event(outcome)
                    &&& final(self).log() == old(self).log().push(sent)
                    &&& exists|i: int|
                        {
                            &&& #[trigger] old(self).pending(i)
                            &&& old(self).scanned()[i] == outcome_path(outcome)
                            &&& forall|k: int|
                                0 <= k < i && #[trigger] old(self).pending(k) ==> old(
                                    self,
                                ).scanned()[k] != outcome_path(outcome)
                            &&& final(self).slots() == old(self).slots().push(i)
                        }
                },
                None => final(self).log() == old(self).log() && final(self).slots() == old(
                    self,
                ).slots(),
            },
    {
        if self.finished {
            return None;
        }
        let len = self.paths.len();
        let mut i: usize = self.cursor;
        let mut found = false;
        while i < len && !found
            invariant
                *self == *old(self),
                self.wf(),
                len == self.paths@.len(),
                self.cursor <= i <= len,
                forall|k: int|
                    self.cursor <= k < i - (if found { 1int } else { 0int }) ==> !(!self.done@[k]
                        && self.paths@[k]@ == outcome_path(outcome)),
                found ==> i >= 1 && self.cursor <= i - 1 && !self.done@[i - 1] && self.paths@[i
                    - 1]@ == outcome_path(outcome),
            decreases len - i + (if found { 0int } else { 1int }),
        {
            let same = match &outcome {
                Ok(path) => str_eq(self.paths[i].as_str(), path.as_str()),
                Err(failure) => str_eq(self.paths[i].as_str(), failure.0.as_str()),
            };
            if !self.done[i] && same {
                found = true;
            }
            i += 1;
        }
        if !found {
            proof {
                assert forall|k: int| old(self).pending(k) implies old(self).scanned()[k]
                    != outcome_path(outcome) by {
                    assert(!self.done@[k]);
                }
            }
            return None;
        }
        let at: usize = i - 1;
        let event = match outcome {
            Ok(path) => ProgressEvent::Success(path),
            Err(failure) => ProgressEvent::Error(failure.0, failure.1),
        };
        proof {
            assert(old(self).pending(at as int));
            lemma_slots_fill(self.slots@.push(at as int), self.scanned().len() as int);
        }
        self.done.set(at, true);
        let mut next: usize = self.cursor;
        while next < len && self.done[next]
            invariant
                len == self.done@.len(),
                next <= len,
                forall|k: int| 0 <= k < next ==> self.done@[k],
            decreases len - next,
        {
            next += 1;
        }
        self.cursor = next;
        self.reported = self.reported + 1;
        self.log = Ghost(self.log@.push(event));
        self.slots = Ghost(self.slots@.push(at as int));
        proof {
            let was = old(self).slots@;
            let now = self.slots@;
            assert(self.scanned() == old(self).scanned());
            assert forall|k: int| 0 <= k < self.done@.len() implies self.done@[k] == now.contains(
                k,
            ) by {
                if k == at {
                    assert(now[was.len() as int] == k);
                    assert(now.contains(k));
                } else if old(self).done@[k] {
                    assert(was.contains(k));
                    let j = choose|j: int| 0 <= j < was.len() && was[j] == k;
                    assert(now[j] == k);
                    assert(now.contains(k));
                } else {
                    assert(!self.done@[k]);
                    assert(!was.contains(k));
                    if now.contains(k) {
                        let j = choose|j: int| 0 <= j < now.len() && now[j] == k;
                        if j < was.len() {
                            assert(was[j] == k);
                            assert(was.contains(k));
                        }
                    }
                }
            }
            assert(is_run(self.log@, self.scanned(), now, false)) by {
                assert forall|j: int, k: int| 0 <= j < k < now.len() implies now[j] != now[k] by {
                    if k == was.len() {
                        assert(was[j] == now[j]);
                        assert(was.contains(now[j]));
                    }
                }
            }
        }
        Some(event)
    }

    /// Ends the ingestion once every file has been reported: the last event
    /// is the finish. The run is then complete: the start with the number of
    /// files, one success or error for each file, the finish.
    pub fn finish(&mut self) -> (event: ProgressEvent)
        requires
            old(self).wf(),
            !old(self).finished(),
            old(self).reported() == old(self).total(),
        ensures
            final(self).wf(),
            final(self).finished(),
            final(self).scanned() == old(self).scanned(),
            final(self).slots() == old(self).slots(),
            event == ProgressEvent::Finish,
            final(self).log() == old(self).log().push(ProgressEvent::Finish),
            is_run(final(self).log(), final(self).scanned(), final(self).slots(), true),
    {
        self.finished = true;
        self.log = Ghost(self.log@.push(ProgressEvent::Finish));
        proof {
            assert(self.scanned() == old(self).scanned());
        }
        ProgressEvent::Finish
    }
}

/// The path that the outcome of a file names.
pub open spec fn outcome_path(outcome: Result<String, (String, String)>) -> Seq<char> {
    match outcome {
        Ok(path) => path@,
        Err(failure) => failure.0@,
    }
}

/// The event that reports the outcome of a file.
pub open spec fn outcome_event(outcome: Result<String, (String, String)>) -> ProgressEvent {
    match outcome {
        Ok(path) => ProgressEvent::Success(path),
        Err(failure) => ProgressEvent::Error(failure.0, failure.1),
    }
}

/// The events of a session form a run over the files that it holds.
pub proof fn lemma_session_run(session: ImportSession)
    requires
        session.wf(),
    ensures
        is_run(session.log(), session.scanned(), session.slots(), session.finished()),
{
}

/// In the run of an ingestion the start comes before every file event and
/// the finish after them, and the file events are as many as were reported:
/// at the finish, as many as the scan produced.
pub proof fn lemma_run_counts(
    log: Seq<ProgressEvent>,
    scanned: Seq<Seq<char>>,
    slots: Seq<int>,
    finished: bool,
)
    requires
        is_run(log, scanned, slots, finished),
    ensures
        log.filter(|e: ProgressEvent| e.reports_file()).len() == slots.len(),
        finished ==> log.filter(|e: ProgressEvent| e.reports_file()).len() == scanned.len(),
        log.filter(|e: ProgressEvent| e is Start).len() == 1,
        log[0] is Start,
        finished ==> log.last() is Finish,
        forall|i: int| 0 < i < log.len() ==> !(#[trigger] log[i] is Start),
        forall|i: int| 0 <= i < log.len() - 1 ==> !(#[trigger] log[i] is Finish),
    decreases log.len(),
{
    let files = |e: ProgressEvent| e.reports_file();
    let starts = |e: ProgressEvent| e is Start;
    let before = log.drop_last();
    assert(log == before.push(log.last()));
    before.lemma_filter_push(log.last(), files);
    before.lemma_filter_push(log.last(), starts);
    assert forall|i: int| 0 < i < log.len() - 1 implies (#[trigger] log[i]).reports_file() by {
        assert(0 <= slots[i - 1]);
    }
    if finished {
        assert(is_run(before, scanned, slots, false));
        lemma_run_counts(before, scanned, slots, false);
    } else if slots.len() > 0 {
        let fewer = slots.drop_last();
        assert(is_run(before, scanned, fewer, false)) by {
            assert forall|j: int| 0 <= j < fewer.len() implies {
                &&& 0 <= #[trigger] fewer[j] < scanned.len()
                &&& before[1 + j].reports_file()
                &&& event_path(before[1 + j]) == scanned[fewer[j]]
            } by {
                assert(fewer[j] == slots[j]);
            }
            assert forall|j: int, k: int| 0 <= j < k < fewer.len() implies fewer[j] != fewer[k] by {
                assert(fewer[j] == slots[j] && fewer[k] == slots[k]);
            }
        }
        lemma_run_counts(before, scanned, fewer, false);
        assert(0 <= slots[slots.len() - 1]);
        assert(log.last() == log[1 + (slots.len() - 1)]);
    } else {
        assert(before.len() == 0);
        assert(before.filter(files).len() == 0) by {
            reveal(Seq::filter);
        }
        assert(before.filter(starts).len() == 0) by {
            reveal(Seq::filter);
        }
    }
}

/// Whether the file event that comes `j`-th after the start reports the
/// file `scanned[i]`, by its path.
pub open spec fn stands_for(
    log: Seq<ProgressEvent>,
    scanned: Seq<Seq<char>>,
    slots: Seq<int>,
    j: int,
    i: int,
) -> bool {
    &&& 0 <= j < slots.len()
    &&& slots[j] == i
    &&& log[1 + j].reports_file()
    &&& event_path(log[1 + j]) == scanned[i]
}

/// Whether some file event reports the file `scanned[i]`, by its path.
pub open spec fn is_reported(
    log: Seq<ProgressEvent>,
    scanned: Seq<Seq<char>>,
    slots: Seq<int>,
    i: int,
) -> bool {
    exists|j: int| #[trigger] stands_for(log, scanned, slots, j, i)
}

/// In a finished run each scanned file is reported exactly once, by its
/// path: one file event stands for it and names its path, no second event
/// stands for it, and every file event stands for a scanned file.
pub proof fn lemma_each_file_once(
    log: Seq<ProgressEvent>,
    scanned: Seq<Seq<char>>,
    slots: Seq<int>,
)
    requires
        is_run(log, scanned, slots, true),
    ensures
        forall|i: int| 0 <= i < scanned.len() ==> #[trigger] is_reported(log, scanned, slots, i),
        forall|j: int, k: int|
            0 <= j < slots.len() && 0 <= k < slots.len() && slots[j] == slots[k] ==> j == k,
        forall|j: int|
            0 <= j < slots.len() ==> 0 <= #[trigger] slots[j] < scanned.len() && event_path(
                log[1 + j],
            ) == scanned[slots[j]],
{
    lemma_slots_fill(slots, scanned.len() as int);
    assert forall|i: int| 0 <= i < scanned.len() implies #[trigger] is_reported(
        log,
        scanned,
        slots,
        i,
    ) by {
        assert(slots.contains(i));
        let j = choose|j: int| 0 <= j < slots.len() && slots[j] == i;
        assert(stands_for(log, scanned, slots, j, i));
    }
    assert forall|j: int, k: int|
        0 <= j < slots.len() && 0 <= k < slots.len() && slots[j] == slots[k] implies j == k by {
        if j < k {
        } else if k < j {
        }
    }
}

} // verus!
