//! The run: a state machine that decides what is done to the target, and when.
//!
//! A run hands out one [`Action`] at a time. The caller performs it and reports
//! what came of it as an [`Event`]; [`SyncRun::step`] answers with the next
//! action. A run that brings a target in line with a pack connects, reads the
//! record of the last run, removes every file of that record, resolves the
//! pack's manifest, then downloads and writes the manifest's files one by one,
//! and in the end saves the new record. A run that adopts a target as it is
//! connects, lists the mods directory and saves the record of what it found.
use crate::config::{delete_by_config, Record, UpdaterConfig};
use crate::document::{copy_text, text_of, texts};
use crate::error::SyncError;
use crate::ftp::{FtpLocation, Location};
use crate::generate::{listed_paths, listed_record};
use crate::mrpack::{entries_of, entry_paths, Entry, Mrpack, PackSource, Source};
use crate::paths::all_relative;
use vstd::prelude::*;

verus! {

/// What a target says.
pub ghost enum Place {
    Local(Seq<char>),
    Remote(Location),
}

/// The place that a run works on.
#[derive(Debug, PartialEq, Eq)]
pub enum Target {
    /// A folder on the local disk, by its path.
    Local(String),
    /// A folder behind a remote session.
    Remote(FtpLocation),
}

impl View for Target {
    type V = Place;

    open spec fn view(&self) -> Place {
        match self {
            Target::Local(root) => Place::Local(root@),
            Target::Remote(location) => Place::Remote(location@),
        }
    }
}

/// What an action says.
pub ghost enum ActionView {
    Connect(Place),
    LoadState,
    Remove(Seq<char>),
    Resolve(Source),
    Fetch(Seq<char>),
    Write(Seq<char>, Seq<u8>),
    List(Seq<char>),
    Save(Record),
    Done(Result<(), SyncError>),
}

/// What the caller is to do next.
#[derive(Debug, PartialEq, Eq)]
pub enum Action {
    /// Set up access to the target. Answered by `Connected`.
    Connect(Target),
    /// Read the record that the last run left. Answered by `StateLoaded`.
    LoadState,
    /// Remove the file at this path below the root. Answered by `Removed`.
    Remove(String),
    /// Read the pack from this source and resolve it. Answered by `Resolved`.
    Resolve(PackSource),
    /// Download what is behind this address. Answered by `Fetched`.
    Fetch(String),
    /// Write these bytes to the file at this path below the root, in place of
    /// what it held. Answered by `Written`.
    Write(String, Vec<u8>),
    /// List the directory at this path below the root. Answered by `Listed`.
    List(String),
    /// Save this record in place of the last one. Answered by `Saved`.
    Save(UpdaterConfig),
    /// The run is over, with this result.
    Done(Result<(), SyncError>),
}

impl View for Action {
    type V = ActionView;

    open spec fn view(&self) -> ActionView {
        match self {
            Action::Connect(target) => ActionView::Connect(target@),
            Action::LoadState => ActionView::LoadState,
            Action::Remove(path) => ActionView::Remove(path@),
            Action::Resolve(source) => ActionView::Resolve(source@),
            Action::Fetch(url) => ActionView::Fetch(url@),
            Action::Write(path, bytes) => ActionView::Write(path@, bytes@),
            Action::List(dir) => ActionView::List(dir@),
            Action::Save(record) => ActionView::Save(record@),
            Action::Done(result) => ActionView::Done(*result),
        }
    }
}

/// What an event says.
pub ghost enum EventView {
    Connected(bool),
    StateLoaded(Option<Record>),
    Removed(bool),
    Resolved(Result<(Seq<Entry>, Option<Seq<char>>), SyncError>),
    Fetched(Option<Seq<u8>>),
    Written(bool),
    Listed(Option<Seq<Seq<char>>>),
    Saved(Result<(), SyncError>),
}

/// What came of the action that was handed out last.
#[derive(Debug, PartialEq, Eq)]
pub enum Event {
    /// Whether access to the target was set up.
    Connected(bool),
    /// The record that the last run left; `None` where there is none, or none
    /// that can be read.
    StateLoaded(Option<UpdaterConfig>),
    /// Whether the file was removed.
    Removed(bool),
    /// The manifest and the address to remember, or why there is none.
    Resolved(Result<(Mrpack, Option<String>), SyncError>),
    /// The bytes behind the address; `None` where they could not be had.
    Fetched(Option<Vec<u8>>),
    /// Whether the file was written.
    Written(bool),
    /// The names in the directory; `None` where it could not be listed.
    Listed(Option<Vec<String>>),
    /// Whether the record was saved, or why it was not.
    Saved(Result<(), SyncError>),
}

impl View for Event {
    type V = EventView;

    open spec fn view(&self) -> EventView {
        match self {
            Event::Connected(ok) => EventView::Connected(*ok),
            Event::StateLoaded(prior) => EventView::StateLoaded(
                match prior {
                    Some(record) => Some(record@),
                    None => None,
                },
            ),
            Event::Removed(ok) => EventView::Removed(*ok),
            Event::Resolved(found) => EventView::Resolved(
                match found {
                    Ok((pack, origin)) => Ok((pack@, text_of(*origin))),
                    Err(e) => Err(*e),
                },
            ),
            Event::Fetched(body) => EventView::Fetched(
                match body {
                    Some(bytes) => Some(bytes@),
                    None => None,
                },
            ),
            Event::Written(ok) => EventView::Written(*ok),
            Event::Listed(names) => EventView::Listed(
                match names {
                    Some(list) => Some(texts(list@)),
                    None => None,
                },
            ),
            Event::Saved(result) => EventView::Saved(*result),
        }
    }
}

/// Where a run stands: what it waits for.
#[derive(Clone, Copy, Debug, PartialEq, Eq, Structural)]
pub enum Phase {
    /// Waiting for access to the target.
    Connecting,
    /// Waiting for the record of the last run.
    Loading,
    /// Waiting for the removal of a file of the last run.
    Deleting,
    /// Waiting for the manifest.
    Resolving,
    /// Waiting for the bytes of a file of the manifest.
    Fetching,
    /// Waiting for those bytes to be written.
    Writing,
    /// Waiting for the names in the mods directory.
    Listing,
    /// Waiting for the new record to be saved.
    Saving,
    /// Over.
    Finished,
}

/// What a run holds.
pub ghost struct RunView {
    /// What the run waits for.
    pub phase: Phase,
    /// Whether the run adopts the target as it is, instead of changing it.
    pub generating: bool,
    /// Where the manifest is taken from.
    pub source: Source,
    /// The files of the last run's record.
    pub stale: Seq<Seq<char>>,
    /// The manifest, once it is resolved.
    pub manifest: Seq<Entry>,
    /// The address to remember, once the manifest is resolved.
    pub origin: Option<Seq<char>>,
    /// While deleting, the place in `stale` of the file whose removal is
    /// awaited; while fetching and writing, the place in `manifest` of the entry
    /// that is being brought over.
    pub cursor: nat,
    /// How the run ended, once it is over.
    pub result: Result<(), SyncError>,
}

/// A run's bookkeeping is in order: the cursor points at what is awaited, and
/// every path that the run holds stays below the root.
pub open spec fn run_wf(s: RunView) -> bool {
    &&& s.phase == Phase::Deleting ==> s.cursor < s.stale.len()
    &&& all_relative(s.stale)
    &&& (s.phase == Phase::Fetching || s.phase == Phase::Writing) ==> s.cursor < s.manifest.len()
        && s.manifest[s.cursor as int].downloads.len() > 0
    &&& all_relative(entry_paths(s.manifest))
}

/// The directory whose files a generated record lists.
pub open spec fn mods_dir() -> Seq<char> {
    "mods"@
}

/// The run ends with `result`.
pub open spec fn finish(s: RunView, result: Result<(), SyncError>) -> (RunView, ActionView) {
    (RunView { phase: Phase::Finished, result, ..s }, ActionView::Done(result))
}

/// The deletion goes on at the cursor: the next file of the last record is to
/// be removed, or, past the last of them, the manifest is to be resolved.
pub open spec fn delete_from(s: RunView) -> (RunView, ActionView) {
    if s.cursor < s.stale.len() {
        (RunView { phase: Phase::Deleting, ..s }, ActionView::Remove(s.stale[s.cursor as int]))
    } else {
        (RunView { phase: Phase::Resolving, ..s }, ActionView::Resolve(s.source))
    }
}

/// The files that the record of the last run asks to be removed. There are none
/// where there is no record, or where the record names a path that leads out of
/// the root.
pub open spec fn stale_of(prior: Option<Record>) -> Seq<Seq<char>> {
    match prior {
        Some(record) => if all_relative(record.files) {
            record.files
        } else {
            Seq::empty()
        },
        None => Seq::empty(),
    }
}

/// The record that a completed run saves: the paths of the manifest, in order,
/// and the address the manifest came from.
pub open spec fn new_record(s: RunView) -> Record {
    Record { files: entry_paths(s.manifest), pack_endpoint: s.origin }
}

/// The transfer goes on at the cursor: the first link of the next entry is to
/// be downloaded; an entry without links ends the run; past the last entry the
/// new record is to be saved.
pub open spec fn fetch_from(s: RunView) -> (RunView, ActionView) {
    if s.cursor < s.manifest.len() {
        let entry = s.manifest[s.cursor as int];
        if entry.downloads.len() == 0 {
            finish(s, Err(SyncError::NoDownloadLinks))
        } else {
            (RunView { phase: Phase::Fetching, ..s }, ActionView::Fetch(entry.downloads[0]))
        }
    } else {
        (RunView { phase: Phase::Saving, ..s }, ActionView::Save(new_record(s)))
    }
}

/// A run before anything is known of it.
pub open spec fn blank_run(source: Source, generating: bool) -> RunView {
    RunView {
        phase: Phase::Connecting,
        generating,
        source,
        stale: Seq::empty(),
        manifest: Seq::empty(),
        origin: None,
        cursor: 0,
        result: Ok(()),
    }
}

/// A run that is refused before it begins: it is over, with `error`.
pub open spec fn refuse_spec(error: SyncError) -> (RunView, ActionView) {
    finish(blank_run(Source::Unset, false), Err(error))
}

/// How a run begins. A run that is to change the target ends at once, with
/// `NoPackSource`, where no source is chosen; any other run begins by
/// connecting to the target.
pub open spec fn start_spec(target: Place, source: Source, generating: bool) -> (
    RunView,
    ActionView,
) {
    let s = blank_run(source, generating);
    if !generating && source is Unset {
        finish(s, Err(SyncError::NoPackSource))
    } else {
        (s, ActionView::Connect(target))
    }
}

/// How a run goes on when an event arrives.
///
/// - A failed connection ends the run with `Connection`.
/// - The files of the loaded record are removed in order; with no record, or
///   with one that names a path out of the root, there is nothing to remove.
///   Whether a removal succeeded changes nothing.
/// - A manifest that cannot be resolved ends the run with the resolver's error,
///   and one with a path that leads out of the root with `Deserialize`.
/// - Each entry is downloaded from its first link and then written; a failed
///   download ends the run with `GetFile`, a failed write with `CreateFile`, an
///   entry without links with `NoDownloadLinks`.
/// - A directory that cannot be listed, or that lists a name which leads out of
///   the root, ends the run with `ReadModDirectory`.
/// - The run succeeds when the new record is saved, and ends with the error of
///   the save otherwise.
/// - A run that is over stays over and repeats its result.
/// - An event that does not answer the pending action ends the run with
///   `OutOfTurn`.
pub open spec fn step_spec(s: RunView, e: EventView) -> (RunView, ActionView) {
    match (s.phase, e) {
        (Phase::Finished, _) => (s, ActionView::Done(s.result)),
        (Phase::Connecting, EventView::Connected(ok)) => {
            if !ok {
                finish(s, Err(SyncError::Connection))
            } else if s.generating {
                (RunView { phase: Phase::Listing, ..s }, ActionView::List(mods_dir()))
            } else {
                (RunView { phase: Phase::Loading, ..s }, ActionView::LoadState)
            }
        },
        (Phase::Loading, EventView::StateLoaded(prior)) => delete_from(
            RunView { stale: stale_of(prior), cursor: 0, ..s },
        ),
        (Phase::Deleting, EventView::Removed(_)) => delete_from(
            RunView { cursor: s.cursor + 1, ..s },
        ),
        (Phase::Resolving, EventView::Resolved(found)) => match found {
            Ok((manifest, origin)) => {
                if all_relative(entry_paths(manifest)) {
                    fetch_from(RunView { manifest, origin, cursor: 0, ..s })
                } else {
                    finish(s, Err(SyncError::Deserialize))
                }
            },
            Err(e) => finish(s, Err(e)),
        },
        (Phase::Fetching, EventView::Fetched(body)) => match body {
            Some(bytes) => (
                RunView { phase: Phase::Writing, ..s },
                ActionView::Write(s.manifest[s.cursor as int].path, bytes),
            ),
            None => finish(s, Err(SyncError::GetFile)),
        },
        (Phase::Writing, EventView::Written(ok)) => {
            if ok {
                fetch_from(RunView { cursor: s.cursor + 1, ..s })
            } else {
                finish(s, Err(SyncError::CreateFile))
            }
        },
        (Phase::Listing, EventView::Listed(names)) => match names {
            Some(list) => {
                if all_relative(listed_paths(list)) {
                    (
                        RunView { phase: Phase::Saving, ..s },
                        ActionView::Save(Record { files: listed_paths(list), pack_endpoint: None }),
                    )
                } else {
                    finish(s, Err(SyncError::ReadModDirectory))
                }
            },
            None => finish(s, Err(SyncError::ReadModDirectory)),
        },
        (Phase::Saving, EventView::Saved(result)) => finish(s, result),
        _ => finish(s, Err(SyncError::OutOfTurn)),
    }
}

/// A run in progress.
#[derive(Debug)]
pub struct SyncRun {
    phase: Phase,
    generating: bool,
    source: PackSource,
    stale: Vec<String>,
    manifest: Mrpack,
    origin: Option<String>,
    cursor: usize,
    result: Result<(), SyncError>,
}

impl View for SyncRun {
    type V = RunView;

    closed spec fn view(&self) -> RunView {
        RunView {
            phase: self.phase,
            generating: self.generating,
            source: self.source@,
            stale: texts(self.stale@),
            manifest: self.manifest@,
            origin: text_of(self.origin),
            cursor: self.cursor as nat,
            result: self.result,
        }
    }
}

impl SyncRun {
    #[verifier::type_invariant]
    spec fn well_formed(self) -> bool {
        run_wf(self@)
    }

    /// Begins a run on `target`. A run that is `generating` records what the
    /// target holds; any other run brings the target in line with the pack of
    /// `source`.
    pub fn start(target: Target, source: PackSource, generating: bool) -> (r: (SyncRun, Action))
        ensures
            (r.0@, r.1@) == start_spec(target@, source@, generating),
            run_wf(r.0@),
    {
        let unset = match &source {
            PackSource::Unset => true,
            _ => false,
        };
        let run = SyncRun {
            phase: Phase::Connecting,
            generating,
            source,
            stale: Vec::new(),
            manifest: Mrpack::empty(),
            origin: None,
            cursor: 0,
            result: Ok(()),
        };
        assert(run@.stale =~= Seq::empty());
        if !generating && unset {
            run.finish(Err(SyncError::NoPackSource))
        } else {
            (run, Action::Connect(target))
        }
    }

    /// A run that is over before it began, with `error`.
    pub fn refuse(error: SyncError) -> (r: (SyncRun, Action))
        ensures
            (r.0@, r.1@) == refuse_spec(error),
            run_wf(r.0@),
    {
        let run = SyncRun {
            phase: Phase::Connecting,
            generating: false,
            source: PackSource::Unset,
            stale: Vec::new(),
            manifest: Mrpack::empty(),
            origin: None,
            cursor: 0,
            result: Ok(()),
        };
        assert(run@.stale =~= Seq::empty());
        run.finish(Err(error))
    }

    /// What the run waits for.
    pub fn phase(&self) -> (r: Phase)
        ensures
            r == self@.phase,
    {
        self.phase
    }

    /// Whether the run is over.
    pub fn is_finished(&self) -> (r: bool)
        ensures
            r == (self@.phase == Phase::Finished),
    {
        self.phase == Phase::Finished
    }

    fn finish(self, result: Result<(), SyncError>) -> (r: (SyncRun, Action))
        ensures
            (r.0@, r.1@) == finish(self@, result),
    {
        proof {
            use_type_invariant(&self);
        }
        (SyncRun { phase: Phase::Finished, result, ..self }, Action::Done(result))
    }

    fn delete_from(self, cursor: usize) -> (r: (SyncRun, Action))
        ensures
            (r.0@, r.1@) == delete_from(RunView { cursor: cursor as nat, ..self@ }),
    {
        proof {
            use_type_invariant(&self);
        }
        if cursor < self.stale.len() {
            let path = self.stale[cursor].clone();
            (SyncRun { phase: Phase::Deleting, cursor, ..self }, Action::Remove(path))
        } else {
            let source = self.source.clone();
            (SyncRun { phase: Phase::Resolving, cursor, ..self }, Action::Resolve(source))
        }
    }

    fn fetch_from(self, cursor: usize) -> (r: (SyncRun, Action))
        ensures
            (r.0@, r.1@) == fetch_from(RunView { cursor: cursor as nat, ..self@ }),
    {
        proof {
            use_type_invariant(&self);
        }
        let entries = self.manifest.entries();
        if cursor < entries.len() {
            let entry = &entries[cursor];
            if entry.downloads.len() == 0 {
                (SyncRun { cursor, phase: Phase::Resolving, ..self }).finish(
                    Err(SyncError::NoDownloadLinks),
                )
            } else {
                let url = entry.downloads[0].clone();
                (SyncRun { phase: Phase::Fetching, cursor, ..self }, Action::Fetch(url))
            }
        } else {
            let files = self.manifest.paths();
            let record = UpdaterConfig::of_relative(files, copy_text(&self.origin));
            (SyncRun { phase: Phase::Saving, cursor, ..self }, Action::Save(record))
        }
    }

    /// Takes in what came of the pending action and hands out the next one.
    pub fn step(self, event: Event) -> (r: (SyncRun, Action))
        ensures
            (r.0@, r.1@) == step_spec(self@, event@),
            run_wf(r.0@),
    {
        proof {
            use_type_invariant(&self);
        }
        let r = self.advance(event);
        proof {
            use_type_invariant(&r.0);
        }
        r
    }

    fn advance(self, event: Event) -> (r: (SyncRun, Action))
        ensures
            (r.0@, r.1@) == step_spec(self@, event@),
    {
        proof {
            use_type_invariant(&self);
        }
        match self.phase {
            Phase::Finished => {
                let result = self.result;
                (self, Action::Done(result))
            },
            Phase::Connecting => match event {
                Event::Connected(ok) => {
                    if !ok {
                        self.finish(Err(SyncError::Connection))
                    } else if self.generating {
                        (SyncRun { phase: Phase::Listing, ..self }, Action::List("mods".to_owned()))
                    } else {
                        (SyncRun { phase: Phase::Loading, ..self }, Action::LoadState)
                    }
                },
                _ => self.finish(Err(SyncError::OutOfTurn)),
            },
            Phase::Loading => match event {
                Event::StateLoaded(prior) => {
                    let stale = match prior {
                        Some(record) => delete_by_config(&record),
                        None => {
                            let none: Vec<String> = Vec::new();
                            assert(texts(none@) =~= Seq::empty());
                            none
                        },
                    };
                    (SyncRun { stale, ..self }).delete_from(0)
                },
                _ => self.finish(Err(SyncError::OutOfTurn)),
            },
            Phase::Deleting => match event {
                Event::Removed(_) => {
                    assert(texts(self.stale@).len() == self.stale@.len());
                    assert(self.cursor < self.stale.len());
                    let next = self.cursor + 1;
                    self.delete_from(next)
                },
                _ => self.finish(Err(SyncError::OutOfTurn)),
            },
            Phase::Resolving => match event {
                Event::Resolved(found) => match found {
                    Ok((manifest, origin)) => {
                        let _ = manifest.entries();
                        (SyncRun { manifest, origin, ..self }).fetch_from(0)
                    },
                    Err(e) => self.finish(Err(e)),
                },
                _ => self.finish(Err(SyncError::OutOfTurn)),
            },
            Phase::Fetching => match event {
                Event::Fetched(body) => match body {
                    Some(bytes) => {
                        let path = self.manifest.entries()[self.cursor].path.clone();
                        (SyncRun { phase: Phase::Writing, ..self }, Action::Write(path, bytes))
                    },
                    None => self.finish(Err(SyncError::GetFile)),
                },
                _ => self.finish(Err(SyncError::OutOfTurn)),
            },
            Phase::Writing => match event {
                Event::Written(ok) => {
                    if ok {
                        let entries = self.manifest.entries();
                        assert(entries_of(entries@).len() == entries@.len());
                        assert(self.cursor < entries.len());
                        let next = self.cursor + 1;
                        self.fetch_from(next)
                    } else {
                        self.finish(Err(SyncError::CreateFile))
                    }
                },
                _ => self.finish(Err(SyncError::OutOfTurn)),
            },
            Phase::Listing => match event {
                Event::Listed(names) => match names {
                    Some(list) => match listed_record(&list) {
                        Some(record) => (
                            SyncRun { phase: Phase::Saving, ..self },
                            Action::Save(record),
                        ),
                        None => self.finish(Err(SyncError::ReadModDirectory)),
                    },
                    None => self.finish(Err(SyncError::ReadModDirectory)),
                },
                _ => self.finish(Err(SyncError::OutOfTurn)),
            },
            Phase::Saving => match event {
                Event::Saved(result) => self.finish(result),
                _ => self.finish(Err(SyncError::OutOfTurn)),
            },
        }
    }
}

} // verus!
