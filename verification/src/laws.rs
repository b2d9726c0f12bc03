//! What holds of every run.
//!
//! The first part speaks of a run under any sequence of events. The second part
//! plays a run against a target that does as it is told, and says what the run
//! leaves behind.
use crate::config::Record;
use crate::engine::{
    delete_from, fetch_from, finish, mods_dir, new_record, run_wf, stale_of, start_spec, step_spec,
    ActionView, EventView, Phase, Place, RunView,
};
use crate::error::SyncError;
use crate::generate::listed_paths;
use crate::mrpack::{entry_paths, Entry, Source};
use crate::paths::{all_relative, is_relative, parent_at};
use vstd::prelude::*;

verus! {

/// The run after it took in the first `n` of `events`.
pub open spec fn state_after(s: RunView, events: Seq<EventView>, n: nat) -> RunView
    decreases n,
{
    if n == 0 {
        s
    } else {
        step_spec(state_after(s, events, (n - 1) as nat), events[n - 1]).0
    }
}

/// The action with which the run answers the event at place `i` of `events`.
pub open spec fn answer(s: RunView, events: Seq<EventView>, i: int) -> ActionView {
    step_spec(state_after(s, events, i as nat), events[i]).1
}

/// How far a phase is into a run. No step leads to a phase that is less far.
pub open spec fn progress(phase: Phase) -> nat {
    match phase {
        Phase::Connecting => 0,
        Phase::Loading => 1,
        Phase::Listing => 1,
        Phase::Deleting => 2,
        Phase::Resolving => 3,
        Phase::Fetching => 4,
        Phase::Writing => 4,
        Phase::Saving => 5,
        Phase::Finished => 6,
    }
}

/// A step keeps the run's bookkeeping in order.
pub proof fn step_keeps_order(s: RunView, e: EventView)
    requires
        run_wf(s),
    ensures
        run_wf(step_spec(s, e).0),
{
}

/// Whether every path that an action names stays below the root.
pub open spec fn stays_below_root(a: ActionView) -> bool {
    match a {
        ActionView::Remove(path) => is_relative(path),
        ActionView::Write(path, _) => is_relative(path),
        ActionView::List(dir) => is_relative(dir),
        ActionView::Save(record) => all_relative(record.files),
        _ => true,
    }
}

/// A run never reaches out of the root: whatever a run in order is told, the
/// file that it asks to be removed or written, the directory that it asks to be
/// listed, and each file of the record that it asks to be saved stay below the
/// root.
pub proof fn run_stays_below_root(s: RunView, e: EventView)
    requires
        run_wf(s),
    ensures
        stays_below_root(step_spec(s, e).1),
{
    reveal_strlit("mods");
    assert forall|i: int| !parent_at(mods_dir(), i) by {}
    if step_spec(s, e).1 is Write {
        assert(entry_paths(s.manifest)[s.cursor as int] == s.manifest[s.cursor as int].path);
    }
}

/// Whether an action belongs to what follows the deletion: resolving the
/// manifest, downloading or writing a file, saving the record.
pub open spec fn follows_deletion(a: ActionView) -> bool {
    a is Resolve || a is Fetch || a is Write || a is Save
}

/// A step never leads back: the phase after it is at least as far into the run
/// as the phase before it. A step that asks for a removal leaves the run
/// deleting, and one that asks for what follows the deletion leaves it past
/// deleting.
pub proof fn step_goes_forward(s: RunView, e: EventView)
    ensures
        progress(step_spec(s, e).0.phase) >= progress(s.phase),
        step_spec(s, e).1 is Remove ==> step_spec(s, e).0.phase == Phase::Deleting,
        follows_deletion(step_spec(s, e).1) ==> progress(step_spec(s, e).0.phase) > progress(
            Phase::Deleting,
        ),
{
}

proof fn progress_climbs(s: RunView, events: Seq<EventView>, n: nat, m: nat)
    requires
        n <= m <= events.len(),
    ensures
        progress(state_after(s, events, n).phase) <= progress(state_after(s, events, m).phase),
    decreases m - n,
{
    if n < m {
        progress_climbs(s, events, n, (m - 1) as nat);
        step_goes_forward(state_after(s, events, (m - 1) as nat), events[m - 1]);
    }
}

/// Deletion precedes transfer: under any events, once a run has asked for the
/// manifest, for a download, for a file to be written or for the record to be
/// saved, it never again asks for a file to be removed. So every removal of a
/// run comes before every write of that run.
pub proof fn removals_precede_writes(s: RunView, events: Seq<EventView>, i: int, j: int)
    requires
        0 <= i < j < events.len(),
        follows_deletion(answer(s, events, i)),
    ensures
        !(answer(s, events, j) is Remove),
{
    step_goes_forward(state_after(s, events, i as nat), events[i]);
    step_goes_forward(state_after(s, events, j as nat), events[j]);
    progress_climbs(s, events, (i + 1) as nat, (j + 1) as nat);
}

/// A run that holds `manifest`, whose entry at place `k` has no link, has either
/// failed or is busy with an entry before `k`.
spec fn held_back(t: RunView, manifest: Seq<Entry>, k: int) -> bool {
    ||| t.phase == Phase::Finished && t.result is Err
    ||| {
        &&& t.manifest == manifest
        &&& t.phase == Phase::Fetching || t.phase == Phase::Writing
        &&& t.cursor < k
    }
}

proof fn held_back_stays(t: RunView, e: EventView, manifest: Seq<Entry>, k: int)
    requires
        held_back(t, manifest, k),
        0 <= k < manifest.len(),
        manifest[k].downloads.len() == 0,
    ensures
        held_back(step_spec(t, e).0, manifest, k),
        !(step_spec(t, e).1 is Save),
        step_spec(t, e).1 != ActionView::Done(Ok(())),
        step_spec(t, e).1 matches ActionView::Write(path, _) ==> t.cursor < k && path
            == manifest[t.cursor as int].path,
{
}

proof fn held_back_throughout(
    s: RunView,
    events: Seq<EventView>,
    manifest: Seq<Entry>,
    origin: Option<Seq<char>>,
    k: int,
    n: nat,
)
    requires
        s.phase == Phase::Resolving,
        events.len() > 0,
        events[0] == EventView::Resolved(Ok((manifest, origin))),
        0 <= k < manifest.len(),
        manifest[k].downloads.len() == 0,
        1 <= n <= events.len(),
    ensures
        held_back(state_after(s, events, n), manifest, k),
    decreases n,
{
    if n == 1 {
        assert(state_after(s, events, 0) == s);
    } else {
        held_back_throughout(s, events, manifest, origin, k, (n - 1) as nat);
        held_back_stays(state_after(s, events, (n - 1) as nat), events[n - 1], manifest, k);
    }
}

/// An entry without a link stops the run. Let a run receive a manifest whose
/// entry at place `k` lists no link. Then, whatever events follow, the run never
/// asks for the new record to be saved and never ends in success, and each file
/// that it asks to be written belongs to an entry before `k`.
pub proof fn entry_without_link_stops_run(
    s: RunView,
    events: Seq<EventView>,
    manifest: Seq<Entry>,
    origin: Option<Seq<char>>,
    k: int,
    i: int,
)
    requires
        s.phase == Phase::Resolving,
        events.len() > 0,
        events[0] == EventView::Resolved(Ok((manifest, origin))),
        0 <= k < manifest.len(),
        manifest[k].downloads.len() == 0,
        0 <= i < events.len(),
    ensures
        !(answer(s, events, i) is Save),
        answer(s, events, i) != ActionView::Done(Ok(())),
        answer(s, events, i) matches ActionView::Write(path, _) ==> exists|j: int|
            0 <= j < k && manifest[j].path == path,
{
    if i == 0 {
        assert(state_after(s, events, 0) == s);
    } else {
        held_back_throughout(s, events, manifest, origin, k, i as nat);
        let t = state_after(s, events, i as nat);
        held_back_stays(t, events[i], manifest, k);
        if answer(s, events, i) is Write {
            assert(manifest[t.cursor as int].path == answer(s, events, i)->Write_0);
        }
    }
}

/// How far a transfer is after `n` events, the first of which brought the
/// manifest: it has failed, or it waits for the download of the entry at its
/// cursor, or for that entry to be written, or for the record to be saved.
spec fn transfer_at(
    t: RunView,
    manifest: Seq<Entry>,
    origin: Option<Seq<char>>,
    n: nat,
) -> bool {
    ||| t.phase == Phase::Finished
    ||| {
        &&& t.manifest == manifest
        &&& t.origin == origin
        &&& t.cursor <= manifest.len()
        &&& {
            ||| t.phase == Phase::Fetching && n == 2 * t.cursor + 1 && t.cursor < manifest.len()
            ||| t.phase == Phase::Writing && n == 2 * t.cursor + 2 && t.cursor < manifest.len()
            ||| t.phase == Phase::Saving && n == 2 * manifest.len() + 1
        }
    }
}

proof fn transfer_goes_on(
    s: RunView,
    events: Seq<EventView>,
    manifest: Seq<Entry>,
    origin: Option<Seq<char>>,
    n: nat,
)
    requires
        s.phase == Phase::Resolving,
        events.len() > 0,
        events[0] == EventView::Resolved(Ok((manifest, origin))),
        1 <= n <= events.len(),
    ensures
        transfer_at(state_after(s, events, n), manifest, origin, n),
    decreases n,
{
    if n == 1 {
        assert(state_after(s, events, 0) == s);
    } else {
        transfer_goes_on(s, events, manifest, origin, (n - 1) as nat);
    }
}

proof fn finished_stays(s: RunView, events: Seq<EventView>, n: nat, m: nat)
    requires
        n <= m <= events.len(),
        state_after(s, events, n).phase == Phase::Finished,
    ensures
        state_after(s, events, m).phase == Phase::Finished,
    decreases m - n,
{
    if n < m {
        finished_stays(s, events, n, (m - 1) as nat);
    }
}

/// No partial manifest is recorded. Let a run receive a manifest, and let it
/// later ask for the record to be saved. Then it asked for it after exactly two
/// events for each entry: for each entry, in order, it asked for the download of
/// the entry's first link, was given the bytes, asked for these bytes to be
/// written to the entry's path, and was told that they were. The record that it
/// asks to be saved lists the paths of all entries, with the manifest's address.
pub proof fn record_follows_every_write(
    s: RunView,
    events: Seq<EventView>,
    manifest: Seq<Entry>,
    origin: Option<Seq<char>>,
    i: int,
    k: int,
)
    requires
        s.phase == Phase::Resolving,
        events.len() > 0,
        events[0] == EventView::Resolved(Ok((manifest, origin))),
        0 <= i < events.len(),
        answer(s, events, i) is Save,
        0 <= k < manifest.len(),
    ensures
        i == 2 * manifest.len(),
        answer(s, events, i) == ActionView::Save(
            Record { files: entry_paths(manifest), pack_endpoint: origin },
        ),
        answer(s, events, 2 * k) == ActionView::Fetch(manifest[k].downloads[0]),
        events[2 * k + 1] matches EventView::Fetched(Some(bytes)) && answer(s, events, 2 * k + 1)
            == ActionView::Write(manifest[k].path, bytes),
        events[2 * k + 2] == EventView::Written(true),
{
    let done = (i + 1) as nat;
    assert(state_after(s, events, 0) == s);
    transfer_goes_on(s, events, manifest, origin, done);
    if i > 0 {
        transfer_goes_on(s, events, manifest, origin, i as nat);
    }
    assert(state_after(s, events, done).phase == Phase::Saving);
    assert(i == 2 * manifest.len());
    let fetching = (2 * k + 1) as nat;
    let writing = (2 * k + 2) as nat;
    transfer_goes_on(s, events, manifest, origin, fetching);
    transfer_goes_on(s, events, manifest, origin, writing);
    if state_after(s, events, fetching).phase == Phase::Finished {
        finished_stays(s, events, fetching, done);
    }
    if state_after(s, events, writing).phase == Phase::Finished {
        finished_stays(s, events, writing, done);
    }
    if k > 0 {
        transfer_goes_on(s, events, manifest, origin, (2 * k) as nat);
        if state_after(s, events, (2 * k) as nat).phase == Phase::Finished {
            finished_stays(s, events, (2 * k) as nat, done);
        }
    }
    if writing < done {
        transfer_goes_on(s, events, manifest, origin, (writing + 1) as nat);
        if state_after(s, events, (writing + 1) as nat).phase == Phase::Finished {
            finished_stays(s, events, (writing + 1) as nat, done);
        }
    }
}

/// A first run is a run after an empty record. A run that finds no record goes
/// on exactly as one that finds a record without files: it asks for no removal
/// and turns to the manifest at once.
pub proof fn first_run_tolerance(s: RunView, endpoint: Option<Seq<char>>)
    requires
        s.phase == Phase::Loading,
    ensures
        step_spec(s, EventView::StateLoaded(None)) == step_spec(
            s,
            EventView::StateLoaded(Some(Record { files: Seq::empty(), pack_endpoint: endpoint })),
        ),
        step_spec(s, EventView::StateLoaded(None)).1 == ActionView::Resolve(s.source),
        step_spec(s, EventView::StateLoaded(None)).0.phase == Phase::Resolving,
{
}

/// A failed removal changes nothing: the run goes on as after a removal that
/// succeeded.
pub proof fn failed_removal_is_ignored(s: RunView)
    requires
        s.phase == Phase::Deleting,
    ensures
        step_spec(s, EventView::Removed(false)) == step_spec(s, EventView::Removed(true)),
{
}

/// A target that does as it is told. Its files are told apart by the text of
/// their paths. The record is kept apart from them, as what it says: what is
/// saved is what is loaded next. A pack that writes to the record's own file is
/// outside what this describes.
pub ghost struct World {
    /// The files below the root, by their paths, but for the record.
    pub files: Map<Seq<char>, Seq<u8>>,
    /// The record that the last run saved, if there is one.
    pub record: Option<Record>,
    /// The names in the mods directory, where it can be listed.
    pub listing: Option<Seq<Seq<char>>>,
    /// What is behind each address that answers.
    pub web: Map<Seq<char>, Seq<u8>>,
    /// What resolving the pack source gives.
    pub pack: Result<(Seq<Entry>, Option<Seq<char>>), SyncError>,
}

/// What the target makes of an action, and the event it reports.
pub open spec fn perform(w: World, a: ActionView) -> (World, EventView) {
    match a {
        ActionView::Connect(_) => (w, EventView::Connected(true)),
        ActionView::LoadState => (w, EventView::StateLoaded(w.record)),
        ActionView::Remove(path) => (
            World { files: w.files.remove(path), ..w },
            EventView::Removed(w.files.contains_key(path)),
        ),
        ActionView::Resolve(_) => (w, EventView::Resolved(w.pack)),
        ActionView::Fetch(url) => (
            w,
            EventView::Fetched(
                if w.web.contains_key(url) {
                    Some(w.web[url])
                } else {
                    None
                },
            ),
        ),
        ActionView::Write(path, bytes) => (
            World { files: w.files.insert(path, bytes), ..w },
            EventView::Written(true),
        ),
        ActionView::List(_) => (w, EventView::Listed(w.listing)),
        ActionView::Save(record) => (World { record: Some(record), ..w }, EventView::Saved(Ok(()))),
        ActionView::Done(result) => (w, EventView::Saved(result)),
    }
}

/// Plays a run against the target for at most `fuel` actions: how the run ended,
/// if it did, and what the target then is.
pub open spec fn play(s: RunView, a: ActionView, w: World, fuel: nat) -> (
    Option<Result<(), SyncError>>,
    World,
)
    decreases fuel,
{
    match a {
        ActionView::Done(result) => (Some(result), w),
        _ => if fuel == 0 {
            (None, w)
        } else {
            let (w2, e) = perform(w, a);
            let (s2, a2) = step_spec(s, e);
            play(s2, a2, w2, (fuel - 1) as nat)
        },
    }
}

/// The files that are left when those at `paths[c..]` are removed, one by one.
pub open spec fn remove_from(files: Map<Seq<char>, Seq<u8>>, paths: Seq<Seq<char>>, c: nat) -> Map<
    Seq<char>,
    Seq<u8>,
>
    decreases paths.len() - c,
{
    if c >= paths.len() {
        files
    } else {
        remove_from(files.remove(paths[c as int]), paths, c + 1)
    }
}

/// The files that are there when the entries `manifest[c..]` are written, one
/// by one, each with what is behind its first link.
pub open spec fn write_from(
    files: Map<Seq<char>, Seq<u8>>,
    manifest: Seq<Entry>,
    web: Map<Seq<char>, Seq<u8>>,
    c: nat,
) -> Map<Seq<char>, Seq<u8>>
    decreases manifest.len() - c,
{
    if c >= manifest.len() {
        files
    } else {
        write_from(
            files.insert(manifest[c as int].path, web[manifest[c as int].downloads[0]]),
            manifest,
            web,
            c + 1,
        )
    }
}

/// Every entry has a link, and its first link answers.
pub open spec fn available(manifest: Seq<Entry>, web: Map<Seq<char>, Seq<u8>>) -> bool {
    forall|i: int|
        0 <= i < manifest.len() ==> (#[trigger] manifest[i]).downloads.len() > 0
            && web.contains_key(manifest[i].downloads[0])
}

/// The files that the record on the target asks to be removed.
pub open spec fn stale_files(w: World) -> Seq<Seq<char>> {
    stale_of(w.record)
}

/// The pack is resolved, its paths stay below the root, and each of its files
/// can be had.
pub open spec fn willing(w: World) -> bool {
    w.pack matches Ok((manifest, _)) && all_relative(entry_paths(manifest)) && available(
        manifest,
        w.web,
    )
}

/// What a run is to leave behind: the files of the old record are gone, the
/// files of the manifest are there with what their first links gave, and the
/// record lists the manifest's paths and the pack's address.
pub open spec fn synced(w: World) -> World
    recommends
        w.pack is Ok,
{
    let (manifest, origin) = w.pack->Ok_0;
    World {
        files: write_from(remove_from(w.files, stale_files(w), 0), manifest, w.web, 0),
        record: Some(Record { files: entry_paths(manifest), pack_endpoint: origin }),
        ..w
    }
}

/// The number of actions that a run takes against `w` at most.
pub open spec fn enough(w: World) -> nat
    recommends
        w.pack is Ok,
{
    stale_files(w).len() + 2 * (w.pack->Ok_0).0.len() + 4
}

proof fn deleting_plays_out(s: RunView, w: World, fuel: nat)
    requires
        s.cursor <= s.stale.len(),
        fuel >= s.stale.len() - s.cursor,
    ensures
        play(delete_from(s).0, delete_from(s).1, w, fuel) == play(
            RunView { phase: Phase::Resolving, cursor: s.stale.len(), ..s },
            ActionView::Resolve(s.source),
            World { files: remove_from(w.files, s.stale, s.cursor), ..w },
            (fuel - (s.stale.len() - s.cursor)) as nat,
        ),
    decreases s.stale.len() - s.cursor,
{
    if s.cursor < s.stale.len() {
        let t = delete_from(s).0;
        let (w2, e) = perform(w, delete_from(s).1);
        let next = RunView { cursor: t.cursor + 1, ..t };
        assert(step_spec(t, e) == delete_from(next));
        deleting_plays_out(next, w2, (fuel - 1) as nat);
        assert(RunView { phase: Phase::Resolving, cursor: next.stale.len(), ..next } == RunView {
            phase: Phase::Resolving,
            cursor: s.stale.len(),
            ..s
        });
    } else {
        assert(RunView { phase: Phase::Resolving, cursor: s.stale.len(), ..s } == delete_from(s).0);
        assert(World { files: remove_from(w.files, s.stale, s.cursor), ..w } == w);
    }
}

proof fn fetching_plays_out(s: RunView, w: World, fuel: nat)
    requires
        s.cursor <= s.manifest.len(),
        available(s.manifest, w.web),
        fuel >= 2 * (s.manifest.len() - s.cursor) + 1,
    ensures
        play(fetch_from(s).0, fetch_from(s).1, w, fuel) == (
            Some(Ok::<(), SyncError>(())),
            World {
                files: write_from(w.files, s.manifest, w.web, s.cursor),
                record: Some(new_record(s)),
                ..w
            },
        ),
    decreases s.manifest.len() - s.cursor,
{
    if s.cursor < s.manifest.len() {
        let entry = s.manifest[s.cursor as int];
        let t = fetch_from(s).0;
        assert(fetch_from(s).1 == ActionView::Fetch(entry.downloads[0]));
        let (w1, e1) = perform(w, fetch_from(s).1);
        assert(e1 == EventView::Fetched(Some(w.web[entry.downloads[0]])));
        let (t2, a2) = step_spec(t, e1);
        assert(a2 == ActionView::Write(entry.path, w.web[entry.downloads[0]]));
        let (w2, e2) = perform(w1, a2);
        let next = RunView { cursor: t2.cursor + 1, ..t2 };
        assert(step_spec(t2, e2) == fetch_from(next));
        assert(play(t, fetch_from(s).1, w, fuel) == play(t2, a2, w1, (fuel - 1) as nat));
        assert(play(t2, a2, w1, (fuel - 1) as nat) == play(
            fetch_from(next).0,
            fetch_from(next).1,
            w2,
            (fuel - 2) as nat,
        ));
        fetching_plays_out(next, w2, (fuel - 2) as nat);
        assert(new_record(next) == new_record(s));
    } else {
        let t = fetch_from(s).0;
        let (w1, e1) = perform(w, fetch_from(s).1);
        assert(step_spec(t, e1) == finish(t, Ok(())));
        assert(play(finish(t, Ok(())).0, finish(t, Ok(())).1, w1, (fuel - 1) as nat) == (
            Some(Ok::<(), SyncError>(())),
            w1,
        ));
    }
}

/// A run against a willing target succeeds and leaves the target in line with
/// the pack: what [`synced`] describes.
pub proof fn run_brings_target_in_line(target: Place, source: Source, w: World)
    requires
        !(source is Unset),
        willing(w),
    ensures
        play(start_spec(target, source, false).0, start_spec(target, source, false).1, w, enough(w))
            == (Some(Ok::<(), SyncError>(())), synced(w)),
{
    let (manifest, origin) = w.pack->Ok_0;
    let stale = stale_files(w);
    let fuel = enough(w);
    let (s0, a0) = start_spec(target, source, false);
    let (w1, e1) = perform(w, a0);
    let (s1, a1) = step_spec(s0, e1);
    assert(a1 == ActionView::LoadState);
    let (w2, e2) = perform(w1, a1);
    let loaded = RunView { stale, cursor: 0, ..s1 };
    assert(step_spec(s1, e2) == delete_from(loaded));
    assert(play(s0, a0, w, fuel) == play(s1, a1, w1, (fuel - 1) as nat));
    assert(play(s1, a1, w1, (fuel - 1) as nat) == play(
        delete_from(loaded).0,
        delete_from(loaded).1,
        w2,
        (fuel - 2) as nat,
    ));
    deleting_plays_out(loaded, w2, (fuel - 2) as nat);
    let s3 = RunView { phase: Phase::Resolving, cursor: stale.len(), ..loaded };
    let w3 = World { files: remove_from(w.files, stale, 0), ..w };
    let left = (fuel - 2 - stale.len()) as nat;
    let (w4, e4) = perform(w3, ActionView::Resolve(source));
    let resolved = RunView { manifest, origin, cursor: 0, ..s3 };
    assert(step_spec(s3, e4) == fetch_from(resolved));
    assert(play(s3, ActionView::Resolve(source), w3, left) == play(
        fetch_from(resolved).0,
        fetch_from(resolved).1,
        w4,
        (left - 1) as nat,
    ));
    fetching_plays_out(resolved, w4, (left - 1) as nat);
}

proof fn removal_spares_others(
    files: Map<Seq<char>, Seq<u8>>,
    paths: Seq<Seq<char>>,
    c: nat,
    key: Seq<char>,
)
    requires
        forall|i: int| c <= i < paths.len() ==> paths[i] != key,
    ensures
        remove_from(files, paths, c).contains_key(key) == files.contains_key(key),
        files.contains_key(key) ==> remove_from(files, paths, c)[key] == files[key],
    decreases paths.len() - c,
{
    if c < paths.len() {
        removal_spares_others(files.remove(paths[c as int]), paths, c + 1, key);
    }
}

proof fn writing_spares_others(
    files: Map<Seq<char>, Seq<u8>>,
    manifest: Seq<Entry>,
    web: Map<Seq<char>, Seq<u8>>,
    c: nat,
    key: Seq<char>,
)
    requires
        forall|i: int| c <= i < manifest.len() ==> manifest[i].path != key,
    ensures
        write_from(files, manifest, web, c).contains_key(key) == files.contains_key(key),
        files.contains_key(key) ==> write_from(files, manifest, web, c)[key] == files[key],
    decreases manifest.len() - c,
{
    if c < manifest.len() {
        writing_spares_others(
            files.insert(manifest[c as int].path, web[manifest[c as int].downloads[0]]),
            manifest,
            web,
            c + 1,
            key,
        );
    }
}

/// Two sets of files hold the same under `key`.
spec fn agree_at(
    a: Map<Seq<char>, Seq<u8>>,
    b: Map<Seq<char>, Seq<u8>>,
    key: Seq<char>,
) -> bool {
    a.contains_key(key) && b.contains_key(key) && a[key] == b[key]
}

proof fn writing_decides(
    a: Map<Seq<char>, Seq<u8>>,
    b: Map<Seq<char>, Seq<u8>>,
    manifest: Seq<Entry>,
    web: Map<Seq<char>, Seq<u8>>,
    c: nat,
    key: Seq<char>,
)
    requires
        agree_at(a, b, key) || exists|i: int| c <= i < manifest.len() && manifest[i].path == key,
    ensures
        agree_at(write_from(a, manifest, web, c), write_from(b, manifest, web, c), key),
    decreases manifest.len() - c,
{
    if c < manifest.len() {
        let path = manifest[c as int].path;
        let bytes = web[manifest[c as int].downloads[0]];
        let a2 = a.insert(path, bytes);
        let b2 = b.insert(path, bytes);
        if !agree_at(a2, b2, key) {
            let i = choose|i: int| c <= i < manifest.len() && manifest[i].path == key;
            assert(i != c);
            assert(c + 1 <= i < manifest.len() && manifest[i].path == key);
        }
        writing_decides(a2, b2, manifest, web, c + 1, key);
    }
}

/// Bringing a target in line twice is the same as doing it once.
pub proof fn synced_is_idempotent(w: World)
    requires
        w.pack matches Ok((manifest, _)) && all_relative(entry_paths(manifest)),
    ensures
        synced(synced(w)) == synced(w),
{
    let (manifest, origin) = w.pack->Ok_0;
    let paths = entry_paths(manifest);
    let base = remove_from(w.files, stale_files(w), 0);
    let once = write_from(base, manifest, w.web, 0);
    let cleared = remove_from(once, paths, 0);
    let twice = write_from(cleared, manifest, w.web, 0);
    assert(synced(w).files == once);
    assert(stale_files(synced(w)) == paths);
    assert(synced(synced(w)).files == twice);
    assert forall|key: Seq<char>|
        #![trigger twice.dom().contains(key)]
        #![trigger once.dom().contains(key)]
        #![trigger twice[key]]
        #![trigger once[key]]
        twice.dom().contains(key) == once.dom().contains(key) && (once.dom().contains(key)
            ==> twice[key] == once[key]) by {
        if exists|i: int| 0 <= i < manifest.len() && manifest[i].path == key {
            writing_decides(cleared, base, manifest, w.web, 0, key);
        } else {
            assert forall|i: int| 0 <= i < paths.len() implies paths[i] != key by {
                assert(paths[i] == manifest[i].path);
            }
            removal_spares_others(once, paths, 0, key);
            writing_spares_others(cleared, manifest, w.web, 0, key);
        }
    }
    assert(twice =~= once);
}

/// Adopting a target records its mods directory. Against a target whose mods
/// directory can be listed, with names that stay below the root, a generating
/// run succeeds after three actions; it leaves every file as it was, and the
/// record lists the path of each name under the mods directory, with no address.
pub proof fn generation_records_listing(target: Place, w: World)
    requires
        w.listing matches Some(names) && all_relative(listed_paths(names)),
    ensures
        play(
            start_spec(target, Source::Unset, true).0,
            start_spec(target, Source::Unset, true).1,
            w,
            3,
        ) == (
            Some(Ok::<(), SyncError>(())),
            World {
                record: Some(
                    Record { files: listed_paths(w.listing->Some_0), pack_endpoint: None },
                ),
                ..w
            },
        ),
{
    let names = w.listing->Some_0;
    let (s0, a0) = start_spec(target, Source::Unset, true);
    let (w1, e1) = perform(w, a0);
    let (s1, a1) = step_spec(s0, e1);
    assert(a1 == ActionView::List(mods_dir()));
    let (w2, e2) = perform(w1, a1);
    let (s2, a2) = step_spec(s1, e2);
    assert(a2 == ActionView::Save(Record { files: listed_paths(names), pack_endpoint: None }));
    let (w3, e3) = perform(w2, a2);
    let (s3, a3) = step_spec(s2, e3);
    assert(a3 == ActionView::Done(Ok(())));
    assert(play(s3, a3, w3, 0) == (Some(Ok::<(), SyncError>(())), w3));
    assert(play(s2, a2, w2, 1) == play(s3, a3, w3, 0));
    assert(play(s1, a1, w1, 2) == play(s2, a2, w2, 1));
    assert(play(s0, a0, w, 3) == play(s1, a1, w1, 2));
}

/// Idempotence of a re-run. Against a willing target, a run succeeds; a second
/// run, with the same pack and nothing changed in between, succeeds too and
/// leaves the files and the record exactly as the first run left them.
pub proof fn second_run_changes_nothing(target: Place, source: Source, w: World)
    requires
        !(source is Unset),
        willing(w),
    ensures
        ({
            let (s, a) = start_spec(target, source, false);
            let first = play(s, a, w, enough(w));
            let second = play(s, a, first.1, enough(first.1));
            &&& first.0 == Some(Ok::<(), SyncError>(()))
            &&& second.0 == Some(Ok::<(), SyncError>(()))
            &&& second.1 == first.1
        }),
{
    run_brings_target_in_line(target, source, w);
    run_brings_target_in_line(target, source, synced(w));
    synced_is_idempotent(w);
}

} // verus!
