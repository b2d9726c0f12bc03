//! Adopting a target as it is: the record of what its mods directory holds.
use crate::client::{chosen_place, NMUClient};
use crate::config::{Record, UpdaterConfig};
use crate::document::{text_of, texts};
use crate::engine::{refuse_spec, start_spec, Action, Place, SyncRun, Target};
use crate::error::SyncError;
use crate::ftp::generate_over_sftp;
use crate::mrpack::{PackSource, Source};
use crate::paths::all_relative;
use vstd::prelude::*;
use vstd::string::StringExecFns;

verus! {

/// The path, below the root, of the file called `name` in the mods directory.
pub open spec fn mods_path(name: Seq<char>) -> Seq<char> {
    "mods/"@ + name
}

/// The paths of the files with these names in the mods directory, in order.
pub open spec fn listed_paths(names: Seq<Seq<char>>) -> Seq<Seq<char>> {
    names.map_values(|name: Seq<char>| mods_path(name))
}

/// The record of a mods directory that holds the files called `names`: their
/// paths below the root, in the order of the listing, and no address. There is
/// none where one of the paths leads out of the root.
pub fn listed_record(names: &Vec<String>) -> (r: Option<UpdaterConfig>)
    ensures
        r is Some <==> all_relative(listed_paths(texts(names@))),
        r matches Some(record) ==> record@ == (Record {
            files: listed_paths(texts(names@)),
            pack_endpoint: None,
        }),
{
    let mut files: Vec<String> = Vec::new();
    let mut i: usize = 0;
    while i < names.len()
        invariant
            i <= names.len(),
            files.len() == i,
            forall|k: int| 0 <= k < i ==> (#[trigger] files@[k])@ == mods_path(names@[k]@),
        decreases names.len() - i,
    {
        let path = String::from_str("mods/").concat(names[i].as_str());
        files.push(path);
        i = i + 1;
    }
    assert(texts(files@) =~= listed_paths(texts(names@)));
    UpdaterConfig::new(files, None)
}

/// Starts the run that records what the mods directory of the chosen target
/// holds. With no target chosen the run is over at once, with `NoWorkLocation`.
pub fn generate(nmu: &NMUClient) -> (r: (SyncRun, Action))
    ensures
        (r.0@, r.1@) == match chosen_place(text_of(nmu.work_folder), nmu.ftp_location@) {
            Some(place) => start_spec(place, Source::Unset, true),
            None => refuse_spec(SyncError::NoWorkLocation),
        },
{
    if let Some(folder) = &nmu.work_folder {
        return generate_at(folder.as_str());
    } else if !nmu.ftp_location.address.as_str().is_empty() {
        return generate_over_sftp(nmu.ftp_location.clone());
    }
    SyncRun::refuse(SyncError::NoWorkLocation)
}

/// Starts a run that records what the mods directory of the local folder at
/// `path` holds.
pub fn generate_at(path: &str) -> (r: (SyncRun, Action))
    ensures
        (r.0@, r.1@) == start_spec(Place::Local(path@), Source::Unset, true),
{
    SyncRun::start(Target::Local(path.to_owned()), PackSource::Unset, true)
}

} // verus!
