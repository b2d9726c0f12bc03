//! Targets on the local disk.
use crate::engine::{start_spec, Action, Place, SyncRun, Target};
use crate::mrpack::PackSource;
use vstd::prelude::*;

verus! {

/// Starts a run that brings the local folder at `folder` in line with the pack
/// of `source`. With no source chosen the run is over at once, with
/// `NoPackSource`, and the folder is not touched.
pub fn run_local(folder: &str, source: &PackSource) -> (r: (SyncRun, Action))
    ensures
        (r.0@, r.1@) == start_spec(Place::Local(folder@), source@, false),
{
    SyncRun::start(Target::Local(folder.to_owned()), source.clone(), false)
}

} // verus!
