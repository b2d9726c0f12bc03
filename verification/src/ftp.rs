//! Targets that are reached through a remote session.
use crate::engine::{start_spec, Action, Place, SyncRun, Target};
use crate::mrpack::PackSource;
use vstd::prelude::*;

verus! {

/// What a remote location says.
pub ghost struct Location {
    pub address: Seq<char>,
    pub port: u32,
    pub name: Seq<char>,
    pub password: Seq<char>,
}

/// A remote target: the host and port to connect to, and the name and password
/// to log in with.
#[derive(Debug, PartialEq, Eq)]
pub struct FtpLocation {
    pub address: String,
    pub port: u32,
    pub name: String,
    pub password: String,
}

impl View for FtpLocation {
    type V = Location;

    open spec fn view(&self) -> Location {
        Location {
            address: self.address@,
            port: self.port,
            name: self.name@,
            password: self.password@,
        }
    }
}

impl Clone for FtpLocation {
    fn clone(&self) -> (r: Self)
        ensures
            r@ == self@,
    {
        FtpLocation {
            address: self.address.clone(),
            port: self.port,
            name: self.name.clone(),
            password: self.password.clone(),
        }
    }
}

/// Starts a run that brings the remote target at `location` in line with the
/// pack of `source`. With no source chosen the run is over at once, with
/// `NoPackSource`, and nothing is connected to.
pub fn run_over_sftp(location: FtpLocation, source: PackSource) -> (r: (SyncRun, Action))
    ensures
        (r.0@, r.1@) == start_spec(Place::Remote(location@), source@, false),
{
    SyncRun::start(Target::Remote(location), source, false)
}

/// Starts a run that records what the mods directory of the remote target at
/// `location` holds.
pub fn generate_over_sftp(location: FtpLocation) -> (r: (SyncRun, Action))
    ensures
        (r.0@, r.1@) == start_spec(Place::Remote(location@), crate::mrpack::Source::Unset, true),
{
    SyncRun::start(Target::Remote(location), PackSource::Unset, true)
}

} // verus!
