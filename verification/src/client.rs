//! What the user has set, and the two things the user can ask for.
use crate::config::UpdaterConfig;
use crate::document::text_of;
use crate::engine::{refuse_spec, start_spec, Action, Place, SyncRun, Target};
use crate::error::SyncError;
use crate::ftp::{run_over_sftp, FtpLocation, Location};
use crate::local::run_local;
use crate::mrpack::{PackSource, Source};
use vstd::prelude::*;

verus! {

/// The user's settings: where to work, which pack to take, and what the last
/// request came to.
#[derive(Debug)]
pub struct NMUClient {
    /// The local folder to work on, if one is chosen.
    pub work_folder: Option<String>,
    /// Where the pack is taken from.
    pub pack_source: PackSource,
    /// The address in the pack endpoint field.
    pub pack_endpoint: String,
    /// What the last request came to, as shown to the user.
    pub last_run_result: String,
    /// The remote target, used where no local folder is chosen.
    pub ftp_location: FtpLocation,
}

/// The target that the settings choose: the work folder where one is set;
/// otherwise the remote location, where its address is not empty.
pub open spec fn chosen_place(work_folder: Option<Seq<char>>, location: Location) -> Option<Place> {
    match work_folder {
        Some(folder) => Some(Place::Local(folder)),
        None => if location.address.len() > 0 {
            Some(Place::Remote(location))
        } else {
            None
        },
    }
}

impl NMUClient {
    /// The settings before the user chose anything, with `ftp_location` as the
    /// remote target.
    pub fn new(ftp_location: FtpLocation) -> (r: NMUClient)
        ensures
            r.work_folder is None,
            r.pack_source@ == Source::Unset,
            r.pack_endpoint@ == Seq::<char>::empty(),
            r.last_run_result@ == "Not ran yet"@,
            r.ftp_location == ftp_location,
    {
        NMUClient {
            work_folder: None,
            pack_source: PackSource::Unset,
            pack_endpoint: String::new(),
            last_run_result: "Not ran yet".to_owned(),
            ftp_location,
        }
    }

    /// The target that the settings choose.
    pub fn target(&self) -> (r: Option<Target>)
        ensures
            match r {
                Some(t) => chosen_place(text_of(self.work_folder), self.ftp_location@) == Some(t@),
                None => chosen_place(text_of(self.work_folder), self.ftp_location@) is None,
            },
    {
        match &self.work_folder {
            Some(folder) => Some(Target::Local(folder.clone())),
            None => {
                if !self.ftp_location.address.as_str().is_empty() {
                    Some(Target::Remote(self.ftp_location.clone()))
                } else {
                    None
                }
            },
        }
    }

    /// The user chose `folder` to work on; `prior` is the record found in it, if
    /// one was. A record that remembers an address puts that address into the
    /// endpoint field and makes it the pack source.
    pub fn select_work_folder(&mut self, folder: String, prior: Option<UpdaterConfig>)
        ensures
            text_of(final(self).work_folder) == Some(folder@),
            final(self).ftp_location == old(self).ftp_location,
            final(self).last_run_result == old(self).last_run_result,
            match prior {
                Some(record) if record@.pack_endpoint is Some => {
                    &&& final(self).pack_endpoint@ == record@.pack_endpoint->0
                    &&& final(self).pack_source@ == Source::Url(record@.pack_endpoint->0)
                },
                _ => {
                    &&& final(self).pack_endpoint == old(self).pack_endpoint
                    &&& final(self).pack_source == old(self).pack_source
                },
            },
    {
        self.work_folder = Some(folder);
        if let Some(record) = prior {
            if let Some(url) = record.pack_endpoint() {
                self.pack_endpoint = url.clone();
                self.pack_source = PackSource::Url(url.clone());
            }
        }
    }

    /// The user chose the pack file at `path`.
    pub fn select_pack_file(&mut self, path: String)
        ensures
            final(self).pack_source@ == Source::FromFile(path@),
            final(self).work_folder == old(self).work_folder,
            final(self).pack_endpoint == old(self).pack_endpoint,
            final(self).last_run_result == old(self).last_run_result,
            final(self).ftp_location == old(self).ftp_location,
    {
        self.pack_source = PackSource::FromFile(path);
    }

    /// The user confirmed the address in the endpoint field.
    pub fn set_pack_endpoint(&mut self)
        ensures
            final(self).pack_source@ == Source::Url(old(self).pack_endpoint@),
            final(self).work_folder == old(self).work_folder,
            final(self).pack_endpoint == old(self).pack_endpoint,
            final(self).last_run_result == old(self).last_run_result,
            final(self).ftp_location == old(self).ftp_location,
    {
        self.pack_source = PackSource::Url(self.pack_endpoint.clone());
    }

    /// Notes what a run came to: `Ran!`, or the message of its failure.
    pub fn record_run(&mut self, result: Result<(), SyncError>)
        ensures
            final(self).last_run_result@ == match result {
                Ok(_) => "Ran!"@,
                Err(e) => e.text(),
            },
            final(self).work_folder == old(self).work_folder,
            final(self).pack_source == old(self).pack_source,
            final(self).pack_endpoint == old(self).pack_endpoint,
            final(self).ftp_location == old(self).ftp_location,
    {
        self.last_run_result = match result {
            Ok(_) => "Ran!".to_owned(),
            Err(e) => e.message().to_owned(),
        };
    }

    /// Notes what generating a record came to: `Generated!`, or the message of
    /// its failure.
    pub fn record_generate(&mut self, result: Result<(), SyncError>)
        ensures
            final(self).last_run_result@ == match result {
                Ok(_) => "Generated!"@,
                Err(e) => e.text(),
            },
            final(self).work_folder == old(self).work_folder,
            final(self).pack_source == old(self).pack_source,
            final(self).pack_endpoint == old(self).pack_endpoint,
            final(self).ftp_location == old(self).ftp_location,
    {
        self.last_run_result = match result {
            Ok(_) => "Generated!".to_owned(),
            Err(e) => e.message().to_owned(),
        };
    }
}

/// Starts the run that brings the chosen target in line with the chosen pack.
/// With no target chosen the run is over at once, with `NoWorkLocation`; with a
/// target but no pack source, with `NoPackSource`.
pub fn run(nmu: &NMUClient) -> (r: (SyncRun, Action))
    ensures
        (r.0@, r.1@) == match chosen_place(text_of(nmu.work_folder), nmu.ftp_location@) {
            Some(place) => start_spec(place, nmu.pack_source@, false),
            None => refuse_spec(SyncError::NoWorkLocation),
        },
{
    if let Some(folder) = &nmu.work_folder {
        return run_local(folder.as_str(), &nmu.pack_source);
    } else if !nmu.ftp_location.address.as_str().is_empty() {
        return run_over_sftp(nmu.ftp_location.clone(), nmu.pack_source.clone());
    }
    SyncRun::refuse(SyncError::NoWorkLocation)
}

/// Checks whether the pack has a newer version. This is not available: the
/// answer is always `UpdateNotImplemented`.
pub fn update(nmu: &NMUClient) -> (r: Result<(), SyncError>)
    ensures
        r == Err::<(), SyncError>(SyncError::UpdateNotImplemented),
{
    Err(SyncError::UpdateNotImplemented)
}

} // verus!
