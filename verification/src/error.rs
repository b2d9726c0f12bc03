//! The reasons for which a run ends without success.
use vstd::prelude::*;

verus! {

/// Why a run failed. Every fatal condition ends the run with exactly one of these.
#[derive(Clone, Copy, Debug, PartialEq, Eq, Structural)]
pub enum SyncError {
    /// A run was asked for while no pack source was chosen.
    NoPackSource,
    /// A manifest was asked for while no pack source was chosen.
    NoPackSourceSelected,
    /// Neither a work folder nor a remote address is set.
    NoWorkLocation,
    /// The session with the remote target could not be set up.
    Connection,
    /// The record of installed files is missing or unreadable.
    ReadConfig,
    /// The file that holds the record could not be created.
    CreateConfig,
    /// The record could not be turned into text.
    SerializeConfig,
    /// The record's text could not be written.
    WriteConfig,
    /// The pack file could not be opened.
    OpenPack,
    /// The pack could not be downloaded.
    GetPack,
    /// The pack is no archive, or holds no manifest entry.
    Unzip,
    /// The manifest entry does not have the expected shape.
    Deserialize,
    /// A manifest entry lists no download link.
    NoDownloadLinks,
    /// A listed file could not be downloaded.
    GetFile,
    /// A downloaded file could not be written to the target.
    CreateFile,
    /// The mods directory could not be listed.
    ReadModDirectory,
    /// Checking for updates is not available.
    UpdateNotImplemented,
    /// An event arrived that does not answer the action last handed out.
    OutOfTurn,
}

impl SyncError {
    /// The text shown to the user for this failure.
    pub open spec fn text(self) -> Seq<char> {
        match self {
            SyncError::NoPackSource => "No pack source set!"@,
            SyncError::NoPackSourceSelected => "No pack source selected"@,
            SyncError::NoWorkLocation => "No work location set!"@,
            SyncError::Connection => "Setting up SFTP session did not succeed"@,
            SyncError::ReadConfig => "Could not get updater config!"@,
            SyncError::CreateConfig => "Could not create config file"@,
            SyncError::SerializeConfig => "Could not serialize config"@,
            SyncError::WriteConfig => "Could not write JSON to file"@,
            SyncError::OpenPack => "Could not open .mrpack file"@,
            SyncError::GetPack => "Could not GET mrpack file"@,
            SyncError::Unzip => "Could not unzip downloaded mrpack"@,
            SyncError::Deserialize => "Could not deserialize pack file"@,
            SyncError::NoDownloadLinks => "File has no download links"@,
            SyncError::GetFile => "Could not GET file from download link in pack definition"@,
            SyncError::CreateFile => "Could not create file in mod directory"@,
            SyncError::ReadModDirectory => "Could not read mod directory!"@,
            SyncError::UpdateNotImplemented => "Update checking is not implemented"@,
            SyncError::OutOfTurn => "Event does not answer the pending action"@,
        }
    }

    /// The human-readable message of this failure.
    pub fn message(&self) -> (r: &'static str)
        ensures
            r@ == self.text(),
    {
        match self {
            SyncError::NoPackSource => "No pack source set!",
            SyncError::NoPackSourceSelected => "No pack source selected",
            SyncError::NoWorkLocation => "No work location set!",
            SyncError::Connection => "Setting up SFTP session did not succeed",
            SyncError::ReadConfig => "Could not get updater config!",
            SyncError::CreateConfig => "Could not create config file",
            SyncError::SerializeConfig => "Could not serialize config",
            SyncError::WriteConfig => "Could not write JSON to file",
            SyncError::OpenPack => "Could not open .mrpack file",
            SyncError::GetPack => "Could not GET mrpack file",
            SyncError::Unzip => "Could not unzip downloaded mrpack",
            SyncError::Deserialize => "Could not deserialize pack file",
            SyncError::NoDownloadLinks => "File has no download links",
            SyncError::GetFile => "Could not GET file from download link in pack definition",
            SyncError::CreateFile => "Could not create file in mod directory",
            SyncError::ReadModDirectory => "Could not read mod directory!",
            SyncError::UpdateNotImplemented => "Update checking is not implemented",
            SyncError::OutOfTurn => "Event does not answer the pending action",
        }
    }
}

} // verus!
