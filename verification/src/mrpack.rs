//! The pack manifest: which files a pack consists of and where each comes from.
use crate::archive::{archive_entry, read_entry};
use crate::document::{copy_texts, read_text_list, text_list, text_of, texts};
use crate::error::SyncError;
use crate::json::{as_list, as_text, json_tree, json_trees, member, parse_json, parsed_json, Json};
use crate::paths::{all_relative, is_relative, is_relative_path};
use vstd::prelude::*;

verus! {

/// What a manifest entry says: where the file goes, and where it can be had.
pub ghost struct Entry {
    pub path: Seq<char>,
    pub downloads: Seq<Seq<char>>,
}

/// One file of a pack: its path below the target's root and its download links.
#[derive(Debug, PartialEq, Eq)]
pub struct PackEntry {
    pub path: String,
    pub downloads: Vec<String>,
}

impl View for PackEntry {
    type V = Entry;

    open spec fn view(&self) -> Entry {
        Entry { path: self.path@, downloads: texts(self.downloads@) }
    }
}

impl Clone for PackEntry {
    fn clone(&self) -> (r: Self)
        ensures
            r@ == self@,
    {
        PackEntry { path: self.path.clone(), downloads: copy_texts(&self.downloads) }
    }
}

/// What each of a sequence of entries says.
pub open spec fn entries_of(files: Seq<PackEntry>) -> Seq<Entry> {
    files.map_values(|e: PackEntry| e@)
}

/// The paths of a manifest's entries, in order.
pub open spec fn entry_paths(entries: Seq<Entry>) -> Seq<Seq<char>> {
    entries.map_values(|e: Entry| e.path)
}

/// A pack manifest. Each entry's path stays below the target's root.
#[derive(Debug, PartialEq, Eq)]
pub struct Mrpack {
    pub(crate) files: Vec<PackEntry>,
}

impl View for Mrpack {
    type V = Seq<Entry>;

    open(crate) spec fn view(&self) -> Seq<Entry> {
        entries_of(self.files@)
    }
}

/// Where a manifest is taken from.
#[derive(Debug, PartialEq, Eq)]
pub enum PackSource {
    /// A pack file on the local disk, by its path.
    FromFile(String),
    /// A pack file behind an address.
    Url(String),
    /// Nothing chosen yet.
    Unset,
}

/// What a pack source says.
pub ghost enum Source {
    FromFile(Seq<char>),
    Url(Seq<char>),
    Unset,
}

impl View for PackSource {
    type V = Source;

    open spec fn view(&self) -> Source {
        match self {
            PackSource::FromFile(path) => Source::FromFile(path@),
            PackSource::Url(url) => Source::Url(url@),
            PackSource::Unset => Source::Unset,
        }
    }
}

impl Clone for PackSource {
    fn clone(&self) -> (r: Self)
        ensures
            r@ == self@,
    {
        match self {
            PackSource::FromFile(path) => PackSource::FromFile(path.clone()),
            PackSource::Url(url) => PackSource::Url(url.clone()),
            PackSource::Unset => PackSource::Unset,
        }
    }
}

impl PackSource {
    /// The line that shows this source to the user.
    pub open spec fn label_text(self) -> Seq<char> {
        match self {
            PackSource::FromFile(path) => path@,
            PackSource::Url(url) => url@,
            PackSource::Unset => "None selected"@,
        }
    }

    /// The line that shows this source to the user: the path, the address, or a
    /// note that nothing is chosen.
    pub fn label(&self) -> (r: String)
        ensures
            r@ == self.label_text(),
    {
        match self {
            PackSource::FromFile(path) => path.clone(),
            PackSource::Url(url) => url.clone(),
            PackSource::Unset => "None selected".to_owned(),
        }
    }
}

/// The name of the archive entry that holds the manifest.
pub open spec fn manifest_name() -> Seq<char> {
    "modrinth.index.json"@
}

/// The entry that a document spells: an object whose member `path` is a string
/// and whose member `downloads` is an array of strings.
pub open spec fn entry_of_tree(tree: Json) -> Option<Entry> {
    match tree {
        Json::Object(m) => {
            if m.contains_key("path"@) && m.contains_key("downloads"@) {
                match (m["path"@], text_list(m["downloads"@])) {
                    (Json::Text(path), Some(downloads)) => Some(Entry { path, downloads }),
                    _ => None,
                }
            } else {
                None
            }
        },
        _ => None,
    }
}

/// Whether every tree of `items` spells an entry.
pub open spec fn all_entries(items: Seq<Json>) -> bool {
    forall|k: int| 0 <= k < items.len() ==> (#[trigger] entry_of_tree(items[k])) is Some
}

/// The manifest that a document spells: an object whose member `files` is an
/// array of entries, each with a path below the root.
pub open spec fn manifest_of_tree(tree: Json) -> Option<Seq<Entry>> {
    match tree {
        Json::Object(m) => {
            if m.contains_key("files"@) {
                match m["files"@] {
                    Json::List(items) => {
                        let entries = items.map_values(|t: Json| entry_of_tree(t).unwrap());
                        if all_entries(items) && all_relative(entry_paths(entries)) {
                            Some(entries)
                        } else {
                            None
                        }
                    },
                    _ => None,
                }
            } else {
                None
            }
        },
        _ => None,
    }
}

/// The manifest that the text of a manifest entry spells, or `Deserialize`.
pub open spec fn manifest_of_text(text: Seq<char>) -> Result<Seq<Entry>, SyncError> {
    match parsed_json(text) {
        Some(tree) => match manifest_of_tree(tree) {
            Some(entries) => Ok(entries),
            None => Err(SyncError::Deserialize),
        },
        None => Err(SyncError::Deserialize),
    }
}

/// The manifest inside a pack archive: `Unzip` where the archive gives no
/// manifest entry, `Deserialize` where the entry spells no manifest.
pub open spec fn manifest_of_archive(archive: Seq<u8>) -> Result<Seq<Entry>, SyncError> {
    match archive_entry(archive, manifest_name()) {
        Some(text) => manifest_of_text(text),
        None => Err(SyncError::Unzip),
    }
}

/// What resolving a source gives, once its bytes were read (`raw` is `None` where
/// they could not be had): the manifest, and the address to remember.
pub open spec fn resolved(source: Source, raw: Option<Seq<u8>>) -> Result<
    (Seq<Entry>, Option<Seq<char>>),
    SyncError,
> {
    match source {
        Source::Unset => Err(SyncError::NoPackSourceSelected),
        Source::FromFile(_) => match raw {
            None => Err(SyncError::OpenPack),
            Some(archive) => match manifest_of_archive(archive) {
                Ok(entries) => Ok((entries, None)),
                Err(e) => Err(e),
            },
        },
        Source::Url(url) => match raw {
            None => Err(SyncError::GetPack),
            Some(archive) => match manifest_of_archive(archive) {
                Ok(entries) => Ok((entries, Some(url))),
                Err(e) => Err(e),
            },
        },
    }
}

impl Mrpack {
    #[verifier::type_invariant]
    spec fn well_formed(self) -> bool {
        all_relative(entry_paths(entries_of(self.files@)))
    }

    /// The manifest without entries.
    pub fn empty() -> (r: Mrpack)
        ensures
            r@ == Seq::<Entry>::empty(),
    {
        let files: Vec<PackEntry> = Vec::new();
        assert(entries_of(files@) =~= Seq::<Entry>::empty());
        Mrpack { files }
    }

    /// The manifest of `files`. There is none where the path of an entry leaves
    /// the root.
    pub fn new(files: Vec<PackEntry>) -> (r: Option<Mrpack>)
        ensures
            r is Some <==> all_relative(entry_paths(entries_of(files@))),
            r matches Some(pack) ==> pack@ == entries_of(files@),
    {
        let mut i: usize = 0;
        while i < files.len()
            invariant
                i <= files.len(),
                forall|k: int|
                    0 <= k < i ==> is_relative(#[trigger] entry_paths(entries_of(files@))[k]),
            decreases files.len() - i,
        {
            if !is_relative_path(files[i].path.as_str()) {
                assert(!is_relative(entry_paths(entries_of(files@))[i as int]));
                return None;
            }
            i = i + 1;
        }
        Some(Mrpack { files })
    }

    /// The entries, in the manifest's order.
    pub fn entries(&self) -> (r: &Vec<PackEntry>)
        ensures
            entries_of(r@) == self@,
            all_relative(entry_paths(self@)),
    {
        proof {
            use_type_invariant(self);
        }
        &self.files
    }

    /// The paths of the entries, in the manifest's order.
    pub fn paths(&self) -> (r: Vec<String>)
        ensures
            texts(r@) == entry_paths(self@),
            all_relative(texts(r@)),
    {
        proof {
            use_type_invariant(self);
        }
        let mut out: Vec<String> = Vec::new();
        let mut i: usize = 0;
        while i < self.files.len()
            invariant
                i <= self.files.len(),
                out.len() == i,
                forall|k: int| 0 <= k < i ==> (#[trigger] out@[k])@ == self.files@[k].path@,
            decreases self.files.len() - i,
        {
            out.push(self.files[i].path.clone());
            i = i + 1;
        }
        assert(texts(out@) =~= entry_paths(self@));
        out
    }
}

impl Clone for Mrpack {
    fn clone(&self) -> (r: Self)
        ensures
            r@ == self@,
    {
        proof {
            use_type_invariant(self);
        }
        let mut out: Vec<PackEntry> = Vec::new();
        let mut i: usize = 0;
        while i < self.files.len()
            invariant
                i <= self.files.len(),
                out.len() == i,
                forall|k: int| 0 <= k < i ==> (#[trigger] out@[k])@ == self.files@[k]@,
            decreases self.files.len() - i,
        {
            out.push(self.files[i].clone());
            i = i + 1;
        }
        assert(entries_of(out@) =~= entries_of(self.files@));
        Mrpack { files: out }
    }
}

/// Reads one manifest entry out of a document.
pub fn entry_from_json(v: &serde_json::Value) -> (r: Option<PackEntry>)
    ensures
        match r {
            Some(e) => entry_of_tree(json_tree(*v)) == Some(e@),
            None => entry_of_tree(json_tree(*v)) is None,
        },
{
    let path = match member(v, "path") {
        Some(p) => match as_text(p) {
            Some(s) => s.to_owned(),
            None => {
                return None;
            },
        },
        None => {
            return None;
        },
    };
    let downloads = match member(v, "downloads") {
        Some(d) => match read_text_list(d) {
            Some(list) => list,
            None => {
                return None;
            },
        },
        None => {
            return None;
        },
    };
    Some(PackEntry { path, downloads })
}

/// Reads a manifest out of a document.
pub fn manifest_from_json(v: &serde_json::Value) -> (r: Option<Mrpack>)
    ensures
        match r {
            Some(pack) => manifest_of_tree(json_tree(*v)) == Some(pack@),
            None => manifest_of_tree(json_tree(*v)) is None,
        },
{
    let items = match member(v, "files") {
        Some(list) => match as_list(list) {
            Some(items) => items,
            None => {
                return None;
            },
        },
        None => {
            return None;
        },
    };
    let ghost trees = json_trees(items@);
    let ghost spelled = trees.map_values(|t: Json| entry_of_tree(t).unwrap());
    let mut files: Vec<PackEntry> = Vec::new();
    let mut i: usize = 0;
    while i < items.len()
        invariant
            i <= items.len(),
            trees == json_trees(items@),
            trees.len() == items.len(),
            json_tree(*v) matches Json::Object(m) && m.contains_key("files"@) && m["files"@]
                == Json::List(trees),
            files.len() == i,
            forall|k: int|
                0 <= k < i ==> entry_of_tree(trees[k]) == Some((#[trigger] files@[k])@),
        decreases items.len() - i,
    {
        match entry_from_json(&items[i]) {
            Some(e) => {
                files.push(e);
            },
            None => {
                assert(entry_of_tree(trees[i as int]) is None);
                return None;
            },
        }
        i = i + 1;
    }
    assert forall|k: int| 0 <= k < trees.len() implies (#[trigger] entry_of_tree(
        trees[k],
    )) is Some by {
        assert(entry_of_tree(trees[k]) == Some(files@[k]@));
    }
    assert(spelled =~= entries_of(files@)) by {
        assert forall|k: int| 0 <= k < spelled.len() implies spelled[k] == entries_of(files@)[k] by {
            assert(entry_of_tree(trees[k]) == Some(files@[k]@));
        }
    }
    Mrpack::new(files)
}

/// Reads a manifest out of the text of a manifest entry.
pub fn manifest_from_text(text: &str) -> (r: Result<Mrpack, SyncError>)
    ensures
        match r {
            Ok(pack) => manifest_of_text(text@) == Ok::<Seq<Entry>, SyncError>(pack@),
            Err(e) => manifest_of_text(text@) == Err::<Seq<Entry>, SyncError>(e),
        },
{
    match parse_json(text) {
        Ok(v) => match manifest_from_json(&v) {
            Some(pack) => Ok(pack),
            None => Err(SyncError::Deserialize),
        },
        Err(_) => Err(SyncError::Deserialize),
    }
}

/// Reads the manifest out of a pack archive.
pub fn manifest_from_archive(archive: &[u8]) -> (r: Result<Mrpack, SyncError>)
    ensures
        match r {
            Ok(pack) => manifest_of_archive(archive@) == Ok::<Seq<Entry>, SyncError>(pack@),
            Err(e) => manifest_of_archive(archive@) == Err::<Seq<Entry>, SyncError>(e),
        },
{
    match read_entry(archive, "modrinth.index.json") {
        Ok(text) => manifest_from_text(text.as_str()),
        Err(_) => Err(SyncError::Unzip),
    }
}

/// Resolves a pack source into its manifest and the address to remember for the
/// next run. `raw` holds the bytes that were read from the source's file or
/// address, `None` where they could not be had. With no source chosen the
/// answer is `NoPackSourceSelected`, whatever `raw` holds.
pub fn get_mrpack(source: &PackSource, raw: Option<&[u8]>) -> (r: Result<
    (Mrpack, Option<String>),
    SyncError,
>)
    ensures
        match r {
            Ok((pack, origin)) => resolved(source@, raw_view(raw)) == Ok::<
                (Seq<Entry>, Option<Seq<char>>),
                SyncError,
            >((pack@, text_of(origin))),
            Err(e) => resolved(source@, raw_view(raw)) == Err::<
                (Seq<Entry>, Option<Seq<char>>),
                SyncError,
            >(e),
        },
{
    match source {
        PackSource::Unset => Err(SyncError::NoPackSourceSelected),
        PackSource::FromFile(_) => match raw {
            None => Err(SyncError::OpenPack),
            Some(archive) => match manifest_from_archive(archive) {
                Ok(pack) => Ok((pack, None)),
                Err(e) => Err(e),
            },
        },
        PackSource::Url(url) => match raw {
            None => Err(SyncError::GetPack),
            Some(archive) => match manifest_from_archive(archive) {
                Ok(pack) => Ok((pack, Some(url.clone()))),
                Err(e) => Err(e),
            },
        },
    }
}

/// The bytes that were read from a source, if any were.
pub open spec fn raw_view(raw: Option<&[u8]>) -> Option<Seq<u8>> {
    match raw {
        Some(bytes) => Some(bytes@),
        None => None,
    }
}

} // verus!
