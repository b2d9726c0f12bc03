//! The record of what a run installed, and the file that keeps it.
use crate::document::{
    copy_text, copy_texts, list_of_texts, read_text_list, same_text, same_texts, text_list,
    text_list_round_trip, text_of, texts, write_text_list,
};
use crate::error::SyncError;
use crate::json::{
    as_text, insert_member, is_null, json_tree, member, new_members, null_value, object_value,
    parse_json, parsed_json, pretty_json, print_json, text_value, Json,
};
use crate::paths::{all_relative, is_relative_path};
use vstd::prelude::*;

verus! {

/// What a record says: the files that are installed, in the order in which they
/// were written, and the address the pack came from, if it came from one.
pub ghost struct Record {
    pub files: Seq<Seq<char>>,
    pub pack_endpoint: Option<Seq<char>>,
}

/// The record of installed files. Each path in it stays below the target's root.
#[derive(Debug, PartialEq, Eq)]
pub struct UpdaterConfig {
    pub(crate) files: Vec<String>,
    pub(crate) pack_endpoint: Option<String>,
}

impl View for UpdaterConfig {
    type V = Record;

    open(crate) spec fn view(&self) -> Record {
        Record { files: texts(self.files@), pack_endpoint: text_of(self.pack_endpoint) }
    }
}

impl Clone for UpdaterConfig {
    fn clone(&self) -> (r: Self)
        ensures
            r@ == self@,
    {
        proof {
            use_type_invariant(self);
        }
        UpdaterConfig {
            files: copy_texts(&self.files),
            pack_endpoint: copy_text(&self.pack_endpoint),
        }
    }
}

/// The name of the file, at the target's root, that keeps the record.
pub open spec fn config_name() -> Seq<char> {
    "updater.json"@
}

/// The name of the file, at the target's root, that keeps the record.
pub fn config_file_name() -> (r: &'static str)
    ensures
        r@ == config_name(),
{
    "updater.json"
}

/// The record that a document spells. The document is an object; its member
/// `files` is an array of strings, each a path below the root; its member
/// `pack_endpoint` is a string, or `null`, or missing.
pub open spec fn record_of_tree(tree: Json) -> Option<Record> {
    match tree {
        Json::Object(m) => {
            if !m.contains_key("files"@) {
                None
            } else {
                match text_list(m["files"@]) {
                    None => None,
                    Some(files) => {
                        if !all_relative(files) {
                            None
                        } else if !m.contains_key("pack_endpoint"@) {
                            Some(Record { files, pack_endpoint: None })
                        } else {
                            match m["pack_endpoint"@] {
                                Json::Null => Some(Record { files, pack_endpoint: None }),
                                Json::Text(s) => Some(Record { files, pack_endpoint: Some(s) }),
                                _ => None,
                            }
                        }
                    },
                }
            }
        },
        _ => None,
    }
}

/// The document that spells a record.
pub open spec fn tree_of_record(record: Record) -> Json {
    Json::Object(
        Map::<Seq<char>, Json>::empty().insert("files"@, list_of_texts(record.files)).insert(
            "pack_endpoint"@,
            match record.pack_endpoint {
                Some(s) => Json::Text(s),
                None => Json::Null,
            },
        ),
    )
}

/// The record that the text of a record file spells, if it spells one.
pub open spec fn record_of_text(text: Seq<char>) -> Option<Record> {
    match parsed_json(text) {
        Some(tree) => record_of_tree(tree),
        None => None,
    }
}

/// The text that is saved for a record: its document, pretty-printed. There is
/// none where that text does not read back as the record.
pub open spec fn saved_text(record: Record) -> Option<Seq<char>> {
    let text = pretty_json(tree_of_record(record));
    if record_of_text(text) == Some(record) {
        Some(text)
    } else {
        None
    }
}

/// A record's document spells that record again.
pub proof fn record_tree_round_trip(record: Record)
    requires
        all_relative(record.files),
    ensures
        record_of_tree(tree_of_record(record)) == Some(record),
{
    reveal_strlit("files");
    reveal_strlit("pack_endpoint");
    assert("files"@ != "pack_endpoint"@) by {
        assert("files"@.len() != "pack_endpoint"@.len());
    }
    text_list_round_trip(record.files);
}

/// Tells whether every path of `files` stays below the root.
pub fn all_relative_paths(files: &Vec<String>) -> (r: bool)
    ensures
        r == all_relative(texts(files@)),
{
    let mut i: usize = 0;
    while i < files.len()
        invariant
            i <= files.len(),
            forall|k: int| 0 <= k < i ==> crate::paths::is_relative(#[trigger] texts(files@)[k]),
        decreases files.len() - i,
    {
        if !is_relative_path(files[i].as_str()) {
            assert(!crate::paths::is_relative(texts(files@)[i as int]));
            return false;
        }
        i = i + 1;
    }
    true
}

impl UpdaterConfig {
    #[verifier::type_invariant]
    spec fn well_formed(self) -> bool {
        all_relative(texts(self.files@))
    }

    /// A record of `files`, which came from `pack_endpoint`. There is none where a
    /// path of `files` leaves the root.
    pub fn new(files: Vec<String>, pack_endpoint: Option<String>) -> (r: Option<UpdaterConfig>)
        ensures
            r is Some <==> all_relative(texts(files@)),
            r matches Some(c) ==> c@ == (Record {
                files: texts(files@),
                pack_endpoint: text_of(pack_endpoint),
            }),
    {
        if all_relative_paths(&files) {
            Some(UpdaterConfig { files, pack_endpoint })
        } else {
            None
        }
    }

    /// A record of `files`, none of which leaves the root.
    pub(crate) fn of_relative(files: Vec<String>, pack_endpoint: Option<String>) -> (r:
        UpdaterConfig)
        requires
            all_relative(texts(files@)),
        ensures
            r@ == (Record { files: texts(files@), pack_endpoint: text_of(pack_endpoint) }),
    {
        UpdaterConfig { files, pack_endpoint }
    }

    /// The installed files, in the order in which they were written.
    pub fn files(&self) -> (r: &Vec<String>)
        ensures
            texts(r@) == self@.files,
            all_relative(self@.files),
    {
        proof {
            use_type_invariant(self);
        }
        &self.files
    }

    /// The address the pack came from, if it came from one.
    pub fn pack_endpoint(&self) -> (r: &Option<String>)
        ensures
            text_of(*r) == self@.pack_endpoint,
    {
        &self.pack_endpoint
    }
}

/// Reads a record out of a document.
pub fn config_from_json(v: &serde_json::Value) -> (r: Option<UpdaterConfig>)
    ensures
        match r {
            Some(c) => record_of_tree(json_tree(*v)) == Some(c@),
            None => record_of_tree(json_tree(*v)) is None,
        },
{
    let files = match member(v, "files") {
        Some(list) => match read_text_list(list) {
            Some(files) => files,
            None => {
                return None;
            },
        },
        None => {
            return None;
        },
    };
    if !all_relative_paths(&files) {
        return None;
    }
    let pack_endpoint = match member(v, "pack_endpoint") {
        None => None,
        Some(e) => {
            if is_null(e) {
                None
            } else {
                match as_text(e) {
                    Some(s) => Some(s.to_owned()),
                    None => {
                        return None;
                    },
                }
            }
        },
    };
    Some(UpdaterConfig { files, pack_endpoint })
}

/// Builds the document that spells a record.
pub fn config_to_json(config: &UpdaterConfig) -> (r: serde_json::Value)
    ensures
        json_tree(r) == tree_of_record(config@),
{
    let files = write_text_list(&config.files);
    let endpoint = match &config.pack_endpoint {
        Some(s) => text_value(s.clone()),
        None => null_value(),
    };
    let mut members = new_members();
    insert_member(&mut members, "files".to_owned(), files);
    insert_member(&mut members, "pack_endpoint".to_owned(), endpoint);
    object_value(members)
}

/// Reads the record that the text of a record file spells. Fails with
/// `ReadConfig` where the text is no JSON or spells no record.
pub fn load_config(text: &str) -> (r: Result<UpdaterConfig, SyncError>)
    ensures
        match r {
            Ok(c) => record_of_text(text@) == Some(c@),
            Err(e) => e == SyncError::ReadConfig && record_of_text(text@) is None,
        },
{
    match parse_json(text) {
        Ok(v) => match config_from_json(&v) {
            Some(c) => Ok(c),
            None => Err(SyncError::ReadConfig),
        },
        Err(_) => Err(SyncError::ReadConfig),
    }
}

/// Tells whether two records say the same.
pub fn same_record(a: &UpdaterConfig, b: &UpdaterConfig) -> (r: bool)
    ensures
        r == (a@ == b@),
{
    same_texts(&a.files, &b.files) && same_text(&a.pack_endpoint, &b.pack_endpoint)
}

/// Accepts the text that was printed for `config` where it reads back as
/// `config`, and refuses it with `SerializeConfig` otherwise.
pub fn checked_text(config: &UpdaterConfig, text: String) -> (r: Result<String, SyncError>)
    ensures
        match r {
            Ok(t) => t == text && record_of_text(text@) == Some(config@),
            Err(e) => e == SyncError::SerializeConfig && record_of_text(text@) != Some(config@),
        },
{
    match load_config(text.as_str()) {
        Ok(back) => {
            if same_record(&back, config) {
                Ok(text)
            } else {
                Err(SyncError::SerializeConfig)
            }
        },
        Err(_) => Err(SyncError::SerializeConfig),
    }
}

/// Writes the text of the record file for `config`: the document of the
/// record, pretty-printed. The text is handed out exactly where it reads back
/// as the same record, so that what is saved can be loaded again. The only
/// failure is `SerializeConfig`, and it comes exactly where the printed text
/// does not read back as the record.
pub fn write_config(config: &UpdaterConfig) -> (r: Result<String, SyncError>)
    ensures
        match r {
            Ok(text) => saved_text(config@) == Some(text@),
            Err(e) => e == SyncError::SerializeConfig && saved_text(config@) is None,
        },
{
    let v = config_to_json(config);
    match print_json(&v) {
        Ok(text) => checked_text(config, text),
        Err(_) => Err(SyncError::SerializeConfig),
    }
}

/// Round trip of the record: a text that is saved for a record is loaded as
/// that record, with or without an address in it.
pub proof fn saved_record_loads_again(record: Record)
    ensures
        saved_text(record) matches Some(text) ==> record_of_text(text) == Some(record),
{
}

/// The removals that a record asks of the next run: its files, in order.
pub fn delete_by_config(config: &UpdaterConfig) -> (r: Vec<String>)
    ensures
        texts(r@) == config@.files,
        all_relative(texts(r@)),
{
    proof {
        use_type_invariant(config);
    }
    copy_texts(&config.files)
}

} // verus!
