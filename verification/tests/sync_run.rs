use nmu::config::{load_config, write_config, UpdaterConfig};
use nmu::engine::{Action, Event, Phase, SyncRun};
use nmu::error::SyncError;
use nmu::ftp::{generate_over_sftp, run_over_sftp, FtpLocation};
use nmu::generate::generate_at;
use nmu::local::run_local;
use nmu::mrpack::{get_mrpack, PackSource};
use std::collections::BTreeMap;
use std::io::Write;

/// A target in memory, with the addresses that answer and a log of what was
/// done to it.
struct Disk {
    files: BTreeMap<String, Vec<u8>>,
    packs: BTreeMap<String, Vec<u8>>,
    web: BTreeMap<String, Vec<u8>>,
    refuses_connection: bool,
    refuses_write_of: Option<String>,
    log: Vec<String>,
}

fn disk() -> Disk {
    Disk {
        files: BTreeMap::new(),
        packs: BTreeMap::new(),
        web: BTreeMap::new(),
        refuses_connection: false,
        refuses_write_of: None,
        log: Vec::new(),
    }
}

fn pack(index: &str) -> Vec<u8> {
    let mut writer = zip::ZipWriter::new(std::io::Cursor::new(Vec::new()));
    writer
        .start_file("modrinth.index.json", zip::write::SimpleFileOptions::default())
        .unwrap();
    writer.write_all(index.as_bytes()).unwrap();
    writer.finish().unwrap().into_inner()
}

fn perform(disk: &mut Disk, action: Action) -> Event {
    match action {
        Action::Connect(_) => {
            disk.log.push("connect".to_string());
            Event::Connected(!disk.refuses_connection)
        }
        Action::LoadState => {
            disk.log.push("load".to_string());
            let text = disk
                .files
                .get("updater.json")
                .and_then(|bytes| String::from_utf8(bytes.clone()).ok());
            Event::StateLoaded(text.and_then(|t| load_config(&t).ok()))
        }
        Action::Remove(path) => {
            disk.log.push(format!("remove {path}"));
            Event::Removed(disk.files.remove(&path).is_some())
        }
        Action::Resolve(source) => {
            disk.log.push("resolve".to_string());
            let raw = match &source {
                PackSource::FromFile(path) => disk.packs.get(path).cloned(),
                PackSource::Url(url) => disk.web.get(url).cloned(),
                PackSource::Unset => None,
            };
            Event::Resolved(get_mrpack(&source, raw.as_deref()))
        }
        Action::Fetch(url) => {
            disk.log.push(format!("fetch {url}"));
            Event::Fetched(disk.web.get(&url).cloned())
        }
        Action::Write(path, bytes) => {
            disk.log.push(format!("write {path}"));
            if disk.refuses_write_of.as_deref() == Some(path.as_str()) {
                Event::Written(false)
            } else {
                disk.files.insert(path, bytes);
                Event::Written(true)
            }
        }
        Action::List(dir) => {
            disk.log.push(format!("list {dir}"));
            let prefix = format!("{dir}/");
            let names: Vec<String> = disk
                .files
                .keys()
                .filter_map(|path| path.strip_prefix(&prefix).map(|name| name.to_string()))
                .collect();
            Event::Listed(if names.is_empty() { None } else { Some(names) })
        }
        Action::Save(record) => {
            disk.log.push("save".to_string());
            match write_config(&record) {
                Ok(text) => {
                    disk.files.insert("updater.json".to_string(), text.into_bytes());
                    Event::Saved(Ok(()))
                }
                Err(e) => Event::Saved(Err(e)),
            }
        }
        Action::Done(_) => unreachable!(),
    }
}

fn play(start: (SyncRun, Action), disk: &mut Disk) -> Result<(), SyncError> {
    let (mut run, mut action) = start;
    loop {
        if let Action::Done(result) = action {
            assert!(run.is_finished());
            return result;
        }
        let event = perform(disk, action);
        (run, action) = run.step(event);
    }
}

fn record_on(disk: &Disk) -> UpdaterConfig {
    let text = String::from_utf8(disk.files.get("updater.json").unwrap().clone()).unwrap();
    load_config(&text).unwrap()
}

fn one_file_disk() -> Disk {
    let mut d = disk();
    let index = "{\"files\":[{\"path\":\"a.jar\",\"downloads\":[\"http://x/a.jar\"]}]}";
    d.packs.insert("/packs/a.mrpack".to_string(), pack(index));
    d.web.insert("http://x/a.mrpack".to_string(), pack(index));
    d.web.insert("http://x/a.jar".to_string(), vec![1, 2, 3]);
    d
}

#[test]
fn sync_from_file_installs_the_file_and_records_no_endpoint() {
    let mut d = one_file_disk();
    let source = PackSource::FromFile("/packs/a.mrpack".to_string());
    assert_eq!(play(run_local("/work", &source), &mut d), Ok(()));
    assert_eq!(d.files.get("a.jar"), Some(&vec![1, 2, 3]));
    assert_eq!(
        String::from_utf8(d.files.get("updater.json").unwrap().clone()).unwrap(),
        "{\n  \"files\": [\n    \"a.jar\"\n  ],\n  \"pack_endpoint\": null\n}"
    );
}

#[test]
fn sync_from_url_records_the_endpoint() {
    let mut d = one_file_disk();
    let source = PackSource::Url("http://x/a.mrpack".to_string());
    assert_eq!(play(run_local("/work", &source), &mut d), Ok(()));
    assert_eq!(d.files.get("a.jar"), Some(&vec![1, 2, 3]));
    let record = record_on(&d);
    assert_eq!(record.files(), &vec!["a.jar".to_string()]);
    assert_eq!(record.pack_endpoint(), &Some("http://x/a.mrpack".to_string()));
}

#[test]
fn sync_removes_what_the_new_manifest_lacks() {
    let mut d = one_file_disk();
    d.files.insert("old.jar".to_string(), vec![9]);
    d.files.insert(
        "updater.json".to_string(),
        "{\"files\":[\"old.jar\"],\"pack_endpoint\":null}".as_bytes().to_vec(),
    );
    let source = PackSource::FromFile("/packs/a.mrpack".to_string());
    assert_eq!(play(run_local("/work", &source), &mut d), Ok(()));
    assert!(!d.files.contains_key("old.jar"));
    assert_eq!(record_on(&d).files(), &vec!["a.jar".to_string()]);
}

#[test]
fn second_sync_leaves_files_and_record_as_they_are() {
    let mut d = one_file_disk();
    d.files.insert("keep.txt".to_string(), vec![7]);
    let source = PackSource::Url("http://x/a.mrpack".to_string());
    assert_eq!(play(run_local("/work", &source), &mut d), Ok(()));
    let after_first = d.files.clone();
    assert_eq!(play(run_local("/work", &source), &mut d), Ok(()));
    assert_eq!(d.files, after_first);
    assert_eq!(d.files.get("keep.txt"), Some(&vec![7]));
}

#[test]
fn every_removal_comes_before_every_write() {
    let mut d = disk();
    let index = "{\"files\":[{\"path\":\"a.jar\",\"downloads\":[\"http://x/a\"]},{\"path\":\"b.jar\",\"downloads\":[\"http://x/b\"]}]}";
    d.packs.insert("p".to_string(), pack(index));
    d.web.insert("http://x/a".to_string(), vec![1]);
    d.web.insert("http://x/b".to_string(), vec![2]);
    d.files.insert("a.jar".to_string(), vec![0]);
    d.files.insert(
        "updater.json".to_string(),
        "{\"files\":[\"a.jar\",\"gone.jar\"]}".as_bytes().to_vec(),
    );
    let source = PackSource::FromFile("p".to_string());
    assert_eq!(play(run_local("/work", &source), &mut d), Ok(()));
    assert_eq!(
        d.log,
        vec![
            "connect",
            "load",
            "remove a.jar",
            "remove gone.jar",
            "resolve",
            "fetch http://x/a",
            "write a.jar",
            "fetch http://x/b",
            "write b.jar",
            "save",
        ]
    );
    assert_eq!(d.files.get("a.jar"), Some(&vec![1]));
    assert_eq!(d.files.get("b.jar"), Some(&vec![2]));
}

#[test]
fn entry_without_links_fails_the_run_and_writes_nothing_further() {
    let mut d = disk();
    let index = "{\"files\":[{\"path\":\"a.jar\",\"downloads\":[\"http://x/a\"]},{\"path\":\"b.jar\",\"downloads\":[]},{\"path\":\"c.jar\",\"downloads\":[\"http://x/c\"]}]}";
    d.packs.insert("p".to_string(), pack(index));
    d.web.insert("http://x/a".to_string(), vec![1]);
    d.web.insert("http://x/c".to_string(), vec![3]);
    let source = PackSource::FromFile("p".to_string());
    assert_eq!(play(run_local("/work", &source), &mut d), Err(SyncError::NoDownloadLinks));
    assert_eq!(d.files.get("a.jar"), Some(&vec![1]));
    assert!(!d.files.contains_key("b.jar"));
    assert!(!d.files.contains_key("c.jar"));
    assert!(!d.files.contains_key("updater.json"));
    assert_eq!(d.log.last().unwrap(), "write a.jar");
}

#[test]
fn missing_record_is_treated_like_an_empty_one() {
    let source = PackSource::FromFile("/packs/a.mrpack".to_string());
    let mut fresh = one_file_disk();
    assert_eq!(play(run_local("/work", &source), &mut fresh), Ok(()));
    let mut emptied = one_file_disk();
    emptied.files.insert("updater.json".to_string(), "{\"files\":[]}".as_bytes().to_vec());
    assert_eq!(play(run_local("/work", &source), &mut emptied), Ok(()));
    let mut broken = one_file_disk();
    broken.files.insert("updater.json".to_string(), "garbage".as_bytes().to_vec());
    assert_eq!(play(run_local("/work", &source), &mut broken), Ok(()));
    assert_eq!(fresh.log, emptied.log);
    assert_eq!(fresh.log, broken.log);
    assert_eq!(fresh.files, emptied.files);
    assert_eq!(fresh.files, broken.files);
    assert!(!fresh.log.iter().any(|line| line.starts_with("remove")));
}

#[test]
fn generate_records_the_mods_directory() {
    let mut d = disk();
    d.files.insert("mods/a.jar".to_string(), vec![1]);
    d.files.insert("mods/b.jar".to_string(), vec![2]);
    d.files.insert("config/x.toml".to_string(), vec![3]);
    d.files.insert(
        "updater.json".to_string(),
        "{\"files\":[\"stale.jar\"],\"pack_endpoint\":\"http://x\"}".as_bytes().to_vec(),
    );
    assert_eq!(play(generate_at("/work"), &mut d), Ok(()));
    assert_eq!(
        String::from_utf8(d.files.get("updater.json").unwrap().clone()).unwrap(),
        "{\n  \"files\": [\n    \"mods/a.jar\",\n    \"mods/b.jar\"\n  ],\n  \"pack_endpoint\": null\n}"
    );
    assert_eq!(d.log, vec!["connect", "list mods", "save"]);
    assert_eq!(d.files.len(), 4);
}

#[test]
fn generate_fails_where_the_mods_directory_cannot_be_listed() {
    let mut d = disk();
    assert_eq!(play(generate_at("/work"), &mut d), Err(SyncError::ReadModDirectory));
    assert!(d.files.is_empty());
}

#[test]
fn generate_refuses_a_listing_that_leads_out_of_the_root() {
    let (run, _) = generate_at("/work");
    let (run, action) = run.step(Event::Connected(true));
    assert_eq!(action, Action::List("mods".to_string()));
    let (run, action) = run.step(Event::Listed(Some(vec!["..".to_string()])));
    assert_eq!(action, Action::Done(Err(SyncError::ReadModDirectory)));
    assert_eq!(run.phase(), Phase::Finished);
}

#[test]
fn run_without_source_ends_before_anything_is_done() {
    let (run, action) = run_local("/work", &PackSource::Unset);
    assert_eq!(action, Action::Done(Err(SyncError::NoPackSource)));
    assert!(run.is_finished());
    let location = FtpLocation {
        address: "host".to_string(),
        port: 22,
        name: "n".to_string(),
        password: "p".to_string(),
    };
    let (run, action) = run_over_sftp(location, PackSource::Unset);
    assert_eq!(action, Action::Done(Err(SyncError::NoPackSource)));
    assert!(run.is_finished());
}

#[test]
fn remote_run_connects_to_the_location_first() {
    let location = FtpLocation {
        address: "host".to_string(),
        port: 2222,
        name: "n".to_string(),
        password: "p".to_string(),
    };
    let (run, action) = run_over_sftp(location.clone(), PackSource::Url("http://x".to_string()));
    assert_eq!(action, Action::Connect(nmu::engine::Target::Remote(location.clone())));
    assert_eq!(run.phase(), Phase::Connecting);
    let (run, action) = run.step(Event::Connected(true));
    assert_eq!(action, Action::LoadState);
    assert_eq!(run.phase(), Phase::Loading);
    let (_, action) = generate_over_sftp(location.clone());
    assert_eq!(action, Action::Connect(nmu::engine::Target::Remote(location)));
}

#[test]
fn failed_connection_ends_the_run() {
    let mut d = one_file_disk();
    d.refuses_connection = true;
    let source = PackSource::FromFile("/packs/a.mrpack".to_string());
    assert_eq!(play(run_local("/work", &source), &mut d), Err(SyncError::Connection));
    assert_eq!(d.log, vec!["connect"]);
}

#[test]
fn unresolvable_pack_ends_the_run_after_the_deletion() {
    let mut d = disk();
    d.files.insert("old.jar".to_string(), vec![9]);
    d.files.insert("updater.json".to_string(), "{\"files\":[\"old.jar\"]}".as_bytes().to_vec());
    let source = PackSource::FromFile("/nowhere.mrpack".to_string());
    assert_eq!(play(run_local("/work", &source), &mut d), Err(SyncError::OpenPack));
    assert!(!d.files.contains_key("old.jar"));
    assert_eq!(d.log, vec!["connect", "load", "remove old.jar", "resolve"]);
}

#[test]
fn failed_download_ends_the_run() {
    let mut d = one_file_disk();
    d.web.remove("http://x/a.jar");
    let source = PackSource::FromFile("/packs/a.mrpack".to_string());
    assert_eq!(play(run_local("/work", &source), &mut d), Err(SyncError::GetFile));
    assert!(!d.files.contains_key("updater.json"));
}

#[test]
fn failed_write_ends_the_run() {
    let mut d = one_file_disk();
    d.refuses_write_of = Some("a.jar".to_string());
    let source = PackSource::FromFile("/packs/a.mrpack".to_string());
    assert_eq!(play(run_local("/work", &source), &mut d), Err(SyncError::CreateFile));
    assert!(!d.files.contains_key("updater.json"));
}

#[test]
fn failed_save_ends_the_run_with_its_error() {
    let source = PackSource::FromFile("/packs/a.mrpack".to_string());
    let mut d = one_file_disk();
    let (mut run, mut action) = run_local("/work", &source);
    loop {
        if let Action::Save(_) = action {
            break;
        }
        let event = perform(&mut d, action);
        (run, action) = run.step(event);
    }
    assert_eq!(run.phase(), Phase::Saving);
    let (run, action) = run.step(Event::Saved(Err(SyncError::CreateConfig)));
    assert_eq!(action, Action::Done(Err(SyncError::CreateConfig)));
    let (_, action) = run.step(Event::Saved(Ok(())));
    assert_eq!(action, Action::Done(Err(SyncError::CreateConfig)));
}

#[test]
fn failed_removal_does_not_stop_the_run() {
    let source = PackSource::FromFile("/packs/a.mrpack".to_string());
    let (run, _) = run_local("/work", &source);
    let (run, _) = run.step(Event::Connected(true));
    let prior = UpdaterConfig::new(vec!["x.jar".to_string(), "y.jar".to_string()], None);
    let (run, action) = run.step(Event::StateLoaded(prior));
    assert_eq!(action, Action::Remove("x.jar".to_string()));
    let (run, action) = run.step(Event::Removed(false));
    assert_eq!(action, Action::Remove("y.jar".to_string()));
    let (run, action) = run.step(Event::Removed(false));
    assert_eq!(action, Action::Resolve(source));
    assert_eq!(run.phase(), Phase::Resolving);
}

#[test]
fn event_out_of_turn_ends_the_run() {
    let source = PackSource::FromFile("/packs/a.mrpack".to_string());
    let (run, _) = run_local("/work", &source);
    let (run, action) = run.step(Event::Written(true));
    assert_eq!(action, Action::Done(Err(SyncError::OutOfTurn)));
    let (_, action) = run.step(Event::Connected(true));
    assert_eq!(action, Action::Done(Err(SyncError::OutOfTurn)));
}

#[test]
fn only_the_first_link_of_an_entry_is_used() {
    let mut d = disk();
    let index = "{\"files\":[{\"path\":\"a.jar\",\"downloads\":[\"http://x/1\",\"http://x/2\"]}]}";
    d.packs.insert("p".to_string(), pack(index));
    d.web.insert("http://x/2".to_string(), vec![2]);
    let source = PackSource::FromFile("p".to_string());
    assert_eq!(play(run_local("/work", &source), &mut d), Err(SyncError::GetFile));
    assert_eq!(d.log.last().unwrap(), "fetch http://x/1");
}

#[test]
fn run_is_started_and_refused_by_hand() {
    let target = nmu::engine::Target::Local("/work".to_string());
    let (run, action) = SyncRun::start(target, PackSource::Unset, true);
    assert_eq!(action, Action::Connect(nmu::engine::Target::Local("/work".to_string())));
    assert_eq!(run.phase(), Phase::Connecting);
    assert!(!run.is_finished());
    let (run, action) = SyncRun::refuse(SyncError::NoWorkLocation);
    assert_eq!(action, Action::Done(Err(SyncError::NoWorkLocation)));
    assert!(run.is_finished());
    let (run, action) = run.step(Event::Connected(true));
    assert_eq!(action, Action::Done(Err(SyncError::NoWorkLocation)));
    assert!(run.is_finished());
}

#[test]
fn finished_run_repeats_its_success() {
    let mut d = disk();
    d.files.insert("mods/a.jar".to_string(), vec![1]);
    let (mut run, mut action) = generate_at("/work");
    loop {
        if let Action::Done(_) = action {
            break;
        }
        let event = perform(&mut d, action);
        (run, action) = run.step(event);
    }
    assert_eq!(action, Action::Done(Ok(())));
    let (_, action) = run.step(Event::Removed(true));
    assert_eq!(action, Action::Done(Ok(())));
}
