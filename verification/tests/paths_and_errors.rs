use nmu::config::{all_relative_paths, config_from_json, config_to_json, UpdaterConfig};
use nmu::document::{
    copy_text, copy_texts, read_text_list, same_text, same_texts, write_text_list,
};
use nmu::error::SyncError;
use nmu::generate::listed_record;
use nmu::paths::{is_relative_path, separates};

#[test]
fn paths_below_the_root_are_relative() {
    assert!(is_relative_path("a.jar"));
    assert!(is_relative_path("mods/a.jar"));
    assert!(is_relative_path("mods/..a.jar"));
    assert!(is_relative_path("mods/a..jar"));
    assert!(is_relative_path("mods/a.jar.."));
    assert!(is_relative_path("mods/.../a.jar"));
    assert!(is_relative_path("./a.jar"));
    assert!(is_relative_path(""));
    assert!(is_relative_path("."));
    assert!(is_relative_path("m\u{f6}ds/\u{e4}.jar"));
}

#[test]
fn paths_that_leave_the_root_are_not_relative() {
    assert!(!is_relative_path(".."));
    assert!(!is_relative_path("../a.jar"));
    assert!(!is_relative_path("mods/../a.jar"));
    assert!(!is_relative_path("mods/.."));
    assert!(!is_relative_path("mods\\..\\a.jar"));
    assert!(!is_relative_path("/etc/passwd"));
    assert!(!is_relative_path("\\share"));
    assert!(!is_relative_path("/"));
    assert!(!is_relative_path("\u{f6}/../x"));
}

#[test]
fn paths_with_a_drive_prefix_are_not_relative() {
    assert!(!is_relative_path("C:\\x"));
    assert!(!is_relative_path("C:/x"));
    assert!(!is_relative_path("C:x"));
    assert!(!is_relative_path("c:"));
    assert!(is_relative_path("C"));
    assert!(is_relative_path(":"));
    assert!(is_relative_path("ab:c"));
    assert!(is_relative_path("mods/C:x"));
}

#[test]
fn separators_are_slash_and_backslash() {
    assert!(separates('/'));
    assert!(separates('\\'));
    assert!(!separates('.'));
    assert!(!separates('a'));
}

#[test]
fn list_of_paths_is_relative_when_each_is() {
    assert!(all_relative_paths(&vec![]));
    assert!(all_relative_paths(&vec!["a".to_string(), "b/c".to_string()]));
    assert!(!all_relative_paths(&vec!["a".to_string(), "../c".to_string()]));
}

#[test]
fn messages_are_the_ones_shown_to_the_user() {
    assert_eq!(SyncError::NoPackSource.message(), "No pack source set!");
    assert_eq!(SyncError::NoPackSourceSelected.message(), "No pack source selected");
    assert_eq!(SyncError::NoWorkLocation.message(), "No work location set!");
    assert_eq!(SyncError::Connection.message(), "Setting up SFTP session did not succeed");
    assert_eq!(SyncError::ReadConfig.message(), "Could not get updater config!");
    assert_eq!(SyncError::CreateConfig.message(), "Could not create config file");
    assert_eq!(SyncError::SerializeConfig.message(), "Could not serialize config");
    assert_eq!(SyncError::WriteConfig.message(), "Could not write JSON to file");
    assert_eq!(SyncError::OpenPack.message(), "Could not open .mrpack file");
    assert_eq!(SyncError::GetPack.message(), "Could not GET mrpack file");
    assert_eq!(SyncError::Unzip.message(), "Could not unzip downloaded mrpack");
    assert_eq!(SyncError::Deserialize.message(), "Could not deserialize pack file");
    assert_eq!(SyncError::NoDownloadLinks.message(), "File has no download links");
    assert_eq!(
        SyncError::GetFile.message(),
        "Could not GET file from download link in pack definition"
    );
    assert_eq!(SyncError::CreateFile.message(), "Could not create file in mod directory");
    assert_eq!(SyncError::ReadModDirectory.message(), "Could not read mod directory!");
    assert_eq!(SyncError::UpdateNotImplemented.message(), "Update checking is not implemented");
    assert_eq!(SyncError::OutOfTurn.message(), "Event does not answer the pending action");
}

#[test]
fn listing_becomes_a_record_of_paths_under_mods() {
    let record = listed_record(&vec!["a.jar".to_string(), "b.jar".to_string()]).unwrap();
    assert_eq!(record.files(), &vec!["mods/a.jar".to_string(), "mods/b.jar".to_string()]);
    assert_eq!(record.pack_endpoint(), &None);
    assert_eq!(listed_record(&vec![]).unwrap().files().len(), 0);
    assert!(listed_record(&vec!["a.jar".to_string(), "..".to_string()]).is_none());
    assert!(listed_record(&vec!["../x".to_string()]).is_none());
}

#[test]
fn record_and_its_document_spell_each_other() {
    let record = UpdaterConfig::new(
        vec!["mods/a.jar".to_string()],
        Some("http://x/a.mrpack".to_string()),
    )
    .unwrap();
    let document = config_to_json(&record);
    assert_eq!(
        document,
        serde_json::from_str::<serde_json::Value>(
            "{\"files\":[\"mods/a.jar\"],\"pack_endpoint\":\"http://x/a.mrpack\"}"
        )
        .unwrap()
    );
    assert_eq!(config_from_json(&document), Some(record.clone()));
    assert_eq!(record.clone(), record);
    let bare = UpdaterConfig::new(vec![], None).unwrap();
    let document = config_to_json(&bare);
    assert!(document.get("pack_endpoint").unwrap().is_null());
    assert_eq!(config_from_json(&document), Some(bare));
}

#[test]
fn lists_of_strings_are_read_and_written() {
    let items = vec!["a".to_string(), "b".to_string()];
    let document = write_text_list(&items);
    assert_eq!(document, serde_json::from_str::<serde_json::Value>("[\"a\",\"b\"]").unwrap());
    assert_eq!(read_text_list(&document), Some(items.clone()));
    let mixed = serde_json::from_str::<serde_json::Value>("[\"a\",2]").unwrap();
    assert_eq!(read_text_list(&mixed), None);
    let object = serde_json::from_str::<serde_json::Value>("{}").unwrap();
    assert_eq!(read_text_list(&object), None);
    assert_eq!(copy_texts(&items), items);
    assert_eq!(copy_text(&Some("a".to_string())), Some("a".to_string()));
    assert_eq!(copy_text(&None), None);
    assert!(same_texts(&items, &items.clone()));
    assert!(!same_texts(&items, &vec!["a".to_string()]));
    assert!(!same_texts(&items, &vec!["a".to_string(), "c".to_string()]));
    assert!(same_text(&None, &None));
    assert!(same_text(&Some("a".to_string()), &Some("a".to_string())));
    assert!(!same_text(&Some("a".to_string()), &Some("b".to_string())));
    assert!(!same_text(&Some("a".to_string()), &None));
}
