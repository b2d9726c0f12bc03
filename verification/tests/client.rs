use nmu::client::{run, update, NMUClient};
use nmu::config::UpdaterConfig;
use nmu::engine::{Action, Target};
use nmu::error::SyncError;
use nmu::ftp::FtpLocation;
use nmu::generate::generate;
use nmu::mrpack::PackSource;

fn location(address: &str) -> FtpLocation {
    FtpLocation {
        address: address.to_string(),
        port: 22,
        name: "user".to_string(),
        password: "secret".to_string(),
    }
}

#[test]
fn fresh_settings_choose_nothing() {
    let nmu = NMUClient::new(location("host"));
    assert_eq!(nmu.work_folder, None);
    assert_eq!(nmu.pack_source, PackSource::Unset);
    assert_eq!(nmu.pack_endpoint, "");
    assert_eq!(nmu.last_run_result, "Not ran yet");
    assert_eq!(nmu.ftp_location, location("host"));
}

#[test]
fn work_folder_takes_precedence_over_the_remote_location() {
    let mut nmu = NMUClient::new(location("host"));
    assert_eq!(nmu.target(), Some(Target::Remote(location("host"))));
    nmu.select_work_folder("/work".to_string(), None);
    assert_eq!(nmu.target(), Some(Target::Local("/work".to_string())));
    let nowhere = NMUClient::new(location(""));
    assert_eq!(nowhere.target(), None);
}

#[test]
fn run_without_work_location_is_refused() {
    let mut nmu = NMUClient::new(location(""));
    nmu.select_pack_file("/p.mrpack".to_string());
    let (sync, action) = run(&nmu);
    assert_eq!(action, Action::Done(Err(SyncError::NoWorkLocation)));
    assert!(sync.is_finished());
    let (sync, action) = generate(&nmu);
    assert_eq!(action, Action::Done(Err(SyncError::NoWorkLocation)));
    assert!(sync.is_finished());
}

#[test]
fn run_without_pack_source_is_refused() {
    let mut nmu = NMUClient::new(location("host"));
    let (_, action) = run(&nmu);
    assert_eq!(action, Action::Done(Err(SyncError::NoPackSource)));
    nmu.select_work_folder("/work".to_string(), None);
    let (_, action) = run(&nmu);
    assert_eq!(action, Action::Done(Err(SyncError::NoPackSource)));
}

#[test]
fn run_starts_on_the_chosen_target() {
    let mut nmu = NMUClient::new(location("host"));
    nmu.select_pack_file("/p.mrpack".to_string());
    let (_, action) = run(&nmu);
    assert_eq!(action, Action::Connect(Target::Remote(location("host"))));
    let (_, action) = generate(&nmu);
    assert_eq!(action, Action::Connect(Target::Remote(location("host"))));
    nmu.select_work_folder("/work".to_string(), None);
    let (_, action) = run(&nmu);
    assert_eq!(action, Action::Connect(Target::Local("/work".to_string())));
    let (_, action) = generate(&nmu);
    assert_eq!(action, Action::Connect(Target::Local("/work".to_string())));
}

#[test]
fn generate_needs_no_pack_source() {
    let mut nmu = NMUClient::new(location(""));
    nmu.select_work_folder("/work".to_string(), None);
    let (_, action) = generate(&nmu);
    assert_eq!(action, Action::Connect(Target::Local("/work".to_string())));
}

#[test]
fn folder_with_a_remembered_address_sets_the_source() {
    let mut nmu = NMUClient::new(location("host"));
    let prior = UpdaterConfig::new(vec!["a.jar".to_string()], Some("http://x/p".to_string()));
    nmu.select_work_folder("/work".to_string(), prior);
    assert_eq!(nmu.work_folder, Some("/work".to_string()));
    assert_eq!(nmu.pack_endpoint, "http://x/p");
    assert_eq!(nmu.pack_source, PackSource::Url("http://x/p".to_string()));
}

#[test]
fn folder_without_a_remembered_address_keeps_the_source() {
    let mut nmu = NMUClient::new(location("host"));
    nmu.select_pack_file("/p.mrpack".to_string());
    let prior = UpdaterConfig::new(vec!["a.jar".to_string()], None);
    nmu.select_work_folder("/work".to_string(), prior);
    assert_eq!(nmu.pack_endpoint, "");
    assert_eq!(nmu.pack_source, PackSource::FromFile("/p.mrpack".to_string()));
}

#[test]
fn confirmed_endpoint_becomes_the_source() {
    let mut nmu = NMUClient::new(location("host"));
    nmu.pack_endpoint = "http://x/p".to_string();
    nmu.set_pack_endpoint();
    assert_eq!(nmu.pack_source, PackSource::Url("http://x/p".to_string()));
    assert_eq!(nmu.pack_endpoint, "http://x/p");
}

#[test]
fn results_are_noted_for_the_user() {
    let mut nmu = NMUClient::new(location("host"));
    nmu.record_run(Ok(()));
    assert_eq!(nmu.last_run_result, "Ran!");
    nmu.record_run(Err(SyncError::GetFile));
    assert_eq!(nmu.last_run_result, "Could not GET file from download link in pack definition");
    nmu.record_generate(Ok(()));
    assert_eq!(nmu.last_run_result, "Generated!");
    nmu.record_generate(Err(SyncError::ReadModDirectory));
    assert_eq!(nmu.last_run_result, "Could not read mod directory!");
}

#[test]
fn update_check_is_not_available() {
    let nmu = NMUClient::new(location("host"));
    assert_eq!(update(&nmu), Err(SyncError::UpdateNotImplemented));
}
