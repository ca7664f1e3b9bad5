use pd2lcp::error::Error;
use pd2lcp::filter::{Filter, FilterGroup};
use pd2lcp::path::FsPath;
use pd2lcp::event::Event;
use pd2lcp::state::{SetupStep, State};

fn parts(p: &FsPath) -> Vec<String> {
    p.parts().clone()
}

fn strs(v: &[&str]) -> Vec<String> {
    v.iter().map(|s| s.to_string()).collect()
}

#[test]
fn home_layout() {
    let s = State::from_home("/home/u");
    assert_eq!(parts(s.base()), strs(&["/home/u", "Games/pd2lcp"]));
    assert_eq!(parts(s.game_dir()), strs(&["/home/u", "Games/pd2lcp/game"]));
    assert_eq!(parts(&s.d2_dir()), strs(&["/home/u", "Games/pd2lcp/game", "Diablo II"]));
    assert_eq!(
        parts(&s.pd2_dir()),
        strs(&["/home/u", "Games/pd2lcp/game", "Diablo II", "ProjectD2"])
    );
    assert_eq!(
        parts(&s.filter_dir_local()),
        strs(&["/home/u", "Games/pd2lcp/game", "Diablo II", "ProjectD2", "filters/local"])
    );
    assert_eq!(
        parts(&s.filter_dir_online()),
        strs(&["/home/u", "Games/pd2lcp/game", "Diablo II", "ProjectD2", "filters/online"])
    );
    assert_eq!(parts(s.wine_dir().unwrap()), strs(&["/home/u", "Games/pd2lcp/wine"]));
    assert_eq!(parts(s.wine_prefix().unwrap()), strs(&["/home/u", "Games/pd2lcp/prefix"]));
    assert_eq!(
        parts(&s.wine_exe("wine").unwrap()),
        strs(&["/home/u", "Games/pd2lcp/wine", "bin", "wine"])
    );
    assert_eq!(
        parts(&s.wine_dosdevice("a:").unwrap()),
        strs(&["/home/u", "Games/pd2lcp/prefix", "dosdevices", "a:"])
    );
    assert_eq!(parts(&s.settings_path()), strs(&["/home/u", "Games/pd2lcp", "settings.toml"]));
    assert_eq!(parts(&s.setup_marker_path()), strs(&["/home/u", "Games/pd2lcp", "setup_finished"]));
    assert_eq!(
        parts(&s.local_metadata_path()),
        strs(&["/home/u", "Games/pd2lcp/game", "Diablo II", "ProjectD2", "local_metadata.json"])
    );
    assert_eq!(
        parts(&s.loot_filter_path()),
        strs(&["/home/u", "Games/pd2lcp/game", "Diablo II", "ProjectD2", "loot.filter"])
    );
}

#[test]
fn external_layout_has_no_wine() {
    let s = State::init_raw_external();
    assert_eq!(parts(s.base()), strs(&["A:\\"]));
    assert_eq!(parts(s.game_dir()), strs(&["A:\\"]));
    assert!(matches!(s.wine_dir(), Err(Error::InvalidPlatform)));
    assert!(matches!(s.wine_prefix(), Err(Error::InvalidPlatform)));
    assert!(matches!(s.wine_exe("wine"), Err(Error::InvalidPlatform)));
    assert!(matches!(s.wine_dosdevice("a:"), Err(Error::InvalidPlatform)));
}

#[test]
fn init_raw_uses_a_home_layout() {
    match State::init_raw(false) {
        Ok(s) => assert_eq!(parts(s.base())[1], "Games/pd2lcp"),
        Err(e) => assert!(matches!(e, Error::NoHomeDir)),
    }
}

#[test]
fn init_raw_in_an_external_environment_is_rooted_at_drive_a() {
    let s = State::init_raw(true).unwrap();
    assert_eq!(parts(s.base()), strs(&["A:\\"]));
    assert_eq!(parts(s.game_dir()), strs(&["A:\\"]));
    assert_eq!(parts(&s.d2_dir()), strs(&["A:\\", "Diablo II"]));
    assert!(matches!(s.wine_dir(), Err(Error::InvalidPlatform)));
    assert!(matches!(s.wine_prefix(), Err(Error::InvalidPlatform)));
}

#[test]
fn work_needs_a_set_up_launcher() {
    assert!(matches!(State::require(None), Err(Error::Pd2lcpNotInitialised)));
    let s = State::require(Some(State::from_home("/h"))).unwrap();
    assert_eq!(parts(s.base()), strs(&["/h", "Games/pd2lcp"]));
}

#[test]
fn filter_files() {
    let s = State::from_home("/h");
    let local = Filter {
        grouping: FilterGroup::local(),
        name: "my own.filter".to_string(),
        url: "n/a".to_string(),
        sha: "n/a".to_string(),
    };
    let online = Filter {
        grouping: FilterGroup {
            name: "The Group".to_string(),
            url: "u".to_string(),
            author: "a".to_string(),
        },
        name: "nice one.filter".to_string(),
        url: "https://dl".to_string(),
        sha: "1".to_string(),
    };
    let base = ["/h", "Games/pd2lcp/game", "Diablo II", "ProjectD2"];
    let mut expected_local = strs(&base);
    expected_local.push("filters/local".to_string());
    expected_local.push("my own.filter".to_string());
    assert_eq!(parts(&s.filter_file_path(&local)), expected_local);
    let mut expected_online = strs(&base);
    expected_online.push("filters/online".to_string());
    expected_online.push("The_Group-nice_one.filter".to_string());
    assert_eq!(parts(&s.filter_file_path(&online)), expected_online);
    assert_eq!(parts(&s.online_filter_path(&online)), expected_online);
    let (from, check) = s.activation_source(&local);
    assert_eq!(parts(&from), expected_local);
    assert!(!check);
    let (from, check) = s.activation_source(&online);
    assert_eq!(parts(&from), expected_online);
    assert!(check);
}

#[test]
fn setup_steps_in_order() {
    let s = State::from_home("/h");
    let steps = s.setup_steps().unwrap();
    assert_eq!(steps.len(), 10);
    assert!(matches!(&steps[0], SetupStep::RemoveDirIfPresent(p) if parts(p) == strs(&["/h", "Games/pd2lcp/game"])));
    assert!(matches!(&steps[1], SetupStep::CreateDirAll(p) if parts(p) == strs(&["/h", "Games/pd2lcp/game"])));
    assert!(matches!(&steps[2], SetupStep::RemoveDirIfPresent(p) if parts(p) == strs(&["/h", "Games/pd2lcp/wine"])));
    assert!(matches!(&steps[3], SetupStep::Report(Event::DownloadingWine)));
    assert!(matches!(&steps[4], SetupStep::FetchWine));
    assert!(matches!(&steps[5], SetupStep::Report(Event::FinishedDownloadingWine)));
    assert!(matches!(&steps[6], SetupStep::RemoveDirIfPresent(p) if parts(p) == strs(&["/h", "Games/pd2lcp/prefix"])));
    assert!(matches!(&steps[7], SetupStep::Report(Event::InitPrefix)));
    assert!(matches!(&steps[8], SetupStep::CreatePrefix));
    assert!(matches!(&steps[9], SetupStep::Report(Event::FinishedInitPrefix)));
    assert!(matches!(State::init_raw_external().setup_steps(), Err(Error::InvalidPlatform)));
}

#[test]
fn a_missing_home_directory_is_an_error() {
    assert!(matches!(State::from_home_dir(None), Err(Error::NoHomeDir)));
    let s = State::from_home_dir(Some("/home/u")).unwrap();
    assert_eq!(parts(s.base()), strs(&["/home/u", "Games/pd2lcp"]));
    assert_eq!(parts(s.game_dir()), strs(&["/home/u", "Games/pd2lcp/game"]));
}
