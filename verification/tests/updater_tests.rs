use pd2lcp::event::Event;
use pd2lcp::metadata::GameFileMetadata;
use pd2lcp::pd2_updater::{
    FileAction, InstallStep, Pd2Install, file_action, files_equal, metadata_outdated, progress_event,
};
use pd2lcp::utils::compute_hash;

fn entry(checksum: &str, name: &str) -> GameFileMetadata {
    GameFileMetadata {
        checksum: checksum.to_string(),
        name: name.to_string(),
        url: format!("https://pd2-client-files.projectdiablo2.com/{name}"),
    }
}

#[test]
fn checksums_are_lower_case_md5() {
    assert_eq!(compute_hash(b"").unwrap(), "d41d8cd98f00b204e9800998ecf8427e");
    assert_eq!(compute_hash(b"abc").unwrap(), "900150983cd24fb0d6963f7d28e17f72");
    let h = compute_hash(b"Project Diablo 2").unwrap();
    assert_eq!(h.len(), 32);
    assert!(h.chars().all(|c| c.is_ascii_digit() || ('a'..='f').contains(&c)));
}

#[test]
fn outdated_when_missing_or_different() {
    let remote = vec![entry("a", "Game.exe"), entry("b", "D2.dll")];
    assert!(metadata_outdated(&None, &remote));
    assert!(!metadata_outdated(&Some(remote.clone()), &remote));
    assert!(metadata_outdated(&Some(vec![entry("a", "Game.exe")]), &remote));
    assert!(metadata_outdated(
        &Some(vec![entry("a", "Game.exe"), entry("c", "D2.dll")]),
        &remote
    ));
    assert!(files_equal(&remote, &remote.clone()));
    assert!(!files_equal(&remote, &Vec::new()));
}

#[test]
fn progress_is_reported_in_32_bits() {
    assert_eq!(progress_event(0, 5), Event::UpdatingPD2 { done: 0, total: 5 });
    assert_eq!(progress_event(4, 5), Event::UpdatingPD2 { done: 4, total: 5 });
    let big = (u32::MAX as usize).wrapping_add(3);
    assert_eq!(progress_event(big, big), Event::UpdatingPD2 { done: 2, total: 2 });
}

#[test]
fn file_actions() {
    let meta = entry("900150983cd24fb0d6963f7d28e17f72", "abc.txt");
    assert_eq!(file_action(&meta, None), FileAction::Download);
    assert_eq!(file_action(&meta, Some(b"abc")), FileAction::Keep);
    assert_eq!(file_action(&meta, Some(b"abd")), FileAction::Rewrite);
}

#[test]
fn update_run_reports_each_file_then_done() {
    let state = pd2lcp::state::State::from_home("/h");
    let mut run = Pd2Install::new(vec![entry("a", "Game.exe"), entry("b", "D2.dll")]);
    assert!(!run.is_done());
    match run.step(&state) {
        InstallStep::File { report, path, index } => {
            assert_eq!(report, Event::UpdatingPD2 { done: 0, total: 2 });
            assert_eq!(index, 0);
            assert_eq!(path.parts().last().unwrap(), "Game.exe");
        }
        other => panic!("unexpected {other:?}"),
    }
    match run.step(&state) {
        InstallStep::File { report, index, .. } => {
            assert_eq!(report, Event::UpdatingPD2 { done: 1, total: 2 });
            assert_eq!(index, 1);
        }
        other => panic!("unexpected {other:?}"),
    }
    assert!(run.is_done());
    match run.step(&state) {
        InstallStep::Finish { record, report } => {
            assert_eq!(report, Event::DoneUpdating);
            assert_eq!(record.parts().last().unwrap(), "local_metadata.json");
        }
        other => panic!("unexpected {other:?}"),
    }
    assert_eq!(run.files().len(), 2);
}
