use pd2lcp::base_game::{
    Relocation, install_path_in_place, installer_command, plan_relocation, registry_query_command,
};
use pd2lcp::command::{CommandArg, CommandSpec, status_result};
use pd2lcp::error::Error;
use pd2lcp::launch::launch_command;
use pd2lcp::path::FsPath;
use pd2lcp::settings::Settings;
use pd2lcp::state::State;
use pd2lcp::wine_manager::{
    PrefixAction, PrefixRun, PrefixStep, WINE_BUILD_DIR, prefix_setup_plan, wine_fetch_plan,
};

fn parts(p: &FsPath) -> Vec<String> {
    p.parts().clone()
}

fn strs(v: &[&str]) -> Vec<String> {
    v.iter().map(|s| s.to_string()).collect()
}

fn texts(c: &CommandSpec) -> Vec<String> {
    c.args
        .iter()
        .map(|a| match a {
            CommandArg::Text(t) => t.clone(),
            CommandArg::Path(p) => format!("<{}>", p.parts().join("|")),
        })
        .collect()
}

#[test]
fn launch_under_wine() {
    let s = State::from_home("/h");
    let c = launch_command(&s, &Settings::default(), false).unwrap();
    assert_eq!(parts(&c.program), strs(&["/h", "Games/pd2lcp/wine", "bin", "wine"]));
    assert_eq!(parts(c.wineprefix.as_ref().unwrap()), strs(&["/h", "Games/pd2lcp/prefix"]));
    assert_eq!(
        parts(c.current_dir.as_ref().unwrap()),
        strs(&["/h", "Games/pd2lcp/game", "Diablo II", "ProjectD2"])
    );
    assert_eq!(
        texts(&c),
        strs(&[
            "</h|Games/pd2lcp/game|Diablo II|ProjectD2|Game.exe>",
            "-3dfx",
            "-skiptobnet"
        ])
    );
}

#[test]
fn launch_in_external_environment() {
    let s = State::init_raw_external();
    let c = launch_command(&s, &Settings::default(), true).unwrap();
    assert_eq!(parts(&c.program), strs(&["A:\\", "Diablo II", "ProjectD2", "Game.exe"]));
    assert!(c.wineprefix.is_none());
    assert!(c.current_dir.is_none());
    assert_eq!(texts(&c), strs(&["-3dfx", "-skiptobnet"]));
    assert!(matches!(
        launch_command(&s, &Settings::default(), false),
        Err(Error::InvalidPlatform)
    ));
}

#[test]
fn launch_directly_when_managed_externally() {
    let s = State::from_home("/h");
    let c = launch_command(&s, &Settings::default(), true).unwrap();
    assert_eq!(
        parts(&c.program),
        strs(&["/h", "Games/pd2lcp/game", "Diablo II", "ProjectD2", "Game.exe"])
    );
    assert!(c.wineprefix.is_none());
    assert_eq!(texts(&c), strs(&["-3dfx", "-skiptobnet"]));
}

#[test]
fn installers() {
    let installer = FsPath::new("/downloads/setup.exe");
    assert!(matches!(
        installer_command(&None, &installer, false),
        Err(Error::Pd2lcpNotInitialised)
    ));
    let c = installer_command(&Some(State::from_home("/h")), &installer, false).unwrap();
    assert_eq!(parts(&c.program), strs(&["/h", "Games/pd2lcp/wine", "bin", "wine"]));
    assert_eq!(parts(c.wineprefix.as_ref().unwrap()), strs(&["/h", "Games/pd2lcp/prefix"]));
    assert_eq!(texts(&c), strs(&["</downloads/setup.exe>"]));
    assert!(matches!(
        installer_command(&Some(State::init_raw_external()), &installer, false),
        Err(Error::InvalidPlatform)
    ));
    let c = installer_command(&Some(State::init_raw_external()), &installer, true).unwrap();
    assert_eq!(parts(&c.program), strs(&["/downloads/setup.exe"]));
    assert!(c.args.is_empty());
    assert!(c.wineprefix.is_none());
    let c = installer_command(&None, &installer, true).unwrap();
    assert_eq!(parts(&c.program), strs(&["/downloads/setup.exe"]));
    assert!(c.args.is_empty());
}

#[test]
fn registry_query() {
    assert!(matches!(registry_query_command(&None), Err(Error::Pd2lcpNotInitialised)));
    assert!(matches!(
        registry_query_command(&Some(State::init_raw_external())),
        Err(Error::InvalidPlatform)
    ));
    let c = registry_query_command(&Some(State::from_home("/h"))).unwrap();
    assert_eq!(
        texts(&c),
        strs(&[
            "reg",
            "query",
            "HKCU\\Software\\Blizzard Entertainment\\Diablo II",
            "/v",
            "InstallPath"
        ])
    );
}

#[test]
fn relocation_links_to_the_install_path() {
    let s = State::from_home("/h");
    let out = b"\r\nHKEY_CURRENT_USER\\Software\\Blizzard Entertainment\\Diablo II\r\n    InstallPath    REG_SZ    C:\\Games\\Diablo II\\\r\n\r\n";
    match plan_relocation(&s, &out.to_vec()).unwrap() {
        Relocation::Link { target, link } => {
            assert_eq!(
                parts(&target),
                strs(&["/h", "Games/pd2lcp/prefix", "dosdevices", "c:", "Games/Diablo II/"])
            );
            assert_eq!(parts(&link), strs(&["/h", "Games/pd2lcp/game", "Diablo II"]));
        }
        other => panic!("unexpected {other:?}"),
    }
}

#[test]
fn relocation_not_needed_when_in_place() {
    let s = State::from_home("/h");
    let out = b"    InstallPath    REG_SZ    A:\\Diablo II\\\r\n";
    assert!(matches!(plan_relocation(&s, &out.to_vec()), Ok(Relocation::InPlace)));
    assert!(install_path_in_place("A:\\Diablo II\\"));
    assert!(!install_path_in_place("C:\\Diablo II\\"));
}

#[test]
fn relocation_errors() {
    let s = State::from_home("/h");
    let missing = b"reg: Unable to find the specified registry key\r\n";
    assert!(matches!(
        plan_relocation(&s, &missing.to_vec()),
        Err(Error::D2InstalledIncorrectly)
    ));
    let short = b"    InstallPath    REG_SZ    C";
    assert!(matches!(
        plan_relocation(&s, &short.to_vec()),
        Err(Error::D2InstalledIncorrectly)
    ));
    let ext = State::init_raw_external();
    let out = b"    InstallPath    REG_SZ    D:\\D2\\";
    assert!(matches!(plan_relocation(&ext, &out.to_vec()), Err(Error::InvalidPlatform)));
}

#[test]
fn relocation_of_a_bare_drive() {
    let s = State::from_home("/h");
    let out = b"    InstallPath    REG_SZ    E:";
    match plan_relocation(&s, &out.to_vec()).unwrap() {
        Relocation::Link { target, .. } => assert_eq!(
            parts(&target),
            strs(&["/h", "Games/pd2lcp/prefix", "dosdevices", "e:", ""])
        ),
        other => panic!("unexpected {other:?}"),
    }
}

#[test]
fn wine_fetch() {
    let plan = wine_fetch_plan(&State::from_home("/h")).unwrap();
    assert_eq!(parts(&plan.install_dir), strs(&["/h", "Games/pd2lcp/wine"]));
    assert_eq!(
        parts(&plan.archive),
        strs(&["/h", "Games/pd2lcp/wine", "wine_tarball.tar.xz"])
    );
    assert_eq!(parts(&plan.untar.program), strs(&["tar"]));
    assert_eq!(
        texts(&plan.untar),
        strs(&[
            "-xf",
            "</h|Games/pd2lcp/wine|wine_tarball.tar.xz>",
            "-C",
            "</h|Games/pd2lcp/wine>"
        ])
    );
    assert_eq!(parts(&plan.extracted_dir), strs(&["/h", "Games/pd2lcp/wine", WINE_BUILD_DIR]));
    assert!(matches!(
        wine_fetch_plan(&State::init_raw_external()),
        Err(Error::InvalidPlatform)
    ));
}

#[test]
fn prefix_setup() {
    let plan = prefix_setup_plan(&State::from_home("/h")).unwrap();
    assert_eq!(parts(&plan.prefix), strs(&["/h", "Games/pd2lcp/prefix"]));
    assert_eq!(
        parts(&plan.boot.program),
        strs(&["/h", "Games/pd2lcp/wine", "bin", "wineboot"])
    );
    assert_eq!(texts(&plan.boot), strs(&["-i"]));
    assert_eq!(
        texts(&plan.set_win7),
        strs(&["reg", "add", "HKCU\\Software\\Wine", "/v", "Version", "/d", "win7", "/f"])
    );
    assert_eq!(parts(&plan.link_target), strs(&["/h", "Games/pd2lcp/game"]));
    assert_eq!(
        parts(&plan.link_path),
        strs(&["/h", "Games/pd2lcp/prefix", "dosdevices", "a:"])
    );
    assert_eq!(
        parts(&plan.stop_server.program),
        strs(&["/h", "Games/pd2lcp/wine", "bin", "wineserver"])
    );
    assert_eq!(texts(&plan.stop_server), strs(&["-k"]));
    assert!(matches!(
        prefix_setup_plan(&State::init_raw_external()),
        Err(Error::InvalidPlatform)
    ));
}

#[test]
fn exit_status() {
    assert!(status_result(true, Error::WineInitFailed).is_ok());
    assert!(matches!(
        status_result(false, Error::FailedToInstallD2),
        Err(Error::FailedToInstallD2)
    ));
}

fn take(a: PrefixAction) -> (PrefixRun, PrefixStep) {
    match a {
        PrefixAction::Perform { run, step } => (run, step),
        PrefixAction::Finish(r) => panic!("finished early: {r:?}"),
    }
}

#[test]
fn prefix_setup_runs_its_steps_in_order() {
    let (run, step) = take(PrefixRun::start(&State::from_home("/h")).unwrap());
    match step {
        PrefixStep::CreateDirAll(p) => assert_eq!(parts(&p), strs(&["/h", "Games/pd2lcp/prefix"])),
        other => panic!("unexpected {other:?}"),
    }
    let (run, step) = take(run.advance(Ok(true)));
    match step {
        PrefixStep::Run(c) => {
            assert_eq!(parts(&c.program), strs(&["/h", "Games/pd2lcp/wine", "bin", "wineboot"]))
        }
        other => panic!("unexpected {other:?}"),
    }
    let (run, step) = take(run.advance(Ok(true)));
    match step {
        PrefixStep::Run(c) => assert_eq!(texts(&c)[1], "add"),
        other => panic!("unexpected {other:?}"),
    }
    let (run, step) = take(run.advance(Ok(true)));
    match step {
        PrefixStep::Link { target, link } => {
            assert_eq!(parts(&target), strs(&["/h", "Games/pd2lcp/game"]));
            assert_eq!(parts(&link), strs(&["/h", "Games/pd2lcp/prefix", "dosdevices", "a:"]));
        }
        other => panic!("unexpected {other:?}"),
    }
    let (run, step) = take(run.advance(Ok(true)));
    match step {
        PrefixStep::Run(c) => assert_eq!(
            parts(&c.program),
            strs(&["/h", "Games/pd2lcp/wine", "bin", "wineserver"])
        ),
        other => panic!("unexpected {other:?}"),
    }
    assert!(matches!(run.advance(Ok(true)), PrefixAction::Finish(Ok(()))));
}

#[test]
fn prefix_setup_stops_at_the_first_failure() {
    let (run, _) = take(PrefixRun::start(&State::from_home("/h")).unwrap());
    assert!(matches!(
        run.advance(Ok(false)),
        PrefixAction::Finish(Err(Error::WineInitFailed))
    ));
    let (run, _) = take(PrefixRun::start(&State::from_home("/h")).unwrap());
    let (run, _) = take(run.advance(Ok(true)));
    assert!(matches!(
        run.advance(Err(Error::D2InstalledIncorrectly)),
        PrefixAction::Finish(Err(Error::D2InstalledIncorrectly))
    ));
    assert!(matches!(
        PrefixRun::start(&State::init_raw_external()),
        Err(Error::InvalidPlatform)
    ));
}
