use pd2lcp::error::Error;
use pd2lcp::event::Event;
use pd2lcp::launcher::{
    Action, GuiState, Launcher, Message, Outcome, StartRoute, outcome, start_route,
    window_after_check,
};
use pd2lcp::path::FsPath;
use pd2lcp::settings::{GraphicsMode, Settings};
use pd2lcp::state::State;

fn fresh() -> Launcher {
    Launcher::boot(State::from_home("/h"), Settings::default(), false)
}

#[test]
fn boot_screens() {
    let l = fresh();
    assert!(matches!(l.gui_state, GuiState::Init));
    assert!(l.game_state.is_none());
    assert_eq!(l.launch_button_label, "Launch");
    assert_eq!(l.init_screen_text, "PD2LCP is not set up");
    let l = Launcher::boot(State::from_home("/h"), Settings::default(), true);
    assert!(matches!(l.gui_state, GuiState::Main));
    assert!(l.game_state.is_some());
    let l = Launcher::boot(State::init_raw_external(), Settings::default(), false);
    assert!(matches!(l.gui_state, GuiState::InstallD2));
    assert!(l.game_state.is_some());
}

#[test]
fn setup_wizard() {
    let mut l = fresh();
    assert!(matches!(l.update(Message::InitButton), Action::InitState));
    assert!(l.disable_get_started);
    assert!(matches!(l.update(Message::NotifyEvent(Event::DownloadingWine)), Action::Nothing));
    assert_eq!(l.init_screen_text, "Downloading Wine...");
    l.update(Message::NotifyEvent(Event::InitPrefix));
    assert_eq!(l.init_screen_text, "Setting up the prefix...");
    l.update(Message::NotifyEvent(Event::FinishedInitPrefix));
    assert_eq!(l.init_screen_text, "Done!");
    l.update(Message::InitGameState(Outcome::Done(State::from_home("/h"))));
    assert!(matches!(l.gui_state, GuiState::InstallD2));
    assert!(matches!(l.update(Message::FilePickerButtonD2), Action::PickD2Installer));
    assert!(matches!(l.update(Message::D2InstallerSelected(None)), Action::Nothing));
    match l.update(Message::D2InstallerSelected(Some(FsPath::new("/d/setup.exe")))) {
        Action::InstallD2(p) => assert_eq!(p.parts()[0], "/d/setup.exe"),
        other => panic!("unexpected {other:?}"),
    }
    l.update(Message::InstallerExit(Outcome::Done(())));
    assert!(l.allow_next);
    assert!(matches!(l.update(Message::NextButton), Action::Nothing));
    assert!(!l.allow_next);
    assert!(matches!(l.gui_state, GuiState::InstallLOD));
    assert!(matches!(l.update(Message::FilePickerButtonLOD), Action::PickLodInstaller));
    assert!(matches!(
        l.update(Message::LODInstallerSelected(Some(FsPath::new("/d/lod.exe")))),
        Action::InstallLod(_)
    ));
    assert!(matches!(l.update(Message::NextButton), Action::WriteSetupMarker));
    assert!(matches!(l.gui_state, GuiState::Main));
}

#[test]
fn launch_with_update() {
    let mut l = Launcher::boot(State::from_home("/h"), Settings::default(), true);
    assert!(matches!(l.update(Message::LaunchButton), Action::CheckUpdate));
    assert!(l.launch_button_disabled);
    assert!(matches!(l.update(Message::UpdateCheckTask(Outcome::Done(true))), Action::InstallPd2));
    assert_eq!(l.launch_button_label, "Updating");
    l.update(Message::NotifyEvent(Event::UpdatingPD2 { done: 2, total: 9 }));
    assert_eq!(l.installing_progress, Some((2, 9)));
    assert!(matches!(l.update(Message::UpdateTask(Outcome::Done(()))), Action::Launch));
    assert_eq!(l.launch_button_label, "Launch");
    assert_eq!(l.installing_progress, None);
    l.update(Message::LaunchTask(Outcome::Done(())));
    assert!(!l.launch_button_disabled);
}

#[test]
fn launch_without_updates() {
    let mut l = Launcher::boot(State::from_home("/h"), Settings::default(), true);
    l.update(Message::UpdatesCheckbox(true));
    assert!(l.settings.no_updates);
    assert!(matches!(l.update(Message::LaunchButton), Action::Launch));
    let mut m = Launcher::boot(State::from_home("/h"), Settings::default(), true);
    assert!(matches!(m.update(Message::UpdateCheckTask(Outcome::Done(false))), Action::Launch));
}

#[test]
fn errors_return_to_the_previous_screen() {
    let mut l = Launcher::boot(State::from_home("/h"), Settings::default(), true);
    l.update(Message::SettingsButton);
    l.update(Message::NotifyEvent(Event::Error("boom".to_string())));
    assert!(matches!(&l.gui_state, GuiState::Error(e) if e == "boom"));
    l.update(Message::ErrorReturnButton);
    assert!(matches!(l.gui_state, GuiState::Settings));
    assert!(l.error_prev_screen.is_none());
    l.update(Message::LaunchTask(outcome::<()>(Err(Error::WineInitFailed))));
    assert!(matches!(&l.gui_state, GuiState::Error(e) if e == "Wine initialisation failed"));
    l.update(Message::ErrorReturnButton);
    assert!(matches!(l.gui_state, GuiState::Settings));
}

#[test]
fn settings_screen() {
    let mut l = Launcher::boot(State::from_home("/h"), Settings::default(), true);
    l.update(Message::SettingsButton);
    assert!(matches!(l.gui_state, GuiState::Settings));
    l.update(Message::GraphicsMode(GraphicsMode::DDRAW));
    l.update(Message::SoundCheckbox(true));
    l.update(Message::BnetCheckbox(false));
    assert_eq!(l.settings.compose_args(), vec!["-ddraw", "-sndbkg"]);
    assert!(matches!(l.gui_state, GuiState::Settings));
    assert!(matches!(l.update(Message::ApplyButton), Action::SaveSettings));
    assert!(matches!(l.gui_state, GuiState::Main));
    l.update(Message::SettingsSaved(Outcome::Failed("disk full".to_string())));
    assert!(matches!(&l.gui_state, GuiState::Error(e) if e == "disk full"));
    l.update(Message::ErrorReturnButton);
    l.update(Message::ReturnButton);
    assert!(matches!(l.gui_state, GuiState::Main));
}

#[test]
fn setup_marker_failure_shows_error() {
    let mut l = Launcher::boot(State::from_home("/h"), Settings::default(), true);
    l.update(Message::SetupMarkerWritten(Outcome::Failed("denied".to_string())));
    assert!(matches!(&l.gui_state, GuiState::Error(e) if e == "denied"));
    assert!(l.error_prev_screen.is_none());
}

#[test]
fn reset_wipes_and_starts_the_setup_over() {
    let mut settings = Settings::default();
    settings.no_updates = true;
    let mut l = Launcher::boot(State::from_home("/h"), settings, true);
    l.update(Message::SettingsButton);
    assert!(matches!(l.update(Message::ResetButton), Action::WipeInstall));
    assert!(matches!(l.gui_state, GuiState::Init));
    assert!(l.game_state.is_none());
    assert!(!l.settings.no_updates);
    assert_eq!(l.init_screen_text, "PD2LCP is not set up");
    assert!(!l.disable_get_started);
    assert!(matches!(l.update(Message::WipeFinished(Outcome::Done(()))), Action::Nothing));
    assert!(matches!(l.gui_state, GuiState::Init));
    l.update(Message::WipeFinished(Outcome::Failed("busy".to_string())));
    assert!(matches!(&l.gui_state, GuiState::Error(e) if e == "busy"));
    l.update(Message::ErrorReturnButton);
    assert!(matches!(l.gui_state, GuiState::Init));
}

#[test]
fn reset_in_an_external_environment_returns_to_the_base_game_install() {
    let mut l = Launcher::boot(State::init_raw_external(), Settings::default(), true);
    assert!(matches!(l.update(Message::ResetButton), Action::WipeInstall));
    assert!(matches!(l.gui_state, GuiState::InstallD2));
    assert!(l.game_state.is_some());
}

#[test]
fn start_routes() {
    assert_eq!(start_route(false, true, false), StartRoute::Window);
    assert_eq!(start_route(true, false, true), StartRoute::Window);
    assert_eq!(start_route(true, true, true), StartRoute::LaunchNow);
    assert_eq!(start_route(true, true, false), StartRoute::CheckFirst);
    assert!(window_after_check(&Outcome::Done(true)));
    assert!(!window_after_check(&Outcome::Done(false)));
    assert!(window_after_check(&Outcome::Failed("offline".to_string())));
}
