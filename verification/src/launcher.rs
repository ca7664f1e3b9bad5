//! The launcher's screens and what each message the interface receives does
//! to them: the decisions of the launcher window, apart from drawing it and
//! running the work that it asks for.
use vstd::prelude::*;
use crate::error::{Error, error_message};
use crate::event::Event;
use crate::path::{FsPath, PathModel};
use crate::settings::{GraphicsMode, Settings, SettingsModel, default_settings};
use crate::state::{State, StateModel};

verus! {

/// The screen the launcher shows.
#[derive(Clone, Debug)]
pub enum GuiState {
    Init,
    InstallD2,
    InstallLOD,
    Main,
    Error(String),
    Settings,
}

/// What a screen holds.
pub enum GuiModel {
    Init,
    InstallD2,
    InstallLOD,
    Main,
    Error(Seq<char>),
    Settings,
}

impl View for GuiState {
    type V = GuiModel;

    open spec fn view(&self) -> GuiModel {
        match self {
            GuiState::Init => GuiModel::Init,
            GuiState::InstallD2 => GuiModel::InstallD2,
            GuiState::InstallLOD => GuiModel::InstallLOD,
            GuiState::Main => GuiModel::Main,
            GuiState::Error(e) => GuiModel::Error(e@),
            GuiState::Settings => GuiModel::Settings,
        }
    }
}

impl GuiState {
    /// A copy of this screen.
    pub fn duplicate(&self) -> (r: GuiState)
        ensures
            r@ == self@,
    {
        match self {
            GuiState::Init => GuiState::Init,
            GuiState::InstallD2 => GuiState::InstallD2,
            GuiState::InstallLOD => GuiState::InstallLOD,
            GuiState::Main => GuiState::Main,
            GuiState::Error(e) => GuiState::Error(e.clone()),
            GuiState::Settings => GuiState::Settings,
        }
    }
}

/// The outcome of a piece of work as the interface receives it: its value,
/// or the message of the error it ended with.
#[derive(Clone, Debug)]
pub enum Outcome<T> {
    Done(T),
    Failed(String),
}

/// The outcome of `r`.
pub fn outcome<T>(r: Result<T, Error>) -> (o: Outcome<T>)
    ensures
        match r {
            Ok(v) => o == Outcome::<T>::Done(v),
            Err(e) => o matches Outcome::Failed(m) && m@ == error_message(e),
        },
{
    match r {
        Ok(v) => Outcome::Done(v),
        Err(e) => Outcome::Failed(e.message()),
    }
}

/// What the interface receives: the user's input and the outcome of the
/// work the launcher asked for.
#[derive(Clone, Debug)]
pub enum Message {
    InstallerExit(Outcome<()>),
    LaunchTask(Outcome<()>),
    NotifyEvent(Event),
    InitGameState(Outcome<State>),
    InitButton,
    UpdateCheckTask(Outcome<bool>),
    UpdateTask(Outcome<()>),
    LaunchButton,
    SettingsButton,
    GraphicsMode(GraphicsMode),
    SoundCheckbox(bool),
    BnetCheckbox(bool),
    UpdatesCheckbox(bool),
    D2InstallerSelected(Option<FsPath>),
    LODInstallerSelected(Option<FsPath>),
    ApplyButton,
    SettingsSaved(Outcome<()>),
    ReturnButton,
    NextButton,
    SetupMarkerWritten(Outcome<()>),
    FilePickerButtonD2,
    FilePickerButtonLOD,
    ErrorReturnButton,
    ResetButton,
    WipeFinished(Outcome<()>),
}

/// The work the launcher asks for after a message.
#[derive(Debug)]
pub enum Action {
    Nothing,
    InitState,
    PickD2Installer,
    PickLodInstaller,
    InstallD2(FsPath),
    InstallLod(FsPath),
    CheckUpdate,
    InstallPd2,
    Launch,
    SaveSettings,
    WriteSetupMarker,
    WipeInstall,
}

/// What a piece of work holds.
pub enum ActionModel {
    Nothing,
    InitState,
    PickD2Installer,
    PickLodInstaller,
    InstallD2(PathModel),
    InstallLod(PathModel),
    CheckUpdate,
    InstallPd2,
    Launch,
    SaveSettings,
    WriteSetupMarker,
    WipeInstall,
}

impl View for Action {
    type V = ActionModel;

    open spec fn view(&self) -> ActionModel {
        match self {
            Action::Nothing => ActionModel::Nothing,
            Action::InitState => ActionModel::InitState,
            Action::PickD2Installer => ActionModel::PickD2Installer,
            Action::PickLodInstaller => ActionModel::PickLodInstaller,
            Action::InstallD2(p) => ActionModel::InstallD2(p@),
            Action::InstallLod(p) => ActionModel::InstallLod(p@),
            Action::CheckUpdate => ActionModel::CheckUpdate,
            Action::InstallPd2 => ActionModel::InstallPd2,
            Action::Launch => ActionModel::Launch,
            Action::SaveSettings => ActionModel::SaveSettings,
            Action::WriteSetupMarker => ActionModel::WriteSetupMarker,
            Action::WipeInstall => ActionModel::WipeInstall,
        }
    }
}

/// The launcher window: the game's state once it is set up, the screen
/// shown, the settings being edited, and what the screens display.
#[derive(Debug)]
pub struct Launcher {
    pub game_state: Option<State>,
    pub gui_state: GuiState,
    pub settings: Settings,
    pub launch_button_label: &'static str,
    pub init_screen_text: &'static str,
    pub error_prev_screen: Option<GuiState>,
    pub installing_progress: Option<(u32, u32)>,
    pub launch_button_disabled: bool,
    pub allow_next: bool,
    pub disable_get_started: bool,
}

/// What the launcher window holds.
pub struct LauncherModel {
    pub game_state: Option<StateModel>,
    pub gui_state: GuiModel,
    pub settings: SettingsModel,
    pub launch_button_label: Seq<char>,
    pub init_screen_text: Seq<char>,
    pub error_prev_screen: Option<GuiModel>,
    pub installing_progress: Option<(u32, u32)>,
    pub launch_button_disabled: bool,
    pub allow_next: bool,
    pub disable_get_started: bool,
}

impl View for Launcher {
    type V = LauncherModel;

    open spec fn view(&self) -> LauncherModel {
        LauncherModel {
            game_state: match self.game_state {
                Some(s) => Some(s@),
                None => None,
            },
            gui_state: self.gui_state@,
            settings: self.settings@,
            launch_button_label: self.launch_button_label@,
            init_screen_text: self.init_screen_text@,
            error_prev_screen: match self.error_prev_screen {
                Some(g) => Some(g@),
                None => None,
            },
            installing_progress: self.installing_progress,
            launch_button_disabled: self.launch_button_disabled,
            allow_next: self.allow_next,
            disable_get_started: self.disable_get_started,
        }
    }
}

/// The window after a failure with the message `e`: the error screen, which
/// remembers the screen it replaced.
pub open spec fn failed(l: LauncherModel, e: Seq<char>) -> LauncherModel {
    LauncherModel { error_prev_screen: Some(l.gui_state), gui_state: GuiModel::Error(e), ..l }
}

/// The window after a task whose outcome is `res`: `ok` where it succeeded,
/// the error screen where it failed.
pub open spec fn after_task<T>(l: LauncherModel, res: Outcome<T>, ok: LauncherModel) -> LauncherModel {
    match res {
        Outcome::Done(_) => ok,
        Outcome::Failed(e) => failed(l, e@),
    }
}

/// The window after the event `ev` was reported.
pub open spec fn after_event(l: LauncherModel, ev: Event) -> LauncherModel {
    match ev {
        Event::UpdatingPD2 { done, total } => LauncherModel {
            installing_progress: Some((done, total)),
            ..l
        },
        Event::DoneUpdating => LauncherModel { installing_progress: None, ..l },
        Event::Error(e) => failed(l, e@),
        Event::DownloadingWine => LauncherModel { init_screen_text: "Downloading Wine..."@, ..l },
        Event::InitPrefix => LauncherModel { init_screen_text: "Setting up the prefix..."@, ..l },
        Event::FinishedInitPrefix => LauncherModel { init_screen_text: "Done!"@, ..l },
        _ => l,
    }
}

/// The window after the install was reset: back at the start of the setup
/// (in an environment someone else manages, at the installation of the base
/// game), with default settings and nothing displayed of earlier work.
pub open spec fn reset_launcher(l: LauncherModel) -> LauncherModel {
    let (game_state, gui_state) = match l.game_state {
        Some(s) => boot_screen(s, false),
        None => (None, GuiModel::Init),
    };
    LauncherModel {
        game_state,
        gui_state,
        settings: default_settings(),
        launch_button_label: "Launch"@,
        init_screen_text: "PD2LCP is not set up"@,
        error_prev_screen: None,
        installing_progress: None,
        launch_button_disabled: false,
        allow_next: false,
        disable_get_started: false,
    }
}

/// The window after the message `msg`.
pub open spec fn next_launcher(l: LauncherModel, msg: Message) -> LauncherModel {
    match msg {
        Message::InstallerExit(res) => after_task(l, res, LauncherModel { allow_next: true, ..l }),
        Message::InitButton => LauncherModel { disable_get_started: true, ..l },
        Message::NextButton => match l.gui_state {
            GuiModel::InstallD2 => LauncherModel {
                allow_next: false,
                gui_state: GuiModel::InstallLOD,
                ..l
            },
            GuiModel::InstallLOD => LauncherModel { allow_next: false, gui_state: GuiModel::Main, ..l },
            _ => LauncherModel { allow_next: false, ..l },
        },
        Message::InitGameState(res) => match res {
            Outcome::Done(s) => LauncherModel { game_state: Some(s@), gui_state: GuiModel::InstallD2, ..l },
            Outcome::Failed(e) => failed(l, e@),
        },
        Message::SettingsButton => LauncherModel { gui_state: GuiModel::Settings, ..l },
        Message::ReturnButton => LauncherModel { gui_state: GuiModel::Main, ..l },
        Message::GraphicsMode(m) => LauncherModel {
            settings: SettingsModel { graphics_mode: m, ..l.settings },
            ..l
        },
        Message::SoundCheckbox(b) => LauncherModel {
            settings: SettingsModel { sndbkg: b, ..l.settings },
            ..l
        },
        Message::BnetCheckbox(b) => LauncherModel {
            settings: SettingsModel { skiptobnet: b, ..l.settings },
            ..l
        },
        Message::UpdatesCheckbox(b) => LauncherModel {
            settings: SettingsModel { no_updates: b, ..l.settings },
            ..l
        },
        Message::ApplyButton => LauncherModel { gui_state: GuiModel::Main, ..l },
        Message::SettingsSaved(res) => after_task(l, res, l),
        Message::SetupMarkerWritten(res) => match res {
            Outcome::Done(_) => l,
            Outcome::Failed(e) => LauncherModel { gui_state: GuiModel::Error(e@), ..l },
        },
        Message::ErrorReturnButton => LauncherModel {
            gui_state: l.error_prev_screen.unwrap(),
            error_prev_screen: None,
            ..l
        },
        Message::LaunchButton => LauncherModel { launch_button_disabled: true, ..l },
        Message::UpdateCheckTask(res) => match res {
            Outcome::Done(b) => if b {
                LauncherModel { launch_button_label: "Updating"@, ..l }
            } else {
                l
            },
            Outcome::Failed(e) => failed(l, e@),
        },
        Message::UpdateTask(res) => after_task(
            l,
            res,
            LauncherModel { launch_button_label: "Launch"@, installing_progress: None, ..l },
        ),
        Message::LaunchTask(res) => after_task(l, res, LauncherModel { launch_button_disabled: false, ..l }),
        Message::NotifyEvent(ev) => after_event(l, ev),
        Message::ResetButton => reset_launcher(l),
        Message::WipeFinished(res) => after_task(l, res, l),
        _ => l,
    }
}

/// The work asked for after the message `msg`.
pub open spec fn next_action(l: LauncherModel, msg: Message) -> ActionModel {
    match msg {
        Message::InitButton => ActionModel::InitState,
        Message::FilePickerButtonD2 => ActionModel::PickD2Installer,
        Message::FilePickerButtonLOD => ActionModel::PickLodInstaller,
        Message::D2InstallerSelected(p) => match p {
            Some(path) => ActionModel::InstallD2(path@),
            None => ActionModel::Nothing,
        },
        Message::LODInstallerSelected(p) => match p {
            Some(path) => ActionModel::InstallLod(path@),
            None => ActionModel::Nothing,
        },
        Message::NextButton => match l.gui_state {
            GuiModel::InstallLOD => ActionModel::WriteSetupMarker,
            _ => ActionModel::Nothing,
        },
        Message::ApplyButton => ActionModel::SaveSettings,
        Message::ResetButton => ActionModel::WipeInstall,
        Message::LaunchButton => if l.settings.no_updates {
            ActionModel::Launch
        } else {
            ActionModel::CheckUpdate
        },
        Message::UpdateCheckTask(res) => match res {
            Outcome::Done(b) => if b {
                ActionModel::InstallPd2
            } else {
                ActionModel::Launch
            },
            Outcome::Failed(_) => ActionModel::Nothing,
        },
        Message::UpdateTask(res) => match res {
            Outcome::Done(_) => ActionModel::Launch,
            Outcome::Failed(_) => ActionModel::Nothing,
        },
        _ => ActionModel::Nothing,
    }
}

/// Whether the launcher can take `msg`: the error screen can only be left
/// when it remembers the screen it replaced.
pub open spec fn accepts(l: LauncherModel, msg: Message) -> bool {
    msg is ErrorReturnButton ==> l.error_prev_screen is Some
}

/// The screen the launcher opens with.
pub open spec fn boot_screen(s: StateModel, setup_finished: bool) -> (Option<StateModel>, GuiModel) {
    if setup_finished {
        (Some(s), GuiModel::Main)
    } else if s.wine is None {
        (Some(s), GuiModel::InstallD2)
    } else {
        (None, GuiModel::Init)
    }
}

/// How the launcher starts.
#[derive(Debug, PartialEq, Eq, Structural)]
pub enum StartRoute {
    /// Open the window.
    Window,
    /// Start the game without opening the window.
    LaunchNow,
    /// Look for an update first: start the game without the window where
    /// there is none, open the window where there is one (to show the
    /// update) or where the look failed.
    CheckFirst,
}

/// How the launcher starts: only once the setup was finished does the
/// `-skiplauncher` flag skip the window, and with updates switched off it
/// starts the game at once.
pub open spec fn start_route_of(skip_launcher: bool, setup_finished: bool, no_updates: bool) -> StartRoute {
    if !(skip_launcher && setup_finished) {
        StartRoute::Window
    } else if no_updates {
        StartRoute::LaunchNow
    } else {
        StartRoute::CheckFirst
    }
}

/// How the launcher starts.
pub fn start_route(skip_launcher: bool, setup_finished: bool, no_updates: bool) -> (r: StartRoute)
    ensures
        r == start_route_of(skip_launcher, setup_finished, no_updates),
{
    if !(skip_launcher && setup_finished) {
        StartRoute::Window
    } else if no_updates {
        StartRoute::LaunchNow
    } else {
        StartRoute::CheckFirst
    }
}

/// Whether the window is to open after the update look of a start without
/// the window: unless the look found no update.
pub fn window_after_check(found: &Outcome<bool>) -> (r: bool)
    ensures
        r == match *found {
            Outcome::Done(b) => b,
            Outcome::Failed(_) => true,
        },
{
    match found {
        Outcome::Done(b) => *b,
        Outcome::Failed(_) => true,
    }
}

impl Launcher {
    /// The launcher as it opens: on the main screen once the first setup
    /// was finished; otherwise at the start of the setup (in an environment
    /// someone else manages, at the installation of the base game).
    pub fn boot(state: State, settings: Settings, setup_finished: bool) -> (r: Launcher)
        ensures
            (r@.game_state, r@.gui_state) == boot_screen(state@, setup_finished),
            r@.settings == settings@,
            r@.launch_button_label == "Launch"@,
            r@.init_screen_text == "PD2LCP is not set up"@,
            r@.error_prev_screen is None,
            r@.installing_progress is None,
            !r@.launch_button_disabled,
            !r@.allow_next,
            !r@.disable_get_started,
    {
        let external = state.wine_dir().is_err();
        let (game_state, gui_state) = if setup_finished {
            (Some(state), GuiState::Main)
        } else if external {
            (Some(state), GuiState::InstallD2)
        } else {
            (None, GuiState::Init)
        };
        Launcher {
            game_state,
            gui_state,
            settings,
            launch_button_label: "Launch",
            init_screen_text: "PD2LCP is not set up",
            error_prev_screen: None,
            installing_progress: None,
            launch_button_disabled: false,
            allow_next: false,
            disable_get_started: false,
        }
    }

    /// Starts the setup over after the install was wiped.
    fn reset(&mut self)
        ensures
            final(self)@ == reset_launcher(old(self)@),
    {
        let keep_state = match &self.game_state {
                    Some(s) => s.wine_dir().is_err(),
                    None => false,
                };
                if keep_state {
                    self.gui_state = GuiState::InstallD2;
                } else {
                    self.game_state = None;
                    self.gui_state = GuiState::Init;
                }
                self.settings = Settings::default();
                self.launch_button_label = "Launch";
                self.init_screen_text = "PD2LCP is not set up";
                self.error_prev_screen = None;
                self.installing_progress = None;
                self.launch_button_disabled = false;
                self.allow_next = false;
                self.disable_get_started = false;
    }

    /// Shows the error screen with the message `e`, remembering the screen
    /// it replaces.
    fn fail(&mut self, e: String)
        ensures
            final(self)@ == failed(old(self)@, e@),
    {
        self.error_prev_screen = Some(self.gui_state.duplicate());
        self.gui_state = GuiState::Error(e);
    }

    /// What the message `message` does to the window, and the work it asks
    /// for.
    pub fn update(&mut self, message: Message) -> (r: Action)
        requires
            accepts(old(self)@, message),
        ensures
            final(self)@ == next_launcher(old(self)@, message),
            r@ == next_action(old(self)@, message),
    {
        match message {
            Message::InstallerExit(res) => {
                match res {
                    Outcome::Done(_) => self.allow_next = true,
                    Outcome::Failed(e) => self.fail(e),
                }
                Action::Nothing
            },
            Message::InitButton => {
                self.disable_get_started = true;
                Action::InitState
            },
            Message::NextButton => {
                self.allow_next = false;
                match self.gui_state {
                    GuiState::InstallD2 => {
                        self.gui_state = GuiState::InstallLOD;
                        Action::Nothing
                    },
                    GuiState::InstallLOD => {
                        self.gui_state = GuiState::Main;
                        Action::WriteSetupMarker
                    },
                    _ => Action::Nothing,
                }
            },
            Message::FilePickerButtonD2 => Action::PickD2Installer,
            Message::FilePickerButtonLOD => Action::PickLodInstaller,
            Message::D2InstallerSelected(p) => match p {
                Some(path) => Action::InstallD2(path),
                None => Action::Nothing,
            },
            Message::LODInstallerSelected(p) => match p {
                Some(path) => Action::InstallLod(path),
                None => Action::Nothing,
            },
            Message::InitGameState(res) => {
                match res {
                    Outcome::Done(s) => {
                        self.game_state = Some(s);
                        self.gui_state = GuiState::InstallD2;
                    },
                    Outcome::Failed(e) => self.fail(e),
                }
                Action::Nothing
            },
            Message::SettingsButton => {
                self.gui_state = GuiState::Settings;
                Action::Nothing
            },
            Message::ReturnButton => {
                self.gui_state = GuiState::Main;
                Action::Nothing
            },
            Message::GraphicsMode(m) => {
                self.settings.graphics_mode = m;
                Action::Nothing
            },
            Message::SoundCheckbox(b) => {
                self.settings.sndbkg = b;
                Action::Nothing
            },
            Message::BnetCheckbox(b) => {
                self.settings.skiptobnet = b;
                Action::Nothing
            },
            Message::UpdatesCheckbox(b) => {
                self.settings.no_updates = b;
                Action::Nothing
            },
            Message::ApplyButton => {
                self.gui_state = GuiState::Main;
                Action::SaveSettings
            },
            Message::SettingsSaved(res) => {
                match res {
                    Outcome::Done(_) => {},
                    Outcome::Failed(e) => self.fail(e),
                }
                Action::Nothing
            },
            Message::SetupMarkerWritten(res) => {
                match res {
                    Outcome::Done(_) => {},
                    Outcome::Failed(e) => self.gui_state = GuiState::Error(e),
                }
                Action::Nothing
            },
            Message::ErrorReturnButton => {
                let prev = self.error_prev_screen.take();
                match prev {
                    Some(g) => self.gui_state = g,
                    None => {},
                }
                Action::Nothing
            },
            Message::LaunchButton => {
                self.launch_button_disabled = true;
                if self.settings.no_updates {
                    Action::Launch
                } else {
                    Action::CheckUpdate
                }
            },
            Message::UpdateCheckTask(res) => match res {
                Outcome::Done(b) => {
                    if b {
                        self.launch_button_label = "Updating";
                        Action::InstallPd2
                    } else {
                        Action::Launch
                    }
                },
                Outcome::Failed(e) => {
                    self.fail(e);
                    Action::Nothing
                },
            },
            Message::UpdateTask(res) => match res {
                Outcome::Done(_) => {
                    self.launch_button_label = "Launch";
                    self.installing_progress = None;
                    Action::Launch
                },
                Outcome::Failed(e) => {
                    self.fail(e);
                    Action::Nothing
                },
            },
            Message::LaunchTask(res) => {
                match res {
                    Outcome::Done(_) => self.launch_button_disabled = false,
                    Outcome::Failed(e) => self.fail(e),
                }
                Action::Nothing
            },
            Message::ResetButton => {
                self.reset();
                Action::WipeInstall
            },
            Message::WipeFinished(res) => {
                match res {
                    Outcome::Done(_) => {},
                    Outcome::Failed(e) => self.fail(e),
                }
                Action::Nothing
            },
            Message::NotifyEvent(ev) => {
                match ev {
                    Event::UpdatingPD2 { done, total } => {
                        self.installing_progress = Some((done, total));
                    },
                    Event::DoneUpdating => {
                        self.installing_progress = None;
                    },
                    Event::Error(e) => self.fail(e),
                    Event::DownloadingWine => self.init_screen_text = "Downloading Wine...",
                    Event::FinishedDownloadingWine => {},
                    Event::InitPrefix => self.init_screen_text = "Setting up the prefix...",
                    Event::FinishedInitPrefix => self.init_screen_text = "Done!",
                    Event::UpdatingFilter => {},
                    Event::DoneUpdatingFilter => {},
                }
                Action::Nothing
            },
        }
    }
}

/// Leaving the error screen goes back to the screen that the error
/// replaced, whichever failure it reported.
pub proof fn lemma_error_return(l: LauncherModel, failure: Message)
    requires
        match failure {
            Message::NotifyEvent(Event::Error(_)) => true,
            Message::InstallerExit(Outcome::Failed(_)) => true,
            Message::LaunchTask(Outcome::Failed(_)) => true,
            Message::InitGameState(Outcome::Failed(_)) => true,
            Message::UpdateCheckTask(Outcome::Failed(_)) => true,
            Message::UpdateTask(Outcome::Failed(_)) => true,
            Message::SettingsSaved(Outcome::Failed(_)) => true,
            _ => false,
        },
    ensures
        next_launcher(l, failure).gui_state is Error,
        next_launcher(l, failure).error_prev_screen is Some,
        next_launcher(next_launcher(l, failure), Message::ErrorReturnButton).gui_state == l.gui_state,
{
}

/// The setup goes from the welcome screen through the installation of the
/// base game and of its expansion to the main screen, and only the last step
/// records that the setup was finished.
pub proof fn lemma_setup_order(l: LauncherModel, s: State)
    requires
        l.gui_state == GuiModel::Init,
    ensures
        ({
            let a = next_launcher(l, Message::InitGameState(Outcome::Done(s)));
            let b = next_launcher(a, Message::NextButton);
            let c = next_launcher(b, Message::NextButton);
            &&& a.gui_state == GuiModel::InstallD2
            &&& a.game_state == Some(s@)
            &&& b.gui_state == GuiModel::InstallLOD
            &&& next_action(a, Message::NextButton) == ActionModel::Nothing
            &&& c.gui_state == GuiModel::Main
            &&& next_action(b, Message::NextButton) == ActionModel::WriteSetupMarker
        }),
{
}

/// Pressing the launch button disables it until the game has run; with
/// updates switched off it launches at once, otherwise it first looks for
/// an update, and installs one before launching where one is found.
pub proof fn lemma_launch_flow(l: LauncherModel)
    ensures
        next_launcher(l, Message::LaunchButton).launch_button_disabled,
        l.settings.no_updates ==> next_action(l, Message::LaunchButton) == ActionModel::Launch,
        !l.settings.no_updates ==> next_action(l, Message::LaunchButton) == ActionModel::CheckUpdate,
        next_action(l, Message::UpdateCheckTask(Outcome::Done(true))) == ActionModel::InstallPd2,
        next_action(l, Message::UpdateCheckTask(Outcome::Done(false))) == ActionModel::Launch,
        next_action(l, Message::UpdateTask(Outcome::Done(()))) == ActionModel::Launch,
        !next_launcher(l, Message::LaunchTask(Outcome::Done(()))).launch_button_disabled,
{
}

/// Resetting the install wipes it and starts the setup over: with default
/// settings, on the welcome screen where the launcher manages its own Wine.
pub proof fn lemma_reset_starts_over(l: LauncherModel, s: State)
    requires
        l.game_state == Some(s@),
        s@.wine is Some,
    ensures
        next_action(l, Message::ResetButton) == ActionModel::WipeInstall,
        next_launcher(l, Message::ResetButton).gui_state == GuiModel::Init,
        next_launcher(l, Message::ResetButton).game_state is None,
        next_launcher(l, Message::ResetButton).settings == default_settings(),
        !next_launcher(l, Message::ResetButton).disable_get_started,
{
}

/// Editing a setting changes that setting only: the screen and the rest of
/// the window stay as they were.
pub proof fn lemma_settings_edits_are_local(l: LauncherModel, m: GraphicsMode, b: bool)
    ensures
        next_launcher(l, Message::GraphicsMode(m)).gui_state == l.gui_state,
        next_launcher(l, Message::GraphicsMode(m)).settings == (SettingsModel { graphics_mode: m, ..l.settings }),
        next_launcher(l, Message::SoundCheckbox(b)).settings == (SettingsModel { sndbkg: b, ..l.settings }),
        next_launcher(l, Message::BnetCheckbox(b)).settings == (SettingsModel { skiptobnet: b, ..l.settings }),
        next_launcher(l, Message::UpdatesCheckbox(b)).settings == (SettingsModel { no_updates: b, ..l.settings }),
        next_launcher(l, Message::SoundCheckbox(b)).gui_state == l.gui_state,
{
}

/// Without the `-skiplauncher` flag, or before the setup was finished, the
/// window always opens; with the flag after the setup the window is skipped,
/// the game starting at once exactly when updates are switched off.
pub proof fn lemma_window_unless_skipped(skip_launcher: bool, setup_finished: bool, no_updates: bool)
    ensures
        !skip_launcher ==> start_route_of(skip_launcher, setup_finished, no_updates)
            == StartRoute::Window,
        !setup_finished ==> start_route_of(skip_launcher, setup_finished, no_updates)
            == StartRoute::Window,
        skip_launcher && setup_finished ==> start_route_of(skip_launcher, setup_finished, no_updates)
            != StartRoute::Window,
        skip_launcher && setup_finished ==> (start_route_of(skip_launcher, setup_finished, no_updates)
            == StartRoute::LaunchNow <==> no_updates),
{
}

} // verus!
