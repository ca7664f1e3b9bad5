//! Where the launcher keeps its files, and how the game environment is run.
use vstd::prelude::*;
use crate::error::Error;
use crate::event::Event;
use crate::filter::{Filter, FilterModel, filename_of, local_group};
use crate::path::{FsPath, PathModel};

verus! {

/// Where the launcher keeps its own files, the game, and its Wine setup.
#[derive(Clone, Debug)]
pub struct State {
    base: FsPath,
    game_files: FsPath,
    env: Environment,
}

/// How the game is run: through a Wine installation the launcher manages
/// itself, or directly in a Windows environment that someone else manages.
#[derive(Clone, Debug)]
pub enum Environment {
    Wine { wine_binaries: FsPath, wine_prefix: FsPath },
    External,
}

/// What a state holds: its base directory, its game directory, and for a
/// Wine environment the directory of the Wine binaries and the prefix.
pub struct StateModel {
    pub base: PathModel,
    pub game_files: PathModel,
    pub wine: Option<(PathModel, PathModel)>,
}

/// What an environment holds.
pub open spec fn env_view(e: Environment) -> Option<(PathModel, PathModel)> {
    match e {
        Environment::Wine { wine_binaries, wine_prefix } => Some((wine_binaries@, wine_prefix@)),
        Environment::External => None,
    }
}

impl View for State {
    type V = StateModel;

    closed spec fn view(&self) -> StateModel {
        StateModel { base: self.base@, game_files: self.game_files@, wine: env_view(self.env) }
    }
}

/// The layout the launcher uses under the home directory `home`.
pub open spec fn home_layout(home: Seq<char>) -> StateModel {
    StateModel {
        base: seq![home, "Games/pd2lcp"@],
        game_files: seq![home, "Games/pd2lcp/game"@],
        wine: Some((seq![home, "Games/pd2lcp/wine"@], seq![home, "Games/pd2lcp/prefix"@])),
    }
}

/// The root of the drive that an externally managed environment provides.
pub const EXTERNAL_ROOT: &'static str = "A:\\";

/// The layout the launcher uses in an externally managed environment: all of
/// it at the root of drive A.
pub open spec fn external_layout() -> StateModel {
    StateModel { base: seq![EXTERNAL_ROOT@], game_files: seq![EXTERNAL_ROOT@], wine: None }
}

/// The directory the base game is installed in.
pub open spec fn d2_dir_of(s: StateModel) -> PathModel {
    s.game_files.push("Diablo II"@)
}

/// The directory the Project Diablo 2 files are kept in.
pub open spec fn pd2_dir_of(s: StateModel) -> PathModel {
    d2_dir_of(s).push("ProjectD2"@)
}

/// The directory of the filters the user keeps by hand.
pub open spec fn filter_dir_local_of(s: StateModel) -> PathModel {
    pd2_dir_of(s).push("filters/local"@)
}

/// The directory of the downloaded filters.
pub open spec fn filter_dir_online_of(s: StateModel) -> PathModel {
    pd2_dir_of(s).push("filters/online"@)
}

/// The file the game reads its active loot filter from.
pub open spec fn loot_filter_of(s: StateModel) -> PathModel {
    pd2_dir_of(s).push("loot.filter"@)
}

/// The file that `filter` is kept in: a local filter under its own name in
/// the local directory, any other under its file name in the online
/// directory.
pub open spec fn filter_file_of(s: StateModel, f: FilterModel) -> PathModel {
    if f.grouping == local_group() {
        filter_dir_local_of(s).push(f.name)
    } else {
        filter_dir_online_of(s).push(filename_of(f))
    }
}

/// The current user's home directory, as `dirs::home_dir` reports it; a
/// path that is not valid Unicode is converted lossily (with replacement
/// characters). Nothing is stated of the result, which depends on the
/// environment.
#[verifier::external_body]
fn home_dir() -> (r: Option<String>) {
    match dirs::home_dir() {
        Some(p) => Some(p.to_string_lossy().into_owned()),
        None => None,
    }
}

impl State {
    /// The state of the launcher under the home directory `home`.
    pub fn from_home(home: &str) -> (r: State)
        ensures
            r@ == home_layout(home@),
    {
        let root = FsPath::new(home);
        assert(seq![home@].push("Games/pd2lcp"@) =~= seq![home@, "Games/pd2lcp"@]);
        assert(seq![home@].push("Games/pd2lcp/game"@) =~= seq![home@, "Games/pd2lcp/game"@]);
        assert(seq![home@].push("Games/pd2lcp/wine"@) =~= seq![home@, "Games/pd2lcp/wine"@]);
        assert(seq![home@].push("Games/pd2lcp/prefix"@) =~= seq![home@, "Games/pd2lcp/prefix"@]);
        State {
            base: root.join("Games/pd2lcp"),
            game_files: root.join("Games/pd2lcp/game"),
            env: Environment::Wine {
                wine_binaries: root.join("Games/pd2lcp/wine"),
                wine_prefix: root.join("Games/pd2lcp/prefix"),
            },
        }
    }

    /// The state of the launcher under the home directory `home`, or
    /// `NoHomeDir` where there is none.
    pub fn from_home_dir(home: Option<&str>) -> (r: Result<State, Error>)
        ensures
            match home {
                Some(h) => r matches Ok(s) && s@ == home_layout(h@),
                None => r matches Err(Error::NoHomeDir),
            },
    {
        match home {
            Some(h) => Ok(State::from_home(h)),
            None => Err(Error::NoHomeDir),
        }
    }

    /// The launcher's state where it was set up: `Pd2lcpNotInitialised` where
    /// there is none, which every piece of work on the launcher's files
    /// answers before it starts.
    pub fn require(state: Option<State>) -> (r: Result<State, Error>)
        ensures
            match state {
                Some(s) => r matches Ok(t) && t@ == s@,
                None => r matches Err(Error::Pd2lcpNotInitialised),
            },
    {
        match state {
            Some(s) => Ok(s),
            None => Err(Error::Pd2lcpNotInitialised),
        }
    }

    /// The launcher's state on this platform: where the platform's Windows
    /// environment is managed by someone else (`managed_externally`), the
    /// state rooted at `A:\\` without a Wine setup, which never fails;
    /// otherwise the state under the current user's home directory, or
    /// `NoHomeDir` where the platform reports none.
    pub fn init_raw(managed_externally: bool) -> (r: Result<State, Error>)
        ensures
            managed_externally ==> (r matches Ok(s) && s@ == external_layout()),
            !managed_externally ==> match r {
                Ok(s) => exists|home: Seq<char>| s@ == home_layout(home),
                Err(e) => e is NoHomeDir,
            },
    {
        if managed_externally {
            return Ok(State::init_raw_external());
        }
        let home = home_dir();
        match &home {
            Some(h) => State::from_home_dir(Some(h.as_str())),
            None => State::from_home_dir(None),
        }
    }

    /// The state of the launcher in an environment that someone else
    /// manages.
    pub fn init_raw_external() -> (r: State)
        ensures
            r@ == external_layout(),
    {
        let root = FsPath::new(EXTERNAL_ROOT);
        State { base: root.duplicate(), game_files: root, env: Environment::External }
    }

    /// The directory the launcher keeps its own files in.
    pub fn base(&self) -> (r: &FsPath)
        ensures
            r@ == self@.base,
    {
        &self.base
    }

    /// The directory the game is kept in.
    pub fn game_dir(&self) -> (r: &FsPath)
        ensures
            r@ == self@.game_files,
    {
        &self.game_files
    }

    /// The directory the base game is installed in.
    pub fn d2_dir(&self) -> (r: FsPath)
        ensures
            r@ == d2_dir_of(self@),
    {
        self.game_files.join("Diablo II")
    }

    /// The directory the Project Diablo 2 files are kept in.
    pub fn pd2_dir(&self) -> (r: FsPath)
        ensures
            r@ == pd2_dir_of(self@),
    {
        self.d2_dir().join("ProjectD2")
    }

    /// The directory of the filters the user keeps by hand.
    pub fn filter_dir_local(&self) -> (r: FsPath)
        ensures
            r@ == filter_dir_local_of(self@),
    {
        self.pd2_dir().join("filters/local")
    }

    /// The directory of the downloaded filters.
    pub fn filter_dir_online(&self) -> (r: FsPath)
        ensures
            r@ == filter_dir_online_of(self@),
    {
        self.pd2_dir().join("filters/online")
    }

    /// The directory of the Wine binaries; `InvalidPlatform` where the
    /// environment is managed by someone else.
    pub fn wine_dir(&self) -> (r: Result<&FsPath, Error>)
        ensures
            match self@.wine {
                Some((bins, _)) => r matches Ok(p) && p@ == bins,
                None => r matches Err(Error::InvalidPlatform),
            },
    {
        match &self.env {
            Environment::Wine { wine_binaries, .. } => Ok(wine_binaries),
            Environment::External => Err(Error::InvalidPlatform),
        }
    }

    /// The Wine prefix; `InvalidPlatform` where the environment is managed
    /// by someone else.
    pub fn wine_prefix(&self) -> (r: Result<&FsPath, Error>)
        ensures
            match self@.wine {
                Some((_, prefix)) => r matches Ok(p) && p@ == prefix,
                None => r matches Err(Error::InvalidPlatform),
            },
    {
        match &self.env {
            Environment::Wine { wine_prefix, .. } => Ok(wine_prefix),
            Environment::External => Err(Error::InvalidPlatform),
        }
    }

    /// The Wine program `exe`.
    pub fn wine_exe(&self, exe: &str) -> (r: Result<FsPath, Error>)
        ensures
            match self@.wine {
                Some((bins, _)) => r matches Ok(p) && p@ == bins.push("bin"@).push(exe@),
                None => r matches Err(Error::InvalidPlatform),
            },
    {
        match self.wine_dir() {
            Ok(p) => Ok(p.join("bin").join(exe)),
            Err(e) => Err(e),
        }
    }

    /// The place in the Wine prefix that stands for the DOS device
    /// `dosdevice`.
    pub fn wine_dosdevice(&self, dosdevice: &str) -> (r: Result<FsPath, Error>)
        ensures
            match self@.wine {
                Some((_, prefix)) => r matches Ok(p) && p@ == prefix.push("dosdevices"@).push(
                    dosdevice@,
                ),
                None => r matches Err(Error::InvalidPlatform),
            },
    {
        match self.wine_prefix() {
            Ok(p) => Ok(p.join("dosdevices").join(dosdevice)),
            Err(e) => Err(e),
        }
    }

    /// The file the settings are kept in.
    pub fn settings_path(&self) -> (r: FsPath)
        ensures
            r@ == self@.base.push("settings.toml"@),
    {
        self.base.join("settings.toml")
    }

    /// The file whose presence records that the first setup was finished.
    pub fn setup_marker_path(&self) -> (r: FsPath)
        ensures
            r@ == self@.base.push("setup_finished"@),
    {
        self.base.join("setup_finished")
    }

    /// The file that records the game files installed last.
    pub fn local_metadata_path(&self) -> (r: FsPath)
        ensures
            r@ == pd2_dir_of(self@).push("local_metadata.json"@),
    {
        self.pd2_dir().join("local_metadata.json")
    }

    /// The place of the game file `name`.
    pub fn game_file_path(&self, name: &str) -> (r: FsPath)
        ensures
            r@ == pd2_dir_of(self@).push(name@),
    {
        self.pd2_dir().join(name)
    }

    /// The file the game reads its active loot filter from.
    pub fn loot_filter_path(&self) -> (r: FsPath)
        ensures
            r@ == loot_filter_of(self@),
    {
        self.pd2_dir().join("loot.filter")
    }

    /// The file a downloaded `filter` is kept in.
    pub fn online_filter_path(&self, filter: &Filter) -> (r: FsPath)
        ensures
            r@ == filter_dir_online_of(self@).push(filename_of(filter@)),
    {
        let name = filter.get_filename();
        self.filter_dir_online().join(name.as_str())
    }

    /// The file `filter` is kept in, local or downloaded.
    pub fn filter_file_path(&self, filter: &Filter) -> (r: FsPath)
        ensures
            r@ == filter_file_of(self@, filter@),
    {
        if filter.grouping.is_local() {
            self.filter_dir_local().join(filter.name.as_str())
        } else {
            self.online_filter_path(filter)
        }
    }

    /// Where activating `filter` copies it from, and whether a newer version
    /// is to be looked for first: a local filter is copied as it is, a
    /// downloaded one after its group was checked for an update.
    pub fn activation_source(&self, filter: &Filter) -> (r: (FsPath, bool))
        ensures
            r.0@ == filter_file_of(self@, filter@),
            r.1 == (filter@.grouping != local_group()),
    {
        let local = filter.grouping.is_local();
        (self.filter_file_path(filter), !local)
    }
}

/// In an environment someone else manages, the launcher's state is rooted
/// at `A:\\` with no Wine setup, and the base game lies at `A:\\Diablo II`.
pub proof fn lemma_external_game_at_drive_a()
    ensures
        external_layout().wine is None,
        external_layout().base == external_layout().game_files,
        d2_dir_of(external_layout()) == seq![EXTERNAL_ROOT@, "Diablo II"@],
{
    assert(d2_dir_of(external_layout()) =~= seq![EXTERNAL_ROOT@, "Diablo II"@]);
}

/// Every directory of a launcher set up under a home directory lies inside
/// the home directory, and the game's directories nest: the Project
/// Diablo 2 directory, the loot filter and both filter directories lie
/// inside the base game's directory.
pub proof fn lemma_home_layout_nests(home: Seq<char>)
    ensures
        home_layout(home).base[0] == home,
        home_layout(home).game_files[0] == home,
        d2_dir_of(home_layout(home))[0] == home,
        d2_dir_of(home_layout(home)).is_prefix_of(pd2_dir_of(home_layout(home))),
        d2_dir_of(home_layout(home)).is_prefix_of(loot_filter_of(home_layout(home))),
        pd2_dir_of(home_layout(home)).is_prefix_of(filter_dir_local_of(home_layout(home))),
        pd2_dir_of(home_layout(home)).is_prefix_of(filter_dir_online_of(home_layout(home))),
{
    let s = home_layout(home);
    assert(d2_dir_of(s).is_prefix_of(pd2_dir_of(s)));
    assert(pd2_dir_of(s).is_prefix_of(loot_filter_of(s)));
    assert(d2_dir_of(s).is_prefix_of(loot_filter_of(s)));
    assert(pd2_dir_of(s).is_prefix_of(filter_dir_local_of(s)));
    assert(pd2_dir_of(s).is_prefix_of(filter_dir_online_of(s)));
}

/// A downloaded filter is kept where downloading writes it: activating and
/// deleting it use the file in the online directory named by its file name;
/// a local filter is kept under its own name in the local directory.
pub proof fn lemma_filter_files_agree(s: StateModel, f: FilterModel)
    ensures
        f.grouping != local_group() ==> filter_file_of(s, f) == filter_dir_online_of(s).push(
            filename_of(f),
        ),
        f.grouping == local_group() ==> filter_file_of(s, f) == filter_dir_local_of(s).push(f.name),
        pd2_dir_of(s).is_prefix_of(filter_file_of(s, f)),
{
    assert(pd2_dir_of(s).is_prefix_of(filter_file_of(s, f)));
}

/// One step of setting the launcher up from scratch.
#[derive(Debug)]
pub enum SetupStep {
    /// Remove the directory, with its contents, where it exists.
    RemoveDirIfPresent(FsPath),
    /// Create the directory and its parents.
    CreateDirAll(FsPath),
    /// Report the event.
    Report(Event),
    /// Download and unpack Wine.
    FetchWine,
    /// Create and configure the Wine prefix.
    CreatePrefix,
}

/// What a setup step holds.
pub enum StepModel {
    RemoveDirIfPresent(PathModel),
    CreateDirAll(PathModel),
    Report(Event),
    FetchWine,
    CreatePrefix,
}

/// What a setup step holds.
pub open spec fn step_view(s: SetupStep) -> StepModel {
    match s {
        SetupStep::RemoveDirIfPresent(p) => StepModel::RemoveDirIfPresent(p@),
        SetupStep::CreateDirAll(p) => StepModel::CreateDirAll(p@),
        SetupStep::Report(e) => StepModel::Report(e),
        SetupStep::FetchWine => StepModel::FetchWine,
        SetupStep::CreatePrefix => StepModel::CreatePrefix,
    }
}

/// How the launcher is set up from scratch: a fresh, empty game directory;
/// the old Wine installation removed and a new one fetched; the old prefix
/// removed and a new one created; each of the two long stages announced
/// before and after.
pub open spec fn setup_plan(game: PathModel, bins: PathModel, prefix: PathModel) -> Seq<StepModel> {
    seq![
        StepModel::RemoveDirIfPresent(game),
        StepModel::CreateDirAll(game),
        StepModel::RemoveDirIfPresent(bins),
        StepModel::Report(Event::DownloadingWine),
        StepModel::FetchWine,
        StepModel::Report(Event::FinishedDownloadingWine),
        StepModel::RemoveDirIfPresent(prefix),
        StepModel::Report(Event::InitPrefix),
        StepModel::CreatePrefix,
        StepModel::Report(Event::FinishedInitPrefix),
    ]
}

impl State {
    /// The steps that set the launcher up from scratch; `InvalidPlatform`
    /// where the environment is managed by someone else.
    pub fn setup_steps(&self) -> (r: Result<Vec<SetupStep>, Error>)
        ensures
            match self@.wine {
                Some((bins, prefix)) => r matches Ok(steps) && steps@.map_values(
                    |st: SetupStep| step_view(st),
                ) == setup_plan(self@.game_files, bins, prefix),
                None => r matches Err(Error::InvalidPlatform),
            },
    {
        let bins = match self.wine_dir() {
            Ok(p) => p.duplicate(),
            Err(e) => return Err(e),
        };
        let prefix = match self.wine_prefix() {
            Ok(p) => p.duplicate(),
            Err(e) => return Err(e),
        };
        let mut steps: Vec<SetupStep> = Vec::new();
        steps.push(SetupStep::RemoveDirIfPresent(self.game_files.duplicate()));
        steps.push(SetupStep::CreateDirAll(self.game_files.duplicate()));
        steps.push(SetupStep::RemoveDirIfPresent(bins));
        steps.push(SetupStep::Report(Event::DownloadingWine));
        steps.push(SetupStep::FetchWine);
        steps.push(SetupStep::Report(Event::FinishedDownloadingWine));
        steps.push(SetupStep::RemoveDirIfPresent(prefix));
        steps.push(SetupStep::Report(Event::InitPrefix));
        steps.push(SetupStep::CreatePrefix);
        steps.push(SetupStep::Report(Event::FinishedInitPrefix));
        assert(steps@.map_values(|st: SetupStep| step_view(st)) =~= setup_plan(
            self@.game_files,
            self@.wine.unwrap().0,
            self@.wine.unwrap().1,
        ));
        Ok(steps)
    }
}

} // verus!
