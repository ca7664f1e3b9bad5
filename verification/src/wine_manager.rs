//! Setting up the launcher's own Wine installation and prefix.
use vstd::prelude::*;
use crate::command::{ArgModel, CommandArg, CommandModel, CommandSpec, text_args, texts};
use crate::error::Error;
use crate::path::{FsPath, PathModel};
use crate::state::{State, d2_dir_of};
use crate::text::owned;

verus! {

/// Where the Wine build is downloaded from.
pub const WINE_URL: &'static str =
    "https://github.com/Kron4ek/Wine-Builds/releases/download/11.14/wine-11.14-staging-tkg-amd64.tar.xz";

/// The directory the Wine archive unpacks into.
pub const WINE_BUILD_DIR: &'static str = "wine-11.14-staging-tkg-amd64";

/// The name the Wine archive is saved under.
pub const WINE_ARCHIVE_NAME: &'static str = "wine_tarball.tar.xz";

/// How the Wine build is installed: the directory it goes into, the file the
/// archive is saved as, the command that unpacks it there, and the directory
/// whose entries are then moved up into the installation directory.
#[derive(Debug)]
pub struct WineFetch {
    pub install_dir: FsPath,
    pub archive: FsPath,
    pub untar: CommandSpec,
    pub extracted_dir: FsPath,
}

/// The command that unpacks `archive` into `dir`.
pub open spec fn untar_model(archive: PathModel, dir: PathModel) -> CommandModel {
    CommandModel {
        program: seq!["tar"@],
        wineprefix: None,
        current_dir: None,
        args: seq![
            ArgModel::Text("-xf"@),
            ArgModel::Path(archive),
            ArgModel::Text("-C"@),
            ArgModel::Path(dir),
        ],
    }
}

/// How the Wine build is installed for the state `s`; `InvalidPlatform`
/// where the environment is managed by someone else.
pub fn wine_fetch_plan(state: &State) -> (r: Result<WineFetch, Error>)
    ensures
        match state@.wine {
            Some((bins, _)) => r matches Ok(f) && f.install_dir@ == bins && f.archive@ == bins.push(
                WINE_ARCHIVE_NAME@,
            ) && f.untar@ == untar_model(bins.push(WINE_ARCHIVE_NAME@), bins) && f.extracted_dir@
                == bins.push(WINE_BUILD_DIR@),
            None => r matches Err(Error::InvalidPlatform),
        },
{
    let install_dir = match state.wine_dir() {
        Ok(p) => p.duplicate(),
        Err(e) => return Err(e),
    };
    let archive = install_dir.join(WINE_ARCHIVE_NAME);
    let mut args: Vec<CommandArg> = Vec::new();
    args.push(CommandArg::Text(owned("-xf")));
    args.push(CommandArg::Path(archive.duplicate()));
    args.push(CommandArg::Text(owned("-C")));
    args.push(CommandArg::Path(install_dir.duplicate()));
    let untar = CommandSpec {
        program: FsPath::new("tar"),
        wineprefix: None,
        current_dir: None,
        args,
    };
    assert(untar@.args =~= untar_model(archive@, install_dir@).args);
    let extracted_dir = install_dir.join(WINE_BUILD_DIR);
    Ok(WineFetch { install_dir, archive, untar, extracted_dir })
}

/// How a fresh Wine prefix is set up: the prefix directory; the command that
/// initialises it; the command that sets the Windows version to Windows 7;
/// the link that maps drive A to the game directory (from `link_path` to
/// `link_target`), so that `A:\Diablo II` is the base game's directory; and the command that stops the Wine server so that the
/// new drive mapping is picked up.
#[derive(Debug)]
pub struct PrefixSetup {
    pub prefix: FsPath,
    pub boot: CommandSpec,
    pub set_win7: CommandSpec,
    pub link_target: FsPath,
    pub link_path: FsPath,
    pub stop_server: CommandSpec,
}

/// A Wine program of the installation `bins` run in `prefix` with `words`.
pub open spec fn wine_tool_model(bins: PathModel, prefix: PathModel, tool: Seq<char>, words: Seq<Seq<char>>) -> CommandModel {
    CommandModel {
        program: bins.push("bin"@).push(tool),
        wineprefix: Some(prefix),
        current_dir: None,
        args: texts(words),
    }
}

/// The registry change that makes the prefix report Windows 7.
pub open spec fn win7_words() -> Seq<Seq<char>> {
    seq!["reg"@, "add"@, "HKCU\\Software\\Wine"@, "/v"@, "Version"@, "/d"@, "win7"@, "/f"@]
}

/// The Wine program `tool` of `state`, run in its prefix with `words`.
fn wine_tool(state: &State, tool: &str, words: &Vec<&str>) -> (r: Result<CommandSpec, Error>)
    ensures
        match state@.wine {
            Some((bins, prefix)) => r matches Ok(c) && c@ == wine_tool_model(
                bins,
                prefix,
                tool@,
                words@.map_values(|w: &str| w@),
            ),
            None => r matches Err(Error::InvalidPlatform),
        },
{
    let program = match state.wine_exe(tool) {
        Ok(p) => p,
        Err(e) => return Err(e),
    };
    let prefix = match state.wine_prefix() {
        Ok(p) => p.duplicate(),
        Err(e) => return Err(e),
    };
    Ok(CommandSpec { program, wineprefix: Some(prefix), current_dir: None, args: text_args(words) })
}

/// How a fresh Wine prefix is set up for the state `s`; `InvalidPlatform`
/// where the environment is managed by someone else. The prefix's drive `a:`
/// is linked to the game's directory, so that `A:\\Diablo II` is the
/// directory the base game is installed in.
pub fn prefix_setup_plan(state: &State) -> (r: Result<PrefixSetup, Error>)
    ensures
        match state@.wine {
            Some((bins, prefix)) => r matches Ok(p) && p.prefix@ == prefix && p.boot@
                == wine_tool_model(bins, prefix, "wineboot"@, seq!["-i"@]) && p.set_win7@
                == wine_tool_model(bins, prefix, "wine"@, win7_words()) && p.link_target@
                == state@.game_files && p.link_target@.push("Diablo II"@) == d2_dir_of(state@)
                && p.link_path@ == prefix.push("dosdevices"@).push("a:"@)
                && p.stop_server@ == wine_tool_model(bins, prefix, "wineserver"@, seq!["-k"@]),
            None => r matches Err(Error::InvalidPlatform),
        },
{
    let prefix = match state.wine_prefix() {
        Ok(p) => p.duplicate(),
        Err(e) => return Err(e),
    };
    let boot_words = vec!["-i"];
    assert(boot_words@.map_values(|w: &str| w@) =~= seq!["-i"@]);
    let boot = match wine_tool(state, "wineboot", &boot_words) {
        Ok(c) => c,
        Err(e) => return Err(e),
    };
    let win7 = vec!["reg", "add", "HKCU\\Software\\Wine", "/v", "Version", "/d", "win7", "/f"];
    assert(win7@.map_values(|w: &str| w@) =~= win7_words());
    let set_win7 = match wine_tool(state, "wine", &win7) {
        Ok(c) => c,
        Err(e) => return Err(e),
    };
    let link_path = match state.wine_dosdevice("a:") {
        Ok(p) => p,
        Err(e) => return Err(e),
    };
    let stop_words = vec!["-k"];
    assert(stop_words@.map_values(|w: &str| w@) =~= seq!["-k"@]);
    let stop_server = match wine_tool(state, "wineserver", &stop_words) {
        Ok(c) => c,
        Err(e) => return Err(e),
    };
    Ok(PrefixSetup { prefix, boot, set_win7, link_target: state.game_dir().duplicate(), link_path, stop_server })
}

/// One step of setting a Wine prefix up.
#[derive(Debug)]
pub enum PrefixStep {
    /// Create the directory and its parents.
    CreateDirAll(FsPath),
    /// Run the command; an unsuccessful exit ends the setup with
    /// `WineInitFailed`.
    Run(CommandSpec),
    /// Make `link` a link to `target`.
    Link { target: FsPath, link: FsPath },
}

/// What a prefix setup step holds.
pub enum PrefixStepModel {
    CreateDirAll(PathModel),
    Run(CommandModel),
    Link { target: PathModel, link: PathModel },
}

impl View for PrefixStep {
    type V = PrefixStepModel;

    open spec fn view(&self) -> PrefixStepModel {
        match self {
            PrefixStep::CreateDirAll(p) => PrefixStepModel::CreateDirAll(p@),
            PrefixStep::Run(c) => PrefixStepModel::Run(c@),
            PrefixStep::Link { target, link } => PrefixStepModel::Link {
                target: target@,
                link: link@,
            },
        }
    }
}

/// The steps that set the prefix of the Wine installation `bins` up at
/// `prefix` for the game directory `game`, in order: create the prefix;
/// initialise it; make it report Windows 7; link its drive `a:` to the game
/// directory; stop the Wine server so that the new drive is picked up.
pub open spec fn prefix_plan(bins: PathModel, prefix: PathModel, game: PathModel) -> Seq<
    PrefixStepModel,
> {
    seq![
        PrefixStepModel::CreateDirAll(prefix),
        PrefixStepModel::Run(wine_tool_model(bins, prefix, "wineboot"@, seq!["-i"@])),
        PrefixStepModel::Run(wine_tool_model(bins, prefix, "wine"@, win7_words())),
        PrefixStepModel::Link { target: game, link: prefix.push("dosdevices"@).push("a:"@) },
        PrefixStepModel::Run(wine_tool_model(bins, prefix, "wineserver"@, seq!["-k"@])),
    ]
}

/// A prefix setup under way: the steps still to run, the next one last.
#[derive(Debug)]
pub struct PrefixRun {
    pending: Vec<PrefixStep>,
}

/// The steps, in order, that a vector holding them with the next one last
/// stands for.
pub open spec fn in_run_order(v: Seq<PrefixStep>) -> Seq<PrefixStepModel> {
    Seq::new(v.len(), |i: int| v[v.len() - 1 - i]@)
}

impl View for PrefixRun {
    type V = Seq<PrefixStepModel>;

    closed spec fn view(&self) -> Seq<PrefixStepModel> {
        in_run_order(self.pending@)
    }
}

/// What a prefix setup does next: perform `step` and report how it went to
/// `run`, or end with the result.
#[derive(Debug)]
pub enum PrefixAction {
    Perform { run: PrefixRun, step: PrefixStep },
    Finish(Result<(), Error>),
}

impl PrefixRun {
    /// The setup of a fresh Wine prefix for `state`, handing out its first
    /// step; `InvalidPlatform` where the environment is managed by someone
    /// else.
    pub fn start(state: &State) -> (r: Result<PrefixAction, Error>)
        ensures
            match state@.wine {
                Some((bins, prefix)) => {
                    let plan = prefix_plan(bins, prefix, state@.game_files);
                    r matches Ok(PrefixAction::Perform { run, step }) && step@ == plan[0] && run@
                        == plan.drop_first()
                },
                None => r matches Err(Error::InvalidPlatform),
            },
    {
        let p = match prefix_setup_plan(state) {
            Ok(p) => p,
            Err(e) => return Err(e),
        };
        let ghost plan = prefix_plan(state@.wine.unwrap().0, state@.wine.unwrap().1, state@.game_files);
        let mut pending: Vec<PrefixStep> = Vec::new();
        pending.push(PrefixStep::Run(p.stop_server));
        pending.push(PrefixStep::Link { target: p.link_target, link: p.link_path });
        pending.push(PrefixStep::Run(p.set_win7));
        pending.push(PrefixStep::Run(p.boot));
        let run = PrefixRun { pending };
        assert(run@ =~= plan.drop_first());
        Ok(PrefixAction::Perform { run, step: PrefixStep::CreateDirAll(p.prefix) })
    }

    /// What follows the step last handed out, given how it went: `Err(e)`
    /// where it could not be performed, which ends the setup with `e`;
    /// `Ok(false)` where it ran without success (a command that exited
    /// unsuccessfully), which ends the setup with `WineInitFailed`; `Ok(true)`
    /// where it succeeded, after which the next step is handed out, or the
    /// setup ends successfully once none is left. A run that ended hands out
    /// nothing more.
    pub fn advance(self, outcome: Result<bool, Error>) -> (r: PrefixAction)
        ensures
            match outcome {
                Err(e) => r matches PrefixAction::Finish(Err(f)) && f == e,
                Ok(false) => r matches PrefixAction::Finish(Err(Error::WineInitFailed)),
                Ok(true) => if self@.len() > 0 {
                    r matches PrefixAction::Perform { run, step } && step@ == self@[0] && run@
                        == self@.drop_first()
                } else {
                    r matches PrefixAction::Finish(Ok(()))
                },
            },
    {
        match outcome {
            Err(e) => PrefixAction::Finish(Err(e)),
            Ok(false) => PrefixAction::Finish(Err(Error::WineInitFailed)),
            Ok(true) => {
                let ghost before = self@;
                let mut pending = self.pending;
                match pending.pop() {
                    Some(step) => {
                        let run = PrefixRun { pending };
                        assert(run@ =~= before.drop_first());
                        PrefixAction::Perform { run, step }
                    },
                    None => PrefixAction::Finish(Ok(())),
                }
            },
        }
    }
}

} // verus!
