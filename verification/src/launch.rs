//! Starting the game.
use vstd::prelude::*;
use crate::command::{ArgModel, CommandArg, CommandModel, CommandSpec, text_args, texts};
use crate::error::Error;
use crate::path::PathModel;
use crate::settings::{Settings, SettingsModel, launch_args};
use crate::state::{State, StateModel, pd2_dir_of};

verus! {

/// The command that starts the game with the settings `m` through the
/// launcher's Wine installation `bins` and prefix `prefix`: the Wine loader
/// runs `Game.exe` from the Project Diablo 2 directory, the settings' flags
/// following.
pub open spec fn wine_launch_model(s: StateModel, bins: PathModel, prefix: PathModel, m: SettingsModel) -> CommandModel {
    CommandModel {
        program: bins.push("bin"@).push("wine"@),
        wineprefix: Some(prefix),
        current_dir: Some(pd2_dir_of(s)),
        args: seq![ArgModel::Path(pd2_dir_of(s).push("Game.exe"@))] + texts(launch_args(m)),
    }
}

/// The command that starts the game with the settings `m` in a Windows
/// environment someone else manages: `Game.exe` from the Project Diablo 2
/// directory, by itself, with the settings' flags.
pub open spec fn direct_launch_model(s: StateModel, m: SettingsModel) -> CommandModel {
    CommandModel {
        program: pd2_dir_of(s).push("Game.exe"@),
        wineprefix: None,
        current_dir: None,
        args: texts(launch_args(m)),
    }
}

/// The command that starts the game: directly where the platform's Windows
/// environment is managed by someone else (`managed_externally`), and
/// otherwise through the launcher's Wine, which a state without a Wine setup
/// lacks (`InvalidPlatform`).
pub fn launch_command(state: &State, settings: &Settings, managed_externally: bool) -> (r: Result<
    CommandSpec,
    Error,
>)
    ensures
        managed_externally ==> (r matches Ok(c) && c@ == direct_launch_model(state@, settings@)),
        !managed_externally ==> match state@.wine {
            Some((bins, prefix)) => r matches Ok(c) && c@ == wine_launch_model(
                state@,
                bins,
                prefix,
                settings@,
            ),
            None => r matches Err(Error::InvalidPlatform),
        },
{
    let game_path = state.pd2_dir().join("Game.exe");
    let flags = settings.compose_args();
    let flag_args = text_args(&flags);
    if managed_externally {
        return Ok(CommandSpec { program: game_path, wineprefix: None, current_dir: None, args: flag_args });
    }
    let wine = match state.wine_exe("wine") {
        Ok(p) => p,
        Err(e) => return Err(e),
    };
    let prefix = match state.wine_prefix() {
        Ok(p) => p.duplicate(),
        Err(e) => return Err(e),
    };
    let mut args: Vec<CommandArg> = Vec::new();
    args.push(CommandArg::Path(game_path));
    let mut rest = flag_args;
    args.append(&mut rest);
    let r = CommandSpec {
        program: wine,
        wineprefix: Some(prefix),
        current_dir: Some(state.pd2_dir()),
        args,
    };
    assert(r@.args =~= seq![ArgModel::Path(pd2_dir_of(state@).push("Game.exe"@))] + texts(
        launch_args(settings@),
    ));
    Ok(r)
}

} // verus!
