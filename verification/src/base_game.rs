//! Installing the base game and moving it to where the game expects it.
use vstd::prelude::*;
use crate::command::{ArgModel, CommandArg, CommandModel, CommandSpec, text_args, texts};
use crate::error::Error;
use crate::path::{FsPath, PathModel};
use crate::state::{State, StateModel, d2_dir_of};
use crate::text::{
    ascii_lower, char_utf8_width, from_byte, last_piece, last_piece_index, push_char, replace_char,
    replaced, str_eq, suffix_from_byte, to_ascii_lower, trim, trim_str, utf8_len, utf8_width,
};

verus! {

/// The registry key under which the base game's installer records where it
/// installed the game.
pub const D2_REGISTRY_KEY: &'static str = "HKCU\\Software\\Blizzard Entertainment\\Diablo II";

/// What `reg query` prints when the key does not exist.
pub const REG_KEY_MISSING: &'static str = "reg: Unable to find the specified registry key";

/// Where the game is expected to be installed.
pub const D2_TARGET_INSTALL_PATH: &'static str = "A:\\Diablo II\\";

/// What separates the columns of `reg query`'s output.
pub const REG_COLUMN_GAP: &'static str = "    ";

/// The command that runs the installer `installer` on a platform whose
/// Windows environment someone else manages: the installer by itself.
pub open spec fn direct_installer_model(installer: PathModel) -> CommandModel {
    CommandModel { program: installer, wineprefix: None, current_dir: None, args: Seq::empty() }
}

/// The command that runs the installer `installer` through the launcher's
/// own Wine installation of `s`.
pub open spec fn wine_installer_model(bins: PathModel, prefix: PathModel, installer: PathModel) -> CommandModel {
    CommandModel {
        program: bins.push("bin"@).push("wine"@),
        wineprefix: Some(prefix),
        current_dir: None,
        args: seq![ArgModel::Path(installer)],
    }
}

/// The command that runs the installer `installer` (of the base game or of
/// its expansion). Where the platform's Windows environment is managed by
/// someone else (`managed_externally`), the installer runs by itself,
/// whatever the state. Otherwise it runs through the launcher's Wine with
/// its prefix: `Pd2lcpNotInitialised` where the launcher is not set up, and
/// `InvalidPlatform` where the state has no Wine setup.
pub fn installer_command(state: &Option<State>, installer: &FsPath, managed_externally: bool) -> (r:
    Result<CommandSpec, Error>)
    ensures
        managed_externally ==> (r matches Ok(c) && c@ == direct_installer_model(installer@)),
        !managed_externally ==> match state {
            Some(s) => match s@.wine {
                Some((bins, prefix)) => r matches Ok(c) && c@ == wine_installer_model(
                    bins,
                    prefix,
                    installer@,
                ),
                None => r matches Err(Error::InvalidPlatform),
            },
            None => r matches Err(Error::Pd2lcpNotInitialised),
        },
{
    if managed_externally {
        let r = CommandSpec {
            program: installer.duplicate(),
            wineprefix: None,
            current_dir: None,
            args: Vec::new(),
        };
        assert(r@.args =~= Seq::<ArgModel>::empty());
        return Ok(r);
    }
    let state = match state {
        Some(s) => s,
        None => return Err(Error::Pd2lcpNotInitialised),
    };
    let wine = match state.wine_exe("wine") {
        Ok(p) => p,
        Err(e) => return Err(e),
    };
    let prefix = match state.wine_prefix() {
        Ok(p) => p.duplicate(),
        Err(e) => return Err(e),
    };
    let mut args: Vec<CommandArg> = Vec::new();
    args.push(CommandArg::Path(installer.duplicate()));
    let r = CommandSpec { program: wine, wineprefix: Some(prefix), current_dir: None, args };
    assert(r@.args =~= seq![ArgModel::Path(installer@)]);
    Ok(r)
}

/// The words of the registry query for the game's install path.
pub open spec fn registry_query_words() -> Seq<Seq<char>> {
    seq!["reg"@, "query"@, D2_REGISTRY_KEY@, "/v"@, "InstallPath"@]
}

/// The command that asks the Wine registry where the base game was
/// installed; `Pd2lcpNotInitialised` where the launcher is not set up, and
/// `InvalidPlatform` where there is no Wine setup of the launcher's own.
pub fn registry_query_command(state: &Option<State>) -> (r: Result<CommandSpec, Error>)
    ensures
        match state {
            Some(s) => match s@.wine {
                Some((bins, prefix)) => r matches Ok(c) && c@ == (CommandModel {
                    program: bins.push("bin"@).push("wine"@),
                    wineprefix: Some(prefix),
                    current_dir: None,
                    args: texts(registry_query_words()),
                }),
                None => r matches Err(Error::InvalidPlatform),
            },
            None => r matches Err(Error::Pd2lcpNotInitialised),
        },
{
    let state = match state {
        Some(s) => s,
        None => return Err(Error::Pd2lcpNotInitialised),
    };
    let prefix = match state.wine_prefix() {
        Ok(p) => p.duplicate(),
        Err(e) => return Err(e),
    };
    let wine = match state.wine_exe("wine") {
        Ok(p) => p,
        Err(e) => return Err(e),
    };
    let words = vec!["reg", "query", D2_REGISTRY_KEY, "/v", "InstallPath"];
    let args = text_args(&words);
    assert(words@.map_values(|w: &str| w@) =~= registry_query_words());
    Ok(CommandSpec { program: wine, wineprefix: Some(prefix), current_dir: None, args })
}

/// The characters that bytes stand for when each byte is read as the code
/// point of the same number.
pub open spec fn latin1(bytes: Seq<u8>) -> Seq<char> {
    bytes.map_values(|b: u8| b as char)
}

/// The install path that the output of the registry query names: the last
/// column of its output, without surrounding white space.
pub open spec fn install_path_of(output: Seq<char>) -> Seq<char> {
    trim(last_piece(output, REG_COLUMN_GAP@))
}

/// The drive of an install path: its first two characters (fewer where it is
/// shorter) in ASCII lower case.
pub open spec fn drive_of(path: Seq<char>) -> Seq<char> {
    path.take(if path.len() < 2 {
        path.len() as int
    } else {
        2
    }).map_values(|c: char| ascii_lower(c))
}

/// The part of an install path behind its first three bytes (the drive and
/// its separator), with backslashes turned into slashes; empty where the
/// path has no such part.
pub open spec fn relative_of(path: Seq<char>) -> Seq<char> {
    replaced(
        match from_byte(path, 3) {
            Some(t) => t,
            None => Seq::empty(),
        },
        '\\',
        '/',
    )
}

/// What is to be done to bring the base game to where it is expected.
#[derive(Debug)]
pub enum Relocation {
    /// The game is where it is expected.
    InPlace,
    /// The game's directory is to be replaced by a link to `target`.
    Link { target: FsPath, link: FsPath },
}

/// What a relocation holds.
pub enum RelocationModel {
    InPlace,
    Link { target: PathModel, link: PathModel },
}

impl View for Relocation {
    type V = RelocationModel;

    open spec fn view(&self) -> RelocationModel {
        match self {
            Relocation::InPlace => RelocationModel::InPlace,
            Relocation::Link { target, link } => RelocationModel::Link {
                target: target@,
                link: link@,
            },
        }
    }
}

/// What the output `output` of the registry query calls for: an error where
/// the key is missing or the install path has no two-byte drive, nothing
/// where the game is installed where it is expected, and otherwise a link
/// from the game's directory to the install path as the Wine prefix's drive
/// mapping exposes it.
pub open spec fn relocation_of(s: StateModel, output: Seq<char>) -> Result<RelocationModel, Error> {
    let install = install_path_of(output);
    let drive = drive_of(install);
    if trim(output) == REG_KEY_MISSING@ {
        Err(Error::D2InstalledIncorrectly)
    } else if install == D2_TARGET_INSTALL_PATH@ {
        Ok(RelocationModel::InPlace)
    } else if utf8_len(drive) != 2 {
        Err(Error::D2InstalledIncorrectly)
    } else {
        match s.wine {
            Some((_, prefix)) => Ok(
                RelocationModel::Link {
                    target: prefix.push("dosdevices"@).push(drive).push(relative_of(install)),
                    link: d2_dir_of(s),
                },
            ),
            None => Err(Error::InvalidPlatform),
        }
    }
}

/// A character added to a text adds its width to the text's UTF-8 length.
proof fn lemma_utf8_len_push(s: Seq<char>, c: char)
    ensures
        utf8_len(s.push(c)) == utf8_len(s) + utf8_width(c),
    decreases s.len(),
{
    assert(utf8_len(Seq::<char>::empty()) == 0);
    if s.len() > 0 {
        assert(s.push(c)[0] == s[0]);
        assert(s.push(c).drop_first() =~= s.drop_first().push(c));
        lemma_utf8_len_push(s.drop_first(), c);
    } else {
        assert(s.push(c)[0] == c);
        assert(s.push(c).drop_first() =~= Seq::<char>::empty());
    }
}

/// The text that the registry query printed, each byte read as one character.
fn output_text(stdout: &Vec<u8>) -> (r: String)
    ensures
        r@ == latin1(stdout@),
{
    let mut text = String::new();
    let mut i: usize = 0;
    while i < stdout.len()
        invariant
            0 <= i <= stdout.len(),
            text@ == latin1(stdout@.take(i as int)),
        decreases stdout.len() - i,
    {
        let b = stdout[i];
        push_char(&mut text, b as char);
        assert(latin1(stdout@.take(i + 1)) =~= latin1(stdout@.take(i as int)).push(b as char));
        i = i + 1;
    }
    assert(stdout@.take(stdout.len() as int) =~= stdout@);
    text
}

/// The drive of the install path `path`, and its length in UTF-8.
fn drive_letter(path: &str) -> (r: (String, usize))
    ensures
        r.0@ == drive_of(path@),
        r.1 == utf8_len(drive_of(path@)),
{
    let n = path.unicode_len();
    let k: usize = if n < 2 {
        n
    } else {
        2
    };
    let mut drive = String::new();
    let mut bytes: usize = 0;
    let mut i: usize = 0;
    assert(utf8_len(Seq::<char>::empty()) == 0);
    while i < k
        invariant
            0 <= i <= k,
            k <= 2,
            k <= n,
            n == path@.len(),
            drive@ == path@.take(i as int).map_values(|c: char| ascii_lower(c)),
            bytes == utf8_len(drive@),
            bytes <= 4 * i,
        decreases k - i,
    {
        let c = to_ascii_lower(path.get_char(i));
        proof {
            lemma_utf8_len_push(drive@, c);
        }
        push_char(&mut drive, c);
        bytes = bytes + char_utf8_width(c);
        assert(path@.take(i + 1).map_values(|c: char| ascii_lower(c)) =~= path@.take(
            i as int,
        ).map_values(|c: char| ascii_lower(c)).push(c));
        i = i + 1;
    }
    (drive, bytes)
}

/// What the output of the registry query calls for.
pub fn plan_relocation(state: &State, stdout: &Vec<u8>) -> (r: Result<Relocation, Error>)
    ensures
        match relocation_of(state@, latin1(stdout@)) {
            Ok(m) => r matches Ok(p) && p@ == m,
            Err(e) => r matches Err(f) && f == e,
        },
{
    let text = output_text(stdout);
    if str_eq(trim_str(text.as_str()), REG_KEY_MISSING) {
        return Err(Error::D2InstalledIncorrectly);
    }
    proof {
        reveal_strlit("    ");
    }
    let n = text.as_str().unicode_len();
    let start = last_piece_index(text.as_str(), REG_COLUMN_GAP);
    let piece = text.as_str().substring_char(start, n);
    assert(piece@ =~= last_piece(text@, REG_COLUMN_GAP@));
    let install = trim_str(piece);
    if str_eq(install, D2_TARGET_INSTALL_PATH) {
        return Ok(Relocation::InPlace);
    }
    let (drive, drive_bytes) = drive_letter(install);
    if drive_bytes != 2 {
        return Err(Error::D2InstalledIncorrectly);
    }
    let relative = match suffix_from_byte(install, 3) {
        Some(t) => replace_char(t, '\\', '/'),
        None => replace_char("", '\\', '/'),
    };
    proof {
        reveal_strlit("");
    }
    assert(relative@ == relative_of(install@));
    let device = match state.wine_dosdevice(drive.as_str()) {
        Ok(p) => p,
        Err(e) => return Err(e),
    };
    Ok(Relocation::Link { target: device.join(relative.as_str()), link: state.d2_dir() })
}

/// Whether the install path that the Windows registry records is where the
/// game is expected.
pub fn install_path_in_place(current: &str) -> (r: bool)
    ensures
        r == (current@ == D2_TARGET_INSTALL_PATH@),
{
    str_eq(current, D2_TARGET_INSTALL_PATH)
}

/// A game installed where it is expected is never moved, and a game
/// installed elsewhere is linked from the game's directory to a place inside
/// the Wine prefix's drive mapping.
pub proof fn lemma_relocation_stays_in_prefix(s: StateModel, output: Seq<char>)
    ensures
        trim(output) != REG_KEY_MISSING@ && install_path_of(output) == D2_TARGET_INSTALL_PATH@
            ==> relocation_of(s, output) == Ok::<RelocationModel, Error>(RelocationModel::InPlace),
        relocation_of(s, output) matches Ok(RelocationModel::Link { target, link }) ==> {
            &&& s.wine matches Some((_, prefix))
            &&& prefix.push("dosdevices"@).is_prefix_of(target)
            &&& target.len() == prefix.len() + 3
            &&& link == d2_dir_of(s)
        },
{
    if let Ok(RelocationModel::Link { target, link }) = relocation_of(s, output) {
        let prefix = s.wine.unwrap().1;
        assert(prefix.push("dosdevices"@).is_prefix_of(target));
    }
}

} // verus!
