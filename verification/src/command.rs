//! The programs the launcher runs, described as plain values: which program,
//! with which arguments, in which directory and with which Wine prefix.
use vstd::prelude::*;
use crate::error::Error;
use crate::path::{FsPath, PathModel};
use crate::text::owned;

verus! {

/// One argument of a command: plain text or a path.
#[derive(Debug)]
pub enum CommandArg {
    Text(String),
    Path(FsPath),
}

/// What an argument holds.
pub enum ArgModel {
    Text(Seq<char>),
    Path(PathModel),
}

/// A program to run: the program, the Wine prefix it is to use (given to it
/// as `WINEPREFIX`), the directory it is to run in, and its arguments.
#[derive(Debug)]
pub struct CommandSpec {
    pub program: FsPath,
    pub wineprefix: Option<FsPath>,
    pub current_dir: Option<FsPath>,
    pub args: Vec<CommandArg>,
}

/// What a command holds.
pub struct CommandModel {
    pub program: PathModel,
    pub wineprefix: Option<PathModel>,
    pub current_dir: Option<PathModel>,
    pub args: Seq<ArgModel>,
}

/// What an argument holds.
pub open spec fn arg_view(a: CommandArg) -> ArgModel {
    match a {
        CommandArg::Text(t) => ArgModel::Text(t@),
        CommandArg::Path(p) => ArgModel::Path(p@),
    }
}

/// What an optional path holds.
pub open spec fn opt_path_view(p: Option<FsPath>) -> Option<PathModel> {
    match p {
        Some(q) => Some(q@),
        None => None,
    }
}

impl View for CommandSpec {
    type V = CommandModel;

    open spec fn view(&self) -> CommandModel {
        CommandModel {
            program: self.program@,
            wineprefix: opt_path_view(self.wineprefix),
            current_dir: opt_path_view(self.current_dir),
            args: self.args@.map_values(|a: CommandArg| arg_view(a)),
        }
    }
}

/// Text arguments, one per piece of text.
pub open spec fn texts(words: Seq<Seq<char>>) -> Seq<ArgModel> {
    words.map_values(|w: Seq<char>| ArgModel::Text(w))
}

/// Text arguments made of `words`.
pub fn text_args(words: &Vec<&str>) -> (r: Vec<CommandArg>)
    ensures
        r@.map_values(|a: CommandArg| arg_view(a)) == texts(words@.map_values(|w: &str| w@)),
{
    let mut out: Vec<CommandArg> = Vec::new();
    let mut i: usize = 0;
    while i < words.len()
        invariant
            0 <= i <= words.len(),
            out@.len() == i,
            forall|j: int| 0 <= j < i ==> arg_view(#[trigger] out@[j]) == ArgModel::Text(words@[j]@),
        decreases words.len() - i,
    {
        out.push(CommandArg::Text(owned(words[i])));
        i = i + 1;
    }
    assert(out@.map_values(|a: CommandArg| arg_view(a)) =~= texts(words@.map_values(|w: &str| w@)));
    out
}

/// The result of a program that exited as `success` says: nothing on
/// success, `failure` otherwise.
pub fn status_result(success: bool, failure: Error) -> (r: Result<(), Error>)
    ensures
        success ==> r is Ok,
        !success ==> r == Err::<(), Error>(failure),
{
    if success {
        Ok(())
    } else {
        Err(failure)
    }
}

} // verus!
