//! File-system paths as the launcher builds them.
//!
//! A path is the sequence of the pieces it was joined from, root first: the
//! file system path is what `Path::join` makes of them in order. Keeping the
//! pieces, rather than one string with separators in it, leaves the
//! separator to the platform that finally uses the path.
use vstd::prelude::*;
use crate::text::owned;

verus! {

/// The pieces a path is joined from, root first.
pub type PathModel = Seq<Seq<char>>;

/// A file-system path, kept as the pieces it is joined from.
#[derive(Clone, Debug, PartialEq, Eq)]
pub struct FsPath {
    parts: Vec<String>,
}

impl View for FsPath {
    type V = PathModel;

    closed spec fn view(&self) -> PathModel {
        self.parts@.map_values(|p: String| p@)
    }
}

/// A copy of a vector of strings.
fn copy_strings(v: &Vec<String>) -> (r: Vec<String>)
    ensures
        r@.map_values(|p: String| p@) == v@.map_values(|p: String| p@),
{
    let mut out: Vec<String> = Vec::new();
    let mut i: usize = 0;
    while i < v.len()
        invariant
            0 <= i <= v.len(),
            out@.len() == i,
            forall|j: int| 0 <= j < i ==> out@[j]@ == v@[j]@,
        decreases v.len() - i,
    {
        out.push(v[i].clone());
        i = i + 1;
    }
    assert(out@.map_values(|p: String| p@) =~= v@.map_values(|p: String| p@));
    out
}

impl FsPath {
    /// The path that `root` names.
    pub fn new(root: &str) -> (r: FsPath)
        ensures
            r@ == seq![root@],
    {
        let mut parts = Vec::new();
        parts.push(owned(root));
        let r = FsPath { parts };
        assert(r@ =~= seq![root@]);
        r
    }

    /// This path with `part` joined to it.
    pub fn join(&self, part: &str) -> (r: FsPath)
        ensures
            r@ == self@.push(part@),
    {
        let mut parts = copy_strings(&self.parts);
        parts.push(owned(part));
        let r = FsPath { parts };
        assert(r@ =~= self@.push(part@));
        r
    }

    /// A copy of this path.
    pub fn duplicate(&self) -> (r: FsPath)
        ensures
            r@ == self@,
    {
        FsPath { parts: copy_strings(&self.parts) }
    }

    /// The pieces of this path, root first.
    pub fn parts(&self) -> (r: &Vec<String>)
        ensures
            r@.map_values(|p: String| p@) == self@,
    {
        &self.parts
    }
}

} // verus!
