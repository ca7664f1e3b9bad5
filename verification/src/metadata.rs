//! The published list of game files and their checksums.
use vstd::prelude::*;
use crate::error::Error;
use crate::text::{
    concat_str, first_piece_end, first_piece_index, last_piece_index, last_piece_start, trim, trim_str,
};

verus! {

/// Where the game files and their list are published.
pub const METADATA_ENDPOINT: &'static str = "https://pd2-client-files.projectdiablo2.com";

/// The list of game files as it is published: one line per file, its
/// checksum first and its name last, separated by spaces.
#[derive(Debug, PartialEq, Eq)]
pub struct GameFilesMetadataRaw {
    checksum: Vec<String>,
}

/// One game file: its checksum, its name and where it is downloaded from.
#[derive(Clone, Debug, PartialEq, Eq)]
pub struct GameFileMetadata {
    pub checksum: String,
    pub name: String,
    pub url: String,
}

/// The contents of a game file's entry.
pub struct FileModel {
    pub checksum: Seq<char>,
    pub name: Seq<char>,
    pub url: Seq<char>,
}

impl View for GameFileMetadata {
    type V = FileModel;

    open spec fn view(&self) -> FileModel {
        FileModel { checksum: self.checksum@, name: self.name@, url: self.url@ }
    }
}

/// The contents of a list of game file entries.
pub open spec fn files_view(v: Seq<GameFileMetadata>) -> Seq<FileModel> {
    v.map_values(|f: GameFileMetadata| f@)
}

/// The address of the game file `name`.
pub open spec fn file_url(name: Seq<char>) -> Seq<char> {
    METADATA_ENDPOINT@ + "/"@ + name
}

/// The entry that the published line `line` stands for: the text before its
/// first space is the checksum, the text after its last space the name, each
/// without surrounding white space. A line without a space stands for none.
pub open spec fn parse_line(line: Seq<char>) -> Option<FileModel> {
    let first_end = first_piece_end(line, " "@, 0);
    if first_end == line.len() {
        None
    } else {
        let name = trim(line.skip(last_piece_start(line, " "@, 0, 0)));
        Some(FileModel { checksum: trim(line.take(first_end)), name, url: file_url(name) })
    }
}

/// The entries that the published lines stand for, in order; none where a
/// line stands for none.
pub open spec fn parse_lines(lines: Seq<Seq<char>>) -> Option<Seq<FileModel>>
    decreases lines.len(),
{
    if lines.len() == 0 {
        Some(Seq::empty())
    } else {
        match (parse_lines(lines.drop_last()), parse_line(lines.last())) {
            (Some(done), Some(entry)) => Some(done.push(entry)),
            _ => None,
        }
    }
}

impl GameFilesMetadataRaw {
    /// The list made of the published lines `checksum`.
    pub fn new(checksum: Vec<String>) -> (r: GameFilesMetadataRaw)
        ensures
            r.lines() == checksum@.map_values(|l: String| l@),
    {
        GameFilesMetadataRaw { checksum }
    }

    /// The published lines.
    pub closed spec fn lines(&self) -> Seq<Seq<char>> {
        self.checksum@.map_values(|l: String| l@)
    }

    /// The game file entries that the published lines stand for, or
    /// `InvalidMetadata` where some line has no space in it.
    pub fn try_into_files(self) -> (r: Result<Vec<GameFileMetadata>, Error>)
        ensures
            match parse_lines(self.lines()) {
                Some(entries) => r matches Ok(v) && files_view(v@) == entries,
                None => r matches Err(Error::InvalidMetadata),
            },
    {
        let ghost lines = self.lines();
        let mut out: Vec<GameFileMetadata> = Vec::new();
        let mut i: usize = 0;
        while i < self.checksum.len()
            invariant
                0 <= i <= self.checksum.len(),
                lines == self.checksum@.map_values(|l: String| l@),
                parse_lines(lines.take(i as int)) == Some(files_view(out@)),
            decreases self.checksum.len() - i,
        {
            assert(lines.take(i + 1).drop_last() =~= lines.take(i as int));
            assert(lines[i as int] == self.checksum@[i as int]@);
            match parse_file_line(self.checksum[i].as_str()) {
                Some(entry) => {
                    let ghost before = out@;
                    out.push(entry);
                    assert(files_view(out@) =~= files_view(before).push(entry@));
                },
                None => {
                    proof {
                        lemma_parse_fails_from(lines, i + 1);
                    }
                    return Err(Error::InvalidMetadata);
                },
            }
            i = i + 1;
        }
        assert(lines.take(self.checksum.len() as int) =~= lines);
        Ok(out)
    }
}

/// Once a prefix of the lines holds one without a space, so does every
/// longer prefix.
proof fn lemma_parse_fails_from(lines: Seq<Seq<char>>, k: int)
    requires
        0 <= k <= lines.len(),
        parse_lines(lines.take(k)) is None,
    ensures
        parse_lines(lines) is None,
    decreases lines.len() - k,
{
    if k < lines.len() {
        assert(lines.take(k + 1).drop_last() =~= lines.take(k));
        lemma_parse_fails_from(lines, k + 1);
    } else {
        assert(lines.take(k) =~= lines);
    }
}

/// The entry that one published line stands for.
pub fn parse_file_line(line: &str) -> (r: Option<GameFileMetadata>)
    ensures
        match parse_line(line@) {
            Some(m) => r matches Some(f) && f@ == m,
            None => r is None,
        },
{
    let n = line.unicode_len();
    proof {
        reveal_strlit(" ");
    }
    let first_end = first_piece_index(line, " ");
    if first_end == n {
        return None;
    }
    let last_start = last_piece_index(line, " ");
    let checksum = trim_str(line.substring_char(0, first_end));
    let name = trim_str(line.substring_char(last_start, n));
    let head = concat_str(METADATA_ENDPOINT, "/");
    let url = concat_str(head.as_str(), name);
    assert(line@.take(first_end as int) =~= line@.subrange(0, first_end as int));
    assert(line@.skip(last_start as int) =~= line@.subrange(last_start as int, n as int));
    Some(GameFileMetadata { checksum: checksum.to_owned(), name: name.to_owned(), url })
}

/// A published list that is read stands for one entry per line, in order,
/// and each entry is downloaded from the publishing address under its own
/// name.
pub proof fn lemma_parse_lines_shape(lines: Seq<Seq<char>>)
    ensures
        parse_lines(lines) matches Some(entries) ==> {
            &&& entries.len() == lines.len()
            &&& forall|i: int| 0 <= i < entries.len() ==> (#[trigger] entries[i]).url == file_url(entries[i].name)
            &&& forall|i: int| 0 <= i < entries.len() ==> Some(#[trigger] entries[i]) == parse_line(lines[i])
        },
    decreases lines.len(),
{
    if lines.len() > 0 {
        lemma_parse_lines_shape(lines.drop_last());
        if let Some(entries) = parse_lines(lines) {
            let done = parse_lines(lines.drop_last()).unwrap();
            assert forall|i: int| 0 <= i < entries.len() implies Some(#[trigger] entries[i]) == parse_line(lines[i]) by {
                if i < done.len() {
                    assert(entries[i] == done[i]);
                    assert(lines.drop_last()[i] == lines[i]);
                }
            }
        }
    }
}

} // verus!
