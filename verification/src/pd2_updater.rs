//! Keeping the Project Diablo 2 files up to date.
use vstd::prelude::*;
use crate::event::Event;
use crate::metadata::{FileModel, GameFileMetadata, files_view};
use crate::path::{FsPath, PathModel};
use crate::state::{State, StateModel, pd2_dir_of};
use crate::utils::{checksum_of, compute_hash};

verus! {

/// Whether two lists of game files agree entry by entry.
pub fn files_equal(a: &Vec<GameFileMetadata>, b: &Vec<GameFileMetadata>) -> (r: bool)
    ensures
        r == (files_view(a@) == files_view(b@)),
{
    if a.len() != b.len() {
        assert(files_view(a@).len() != files_view(b@).len());
        return false;
    }
    let mut i: usize = 0;
    while i < a.len()
        invariant
            0 <= i <= a.len(),
            a.len() == b.len(),
            forall|j: int| 0 <= j < i ==> files_view(a@)[j] == files_view(b@)[j],
        decreases a.len() - i,
    {
        if !(a[i].checksum == b[i].checksum && a[i].name == b[i].name && a[i].url == b[i].url) {
            assert(files_view(a@)[i as int] != files_view(b@)[i as int]);
            return false;
        }
        assert(files_view(a@)[i as int] == a@[i as int]@);
        assert(files_view(b@)[i as int] == b@[i as int]@);
        i = i + 1;
    }
    assert(files_view(a@) =~= files_view(b@));
    true
}

/// Whether the game files are to be updated: when no record of the
/// installed files exists, or when the record differs from the published
/// list.
pub open spec fn outdated(local: Option<Seq<FileModel>>, remote: Seq<FileModel>) -> bool {
    match local {
        None => true,
        Some(l) => l != remote,
    }
}

/// Once a published list is recorded as installed, it is current: no update
/// is called for until the published list changes.
pub proof fn lemma_recorded_list_is_current(remote: Seq<FileModel>)
    ensures
        !outdated(Some(remote), remote),
        outdated(None, remote),
{
}

/// Whether the game files are to be updated, given the record of the
/// installed files (none where no record exists) and the published list.
pub fn metadata_outdated(local: &Option<Vec<GameFileMetadata>>, remote: &Vec<GameFileMetadata>) -> (r: bool)
    ensures
        r == outdated(
            match local {
                Some(l) => Some(files_view(l@)),
                None => None,
            },
            files_view(remote@),
        ),
{
    match local {
        None => true,
        Some(l) => !files_equal(l, remote),
    }
}

/// The progress report before the game file at `index` of `count` files is
/// handled; both numbers are reported in 32 bits.
pub fn progress_event(index: usize, count: usize) -> (r: Event)
    ensures
        r == (Event::UpdatingPD2 { done: index as u32, total: count as u32 }),
{
    Event::UpdatingPD2 { done: index as u32, total: count as u32 }
}

/// What is to be done with one game file.
#[derive(Debug, PartialEq, Eq, Structural)]
pub enum FileAction {
    /// The file is missing and is to be downloaded.
    Download,
    /// The file's contents differ from the published checksum and are to be
    /// written anew.
    Rewrite,
    /// The file is as published.
    Keep,
}

/// What is to be done with the game file `meta`, given its contents on disk
/// (none where it does not exist).
pub open spec fn action_for(checksum: Seq<char>, local: Option<Seq<u8>>) -> FileAction {
    match local {
        None => FileAction::Download,
        Some(data) => if checksum != checksum_of(data) {
            FileAction::Rewrite
        } else {
            FileAction::Keep
        },
    }
}

/// What is to be done with the game file `meta`, given its contents on disk.
pub fn file_action(meta: &GameFileMetadata, local: Option<&[u8]>) -> (r: FileAction)
    ensures
        r == action_for(
            meta.checksum@,
            match local {
                Some(d) => Some(d@),
                None => None,
            },
        ),
{
    match local {
        None => FileAction::Download,
        Some(data) => {
            let hash = match compute_hash(data) {
                Ok(h) => h,
                Err(_) => return FileAction::Rewrite,
            };
            if meta.checksum == hash {
                FileAction::Keep
            } else {
                FileAction::Rewrite
            }
        },
    }
}

/// A run that brings the game files up to date, one file at a time, in the
/// order of the published list.
#[derive(Debug)]
pub struct Pd2Install {
    files: Vec<GameFileMetadata>,
    next: usize,
}

/// What an update run holds: the published list and how many of its files
/// were handed out.
pub struct InstallModel {
    pub files: Seq<FileModel>,
    pub next: nat,
}

impl View for Pd2Install {
    type V = InstallModel;

    closed spec fn view(&self) -> InstallModel {
        InstallModel { files: files_view(self.files@), next: self.next as nat }
    }
}

/// The next thing an update run does.
#[derive(Debug)]
pub enum InstallStep {
    /// Report `report`, then bring the file at `index` of the list, kept at
    /// `path`, up to date.
    File { report: Event, path: FsPath, index: usize },
    /// Record the list at `record`, then report `report`.
    Finish { record: FsPath, report: Event },
}

/// What a step holds.
pub enum StepModel {
    File { report: Event, path: PathModel, index: nat },
    Finish { record: PathModel, report: Event },
}

impl View for InstallStep {
    type V = StepModel;

    open spec fn view(&self) -> StepModel {
        match self {
            InstallStep::File { report, path, index } => StepModel::File {
                report: *report,
                path: path@,
                index: *index as nat,
            },
            InstallStep::Finish { record, report } => StepModel::Finish {
                record: record@,
                report: *report,
            },
        }
    }
}

/// The step an update run of `m` takes next for the state `s`: the next
/// file with its progress report while files are left, and the record of
/// the list with the final report once all were handed out.
pub open spec fn install_step(s: StateModel, m: InstallModel) -> StepModel {
    if m.next < m.files.len() {
        StepModel::File {
            report: Event::UpdatingPD2 { done: m.next as u32, total: m.files.len() as u32 },
            path: pd2_dir_of(s).push(m.files[m.next as int].name),
            index: m.next,
        }
    } else {
        StepModel::Finish {
            record: pd2_dir_of(s).push("local_metadata.json"@),
            report: Event::DoneUpdating,
        }
    }
}

impl Pd2Install {
    /// A run over the published list `files`, with no file handed out yet.
    pub fn new(files: Vec<GameFileMetadata>) -> (r: Pd2Install)
        ensures
            r@.files == files_view(files@),
            r@.next == 0,
    {
        Pd2Install { files, next: 0 }
    }

    /// The published list.
    pub fn files(&self) -> (r: &Vec<GameFileMetadata>)
        ensures
            files_view(r@) == self@.files,
    {
        &self.files
    }

    /// Whether every file was handed out.
    pub fn is_done(&self) -> (r: bool)
        ensures
            r == (self@.next >= self@.files.len()),
    {
        self.next >= self.files.len()
    }

    /// The next step of the run; a file step moves the run on to the
    /// following file.
    pub fn step(&mut self, state: &State) -> (r: InstallStep)
        ensures
            r@ == install_step(state@, old(self)@),
            final(self)@.files == old(self)@.files,
            final(self)@.next == if old(self)@.next < old(self)@.files.len() {
                old(self)@.next + 1
            } else {
                old(self)@.next
            },
    {
        if self.next < self.files.len() {
            let index = self.next;
            let report = progress_event(index, self.files.len());
            let path = state.game_file_path(self.files[index].name.as_str());
            assert(files_view(self.files@)[index as int] == self.files@[index as int]@);
            self.next = index + 1;
            InstallStep::File { report, path, index }
        } else {
            InstallStep::Finish { record: state.local_metadata_path(), report: Event::DoneUpdating }
        }
    }
}

/// The reports of an update run over `n` files: one progress report for
/// each file, counting up from 0 with the total `n`, then the final report.
pub open spec fn run_reports(s: StateModel, files: Seq<FileModel>, from: nat) -> Seq<Event>
    decreases files.len() - from,
{
    if from < files.len() {
        seq![Event::UpdatingPD2 { done: from as u32, total: files.len() as u32 }] + run_reports(
            s,
            files,
            from + 1,
        )
    } else {
        seq![Event::DoneUpdating]
    }
}

/// Taking the steps of an update run from file `from` on reports, in order,
/// the progress of each remaining file and then that the run is done.
pub proof fn lemma_run_reports(s: StateModel, files: Seq<FileModel>, from: nat)
    ensures
        install_step(s, InstallModel { files, next: from }) matches StepModel::File { report, .. }
            ==> seq![report] + run_reports(s, files, from + 1) == run_reports(s, files, from),
        install_step(s, InstallModel { files, next: from }) matches StepModel::Finish { report, .. }
            ==> seq![report] == run_reports(s, files, from),
        run_reports(s, files, 0).len() == files.len() + 1,
{
    lemma_run_reports_len(s, files, 0);
}

/// An update run from file `from` on makes one report per remaining file
/// and one more.
proof fn lemma_run_reports_len(s: StateModel, files: Seq<FileModel>, from: nat)
    ensures
        run_reports(s, files, from).len() == if from < files.len() {
            files.len() - from + 1
        } else {
            1
        },
    decreases files.len() - from,
{
    if from < files.len() {
        lemma_run_reports_len(s, files, from + 1);
    }
}

/// An update is called for exactly when the record of the installed files
/// differs from the published list in its length or in some entry, and
/// always when there is no record.
pub proof fn lemma_update_when_record_differs(l: Seq<FileModel>, r: Seq<FileModel>)
    ensures
        outdated(Some(l), r) <==> (l.len() != r.len() || exists|i: int|
            0 <= i < l.len() && #[trigger] l[i] != r[i]),
        outdated(None, r),
{
    if l.len() == r.len() && !(exists|i: int| 0 <= i < l.len() && #[trigger] l[i] != r[i]) {
        assert(l =~= r);
    }
    if exists|i: int| 0 <= i < l.len() && #[trigger] l[i] != r[i] {
        let i = choose|i: int| 0 <= i < l.len() && #[trigger] l[i] != r[i];
        assert(l[i] != r[i]);
    }
}

/// Every file of a run is written under its own name into the Project
/// Diablo 2 directory, `Diablo II/ProjectD2` inside the game directory, after
/// a report of how many of how many files were handled; once all files were
/// handed out, the list is recorded there as `local_metadata.json` and the
/// end of the update is reported.
pub proof fn lemma_files_go_to_the_pd2_dir(s: StateModel, m: InstallModel)
    ensures
        install_step(s, m) matches StepModel::File { path, index, report } ==> index == m.next
            && index < m.files.len() && report == (Event::UpdatingPD2 {
            done: index as u32,
            total: m.files.len() as u32,
        }) && path == s.game_files + seq![
            "Diablo II"@,
            "ProjectD2"@,
            m.files[index as int].name,
        ],
        install_step(s, m) matches StepModel::Finish { record, report } ==> m.next >= m.files.len()
            && report == Event::DoneUpdating && record == s.game_files + seq!["Diablo II"@, "ProjectD2"@, "local_metadata.json"@],
{
    if m.next < m.files.len() {
        assert(pd2_dir_of(s).push(m.files[m.next as int].name) =~= s.game_files + seq![
            "Diablo II"@,
            "ProjectD2"@,
            m.files[m.next as int].name,
        ]);
    } else {
        assert(pd2_dir_of(s).push("local_metadata.json"@) =~= s.game_files + seq![
            "Diablo II"@,
            "ProjectD2"@,
            "local_metadata.json"@,
        ]);
    }
}

} // verus!
