//! Loot filters: the groups they are published in, the files they are kept
//! in, and the listings they are found in.
use vstd::prelude::*;
use crate::error::Error;
use crate::text::{concat_str, ends_with, has_suffix, owned, replace_char, replaced};

verus! {

/// Where the list of filter groups is published.
pub const FILTER_GROUPS_LIST: &'static str =
    "https://raw.githubusercontent.com/Project-Diablo-2/LootFilters/refs/heads/main/filters.json";

/// The contents of a filter group.
pub struct GroupModel {
    pub name: Seq<char>,
    pub url: Seq<char>,
    pub author: Seq<char>,
}

/// The contents of a filter.
pub struct FilterModel {
    pub grouping: GroupModel,
    pub name: Seq<char>,
    pub url: Seq<char>,
    pub sha: Seq<char>,
}

/// A group of filters, as one author publishes them.
#[derive(Clone, Debug, Default, PartialEq, Eq, Hash)]
pub struct FilterGroup {
    pub name: String,
    pub url: String,
    pub author: String,
}

/// One loot filter.
#[derive(Clone, Debug, PartialEq, Eq, Hash)]
pub struct Filter {
    pub grouping: FilterGroup,
    pub name: String,
    pub url: String,
    pub sha: String,
}

impl View for FilterGroup {
    type V = GroupModel;

    open spec fn view(&self) -> GroupModel {
        GroupModel { name: self.name@, url: self.url@, author: self.author@ }
    }
}

impl View for Filter {
    type V = FilterModel;

    open spec fn view(&self) -> FilterModel {
        FilterModel { grouping: self.grouping@, name: self.name@, url: self.url@, sha: self.sha@ }
    }
}

/// The group that stands for the filters the user keeps by hand.
pub open spec fn local_group() -> GroupModel {
    GroupModel { name: "Local"@, url: "n/a"@, author: "local"@ }
}

/// The contents of a sequence of groups.
pub open spec fn groups_view(v: Seq<FilterGroup>) -> Seq<GroupModel> {
    v.map_values(|g: FilterGroup| g@)
}

/// The contents of a sequence of filters.
pub open spec fn filters_view(v: Seq<Filter>) -> Seq<FilterModel> {
    v.map_values(|f: Filter| f@)
}

/// The name under which a downloaded filter is stored: the group's name and
/// the filter's name, each with spaces turned into underscores, joined by a
/// hyphen.
pub open spec fn filename_of(f: FilterModel) -> Seq<char> {
    replaced(f.grouping.name, ' ', '_') + "-"@ + replaced(f.name, ' ', '_')
}

impl FilterGroup {
    /// The group of the filters the user keeps by hand.
    pub fn local() -> (r: FilterGroup)
        ensures
            r@ == local_group(),
    {
        FilterGroup { name: owned("Local"), url: owned("n/a"), author: owned("local") }
    }

    /// Whether this is the group of the filters the user keeps by hand.
    pub fn is_local(&self) -> (r: bool)
        ensures
            r == (self@ == local_group()),
    {
        let local = FilterGroup::local();
        self.same_as(&local)
    }

    /// Whether the two groups hold the same name, address and author.
    pub fn same_as(&self, other: &FilterGroup) -> (r: bool)
        ensures
            r == (self@ == other@),
    {
        self.name == other.name && self.url == other.url && self.author == other.author
    }

    /// A copy of this group.
    pub fn duplicate(&self) -> (r: FilterGroup)
        ensures
            r@ == self@,
    {
        FilterGroup { name: self.name.clone(), url: self.url.clone(), author: self.author.clone() }
    }
}

impl Filter {
    /// The name of the file in which this filter is kept once downloaded.
    pub fn get_filename(&self) -> (r: String)
        ensures
            r@ == filename_of(self@),
    {
        let group = replace_char(self.grouping.name.as_str(), ' ', '_');
        let name = replace_char(self.name.as_str(), ' ', '_');
        let head = concat_str(group.as_str(), "-");
        concat_str(head.as_str(), name.as_str())
    }

    /// Whether the two filters agree in every field.
    pub fn same_as(&self, other: &Filter) -> (r: bool)
        ensures
            r == (self@ == other@),
    {
        self.grouping.same_as(&other.grouping) && self.name == other.name && self.url == other.url
            && self.sha == other.sha
    }

    /// A copy of this filter.
    pub fn duplicate(&self) -> (r: Filter)
        ensures
            r@ == self@,
    {
        Filter {
            grouping: self.grouping.duplicate(),
            name: self.name.clone(),
            url: self.url.clone(),
            sha: self.sha.clone(),
        }
    }
}

/// The groups offered to the user: the local group first, then the groups
/// published online, or none of those where the published list could not be
/// read.
pub fn with_local_group(online: Option<Vec<FilterGroup>>) -> (r: Vec<FilterGroup>)
    ensures
        groups_view(r@) == seq![local_group()] + match online {
            Some(v) => groups_view(v@),
            None => Seq::<GroupModel>::empty(),
        },
{
    let mut out: Vec<FilterGroup> = Vec::new();
    out.push(FilterGroup::local());
    match online {
        Some(mut v) => {
            let ghost before = out@;
            let ghost added = v@;
            out.append(&mut v);
            assert(groups_view(out@) =~= groups_view(before) + groups_view(added));
        },
        None => {},
    }
    assert(groups_view(out@) =~= seq![local_group()] + match online {
        Some(v) => groups_view(v@),
        None => Seq::<GroupModel>::empty(),
    });
    out
}

/// An entry of a directory listing: its file name, where it is valid
/// Unicode, and whether it is a regular file.
#[derive(Clone, Debug)]
pub struct DirEntry {
    pub file_name: Option<String>,
    pub is_file: bool,
}

/// What a directory entry tells: its name, where it has one, and whether it
/// is a regular file.
pub open spec fn entry_view(e: DirEntry) -> (Option<Seq<char>>, bool) {
    (
        match e.file_name {
            Some(n) => Some(n@),
            None => None,
        },
        e.is_file,
    )
}

/// The local filter kept in the file named `name`.
pub open spec fn local_filter(name: Seq<char>) -> FilterModel {
    FilterModel { grouping: local_group(), name, url: "n/a"@, sha: "n/a"@ }
}

/// The local filters that a directory listing holds, in listing order: one
/// for each regular file whose name ends in `.filter`; nothing where some
/// entry has no readable name.
pub open spec fn local_listing(entries: Seq<(Option<Seq<char>>, bool)>) -> Option<Seq<FilterModel>>
    decreases entries.len(),
{
    if entries.len() == 0 {
        Some(Seq::empty())
    } else {
        match local_listing(entries.drop_last()) {
            None => None,
            Some(found) => {
                let (name, is_file) = entries.last();
                match name {
                    None => None,
                    Some(n) => if is_file && has_suffix(n, ".filter"@) {
                        Some(found.push(local_filter(n)))
                    } else {
                        Some(found)
                    },
                }
            },
        }
    }
}

/// The filters that a listing of the local filter directory holds.
pub fn local_filters(entries: &Vec<DirEntry>) -> (r: Result<Vec<Filter>, Error>)
    ensures
        match local_listing(entries@.map_values(|e: DirEntry| entry_view(e))) {
            Some(found) => r matches Ok(v) && filters_view(v@) == found,
            None => r matches Err(Error::FailedToParseFilename),
        },
{
    let ghost views = entries@.map_values(|e: DirEntry| entry_view(e));
    let mut out: Vec<Filter> = Vec::new();
    let mut i: usize = 0;
    while i < entries.len()
        invariant
            0 <= i <= entries.len(),
            views == entries@.map_values(|e: DirEntry| entry_view(e)),
            local_listing(views.take(i as int)) == Some(filters_view(out@)),
        decreases entries.len() - i,
    {
        assert(views.take(i + 1).drop_last() =~= views.take(i as int));
        let entry = &entries[i];
        match &entry.file_name {
            None => {
                proof {
                    lemma_listing_fails_from(views, i + 1);
                }
                return Err(Error::FailedToParseFilename);
            },
            Some(name) => {
                if entry.is_file && ends_with(name.as_str(), ".filter") {
                    let f = Filter {
                        grouping: FilterGroup::local(),
                        name: name.clone(),
                        url: owned("n/a"),
                        sha: owned("n/a"),
                    };
                    let ghost before = out@;
                    out.push(f);
                    assert(filters_view(out@) =~= filters_view(before).push(local_filter(name@)));
                }
            },
        }
        i = i + 1;
    }
    assert(views.take(entries.len() as int) =~= views);
    Ok(out)
}

/// Once a prefix of a listing has an entry without a readable name, so has
/// every longer prefix.
proof fn lemma_listing_fails_from(views: Seq<(Option<Seq<char>>, bool)>, k: int)
    requires
        0 <= k <= views.len(),
        local_listing(views.take(k)) is None,
    ensures
        local_listing(views) is None,
    decreases views.len() - k,
{
    if k < views.len() {
        assert(views.take(k + 1).drop_last() =~= views.take(k));
        lemma_listing_fails_from(views, k + 1);
    } else {
        assert(views.take(k) =~= views);
    }
}

/// The links of a repository entry, as the repository API gives them.
#[derive(Clone, Debug)]
pub struct GhLinksField {
    pub self_field: String,
    pub git: String,
    pub html: String,
}

/// One entry of a repository directory listing, as the repository API gives it.
#[derive(Clone, Debug)]
pub struct GhResp {
    pub name: String,
    pub path: String,
    pub sha: String,
    pub size: u32,
    pub url: String,
    pub html_url: String,
    pub download_url: Option<String>,
    pub type_field: String,
    pub _links: GhLinksField,
}

/// What the filter listing reads of a repository entry: its name, its
/// version hash, its download address and its kind.
pub struct EntryModel {
    pub name: Seq<char>,
    pub sha: Seq<char>,
    pub download_url: Option<Seq<char>>,
    pub type_field: Seq<char>,
}

/// What the filter listing reads of `e`.
pub open spec fn gh_view(e: GhResp) -> EntryModel {
    EntryModel {
        name: e.name@,
        sha: e.sha@,
        download_url: match e.download_url {
            Some(u) => Some(u@),
            None => None,
        },
        type_field: e.type_field@,
    }
}

/// The filter of `group` that the repository entry `e` offers, if it offers
/// one: a file whose name ends in `.filter` and that can be downloaded. Its
/// name has underscores turned into hyphens.
pub open spec fn offered_filter(group: GroupModel, e: EntryModel) -> Option<FilterModel> {
    if e.type_field == "file"@ && has_suffix(e.name, ".filter"@) {
        match e.download_url {
            Some(url) => Some(
                FilterModel { grouping: group, name: replaced(e.name, '_', '-'), url, sha: e.sha },
            ),
            None => None,
        }
    } else {
        None
    }
}

/// The filters of `group` that a repository listing offers, in listing order.
pub open spec fn online_listing(group: GroupModel, entries: Seq<EntryModel>) -> Seq<FilterModel>
    decreases entries.len(),
{
    if entries.len() == 0 {
        Seq::empty()
    } else {
        let found = online_listing(group, entries.drop_last());
        match offered_filter(group, entries.last()) {
            Some(f) => found.push(f),
            None => found,
        }
    }
}

/// The filters of `group` that the repository listing `entries` offers.
pub fn online_filters(group: &FilterGroup, entries: &Vec<GhResp>) -> (r: Vec<Filter>)
    ensures
        filters_view(r@) == online_listing(group@, entries@.map_values(|e: GhResp| gh_view(e))),
{
    let ghost views = entries@.map_values(|e: GhResp| gh_view(e));
    let mut out: Vec<Filter> = Vec::new();
    let mut i: usize = 0;
    while i < entries.len()
        invariant
            0 <= i <= entries.len(),
            views == entries@.map_values(|e: GhResp| gh_view(e)),
            online_listing(group@, views.take(i as int)) == filters_view(out@),
        decreases entries.len() - i,
    {
        assert(views.take(i + 1).drop_last() =~= views.take(i as int));
        let e = &entries[i];
        let is_file = e.type_field == owned("file");
        if is_file && ends_with(e.name.as_str(), ".filter") {
            match &e.download_url {
                Some(url) => {
                    let f = Filter {
                        grouping: group.duplicate(),
                        name: replace_char(e.name.as_str(), '_', '-'),
                        url: url.clone(),
                        sha: e.sha.clone(),
                    };
                    let ghost before = out@;
                    out.push(f);
                    assert(filters_view(out@) =~= filters_view(before).push(f@));
                },
                None => {},
            }
        }
        i = i + 1;
    }
    assert(views.take(entries.len() as int) =~= views);
    out
}

/// Whether some filter of a fresh listing has the name of `filter` and a
/// different version hash.
pub open spec fn update_listed(online: Seq<FilterModel>, filter: FilterModel) -> bool {
    exists|i: int| 0 <= i < online.len() && online[i].name == filter.name && online[i].sha != filter.sha
}

/// Whether a fresh listing offers a newer version of `filter`.
pub fn has_update(online: &Vec<Filter>, filter: &Filter) -> (r: bool)
    ensures
        r == update_listed(filters_view(online@), filter@),
{
    let mut i: usize = 0;
    while i < online.len()
        invariant
            0 <= i <= online.len(),
            forall|j: int| 0 <= j < i ==> !(online@[j].name@ == filter.name@ && online@[j].sha@ != filter.sha@),
        decreases online.len() - i,
    {
        if online[i].name == filter.name && !(online[i].sha == filter.sha) {
            assert(filters_view(online@)[i as int] == online@[i as int]@);
            return true;
        }
        i = i + 1;
    }
    assert forall|j: int| 0 <= j < online.len() implies !(filters_view(online@)[j].name == filter@.name
        && filters_view(online@)[j].sha != filter@.sha) by {
        assert(filters_view(online@)[j] == online@[j]@);
    }
    false
}

/// The file name of a downloaded filter has no spaces in it.
pub proof fn lemma_filename_has_no_spaces(f: FilterModel)
    ensures
        forall|i: int| 0 <= i < filename_of(f).len() ==> filename_of(f)[i] != ' ',
{
    let a = replaced(f.grouping.name, ' ', '_');
    let b = replaced(f.name, ' ', '_');
    reveal_strlit("-");
    assert("-"@ == seq!['-']);
    assert forall|i: int| 0 <= i < filename_of(f).len() implies filename_of(f)[i] != ' ' by {
        if i < a.len() {
            assert(filename_of(f)[i] == a[i]);
        } else if i == a.len() {
            assert(filename_of(f)[i] == '-');
        } else {
            assert(filename_of(f) == a + "-"@ + b);
            assert(filename_of(f)[i] == b[i - a.len() - 1]);
        }
    }
}

/// Every filter of a local listing belongs to the local group and is kept
/// in a file whose name ends in `.filter`.
pub proof fn lemma_local_listing_is_local(entries: Seq<(Option<Seq<char>>, bool)>)
    ensures
        local_listing(entries) matches Some(found) ==> forall|i: int| 0 <= i < found.len() ==> {
            &&& (#[trigger] found[i]).grouping == local_group()
            &&& has_suffix(found[i].name, ".filter"@)
        },
    decreases entries.len(),
{
    if entries.len() > 0 {
        lemma_local_listing_is_local(entries.drop_last());
    }
}

/// Every filter of an online listing belongs to the listed group, comes with
/// a download address, and has no underscore in its name.
pub proof fn lemma_online_listing_shape(group: GroupModel, entries: Seq<EntryModel>)
    ensures
        forall|i: int| 0 <= i < online_listing(group, entries).len() ==> {
            &&& (#[trigger] online_listing(group, entries)[i]).grouping == group
            &&& forall|j: int| 0 <= j < online_listing(group, entries)[i].name.len()
                ==> online_listing(group, entries)[i].name[j] != '_'
        },
    decreases entries.len(),
{
    if entries.len() > 0 {
        lemma_online_listing_shape(group, entries.drop_last());
        let found = online_listing(group, entries.drop_last());
        match offered_filter(group, entries.last()) {
            Some(f) => {
                assert(f.grouping == group);
                assert forall|j: int| 0 <= j < f.name.len() implies f.name[j] != '_' by {
                    assert(f.name == replaced(entries.last().name, '_', '-'));
                }
                assert(online_listing(group, entries) == found.push(f));
                assert forall|i: int| 0 <= i < found.len() implies found.push(f)[i] == found[i] by {}
            },
            None => {},
        }
    }
}

/// A fresh listing offers an update of a filter only under the filter's own
/// name: a listing in which every filter of that name has the filter's
/// version hash offers none.
pub proof fn lemma_no_update_for_same_version(online: Seq<FilterModel>, filter: FilterModel)
    requires
        forall|i: int| 0 <= i < online.len() && (#[trigger] online[i]).name == filter.name ==> online[i].sha == filter.sha,
    ensures
        !update_listed(online, filter),
{
}

/// A listing offers an update of `filter` whenever any of its entries has
/// the filter's name and a different version hash, and offers none where
/// every entry of that name has the filter's hash.
pub proof fn lemma_update_found_anywhere(online: Seq<FilterModel>, filter: FilterModel, i: int)
    ensures
        0 <= i < online.len() && online[i].name == filter.name && online[i].sha != filter.sha
            ==> update_listed(online, filter),
        (forall|j: int| 0 <= j < online.len() && #[trigger] online[j].name == filter.name
            ==> online[j].sha == filter.sha) ==> !update_listed(online, filter),
{
}

} // verus!
