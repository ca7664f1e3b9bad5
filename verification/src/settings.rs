//! The user's settings: how the game is started and which filters are kept.
use vstd::prelude::*;
use crate::filter::{Filter, FilterModel};
use crate::text::owned;

verus! {

/// The renderer the game uses.
#[allow(non_camel_case_types)]
#[derive(Copy, Clone, Debug, PartialEq, Eq, Structural)]
pub enum GraphicsMode {
    DDRAW,
    _3DFX,
}

/// The name under which a renderer is shown.
pub open spec fn mode_name(m: GraphicsMode) -> Seq<char> {
    match m {
        GraphicsMode::DDRAW => "ddraw"@,
        GraphicsMode::_3DFX => "3dfx"@,
    }
}

impl GraphicsMode {
    /// The name under which this renderer is shown.
    pub fn to_string(&self) -> (r: String)
        ensures
            r@ == mode_name(*self),
    {
        match self {
            GraphicsMode::DDRAW => owned("ddraw"),
            GraphicsMode::_3DFX => owned("3dfx"),
        }
    }
}

/// The bit pattern of the 32-bit floating-point number 1.0, the scale the
/// launcher starts with.
pub const DEFAULT_SCALE_FACTOR_BITS: u32 = 0x3F80_0000u32;

/// The filters kept on disk, each with the file it is kept in.
pub type CacheModel = Seq<(FilterModel, Seq<char>)>;

/// The contents of a list of cached filters.
pub open spec fn cache_view(v: Seq<(Filter, String)>) -> CacheModel {
    v.map_values(|p: (Filter, String)| (p.0@, p.1@))
}

/// No filter is listed twice.
pub open spec fn distinct_keys(c: CacheModel) -> bool {
    forall|i: int, j: int| 0 <= i < j < c.len() ==> c[i].0 != c[j].0
}

/// What a list of cached filters records: for each filter, the entry of the
/// last pair that names it.
pub open spec fn cache_map(c: CacheModel) -> Map<FilterModel, Seq<char>>
    decreases c.len(),
{
    if c.len() == 0 {
        Map::empty()
    } else {
        cache_map(c.drop_last()).insert(c.last().0, c.last().1)
    }
}

/// What the settings hold.
pub struct SettingsModel {
    pub graphics_mode: GraphicsMode,
    pub skiptobnet: bool,
    pub sndbkg: bool,
    pub no_updates: bool,
    pub scale_factor_bits: u32,
    pub downloaded_filters: CacheModel,
    pub active_filter: Option<(FilterModel, Seq<char>)>,
}

/// The contents of an optional active filter.
pub open spec fn active_view(a: Option<(Filter, String)>) -> Option<(FilterModel, Seq<char>)> {
    match a {
        Some(p) => Some((p.0@, p.1@)),
        None => None,
    }
}

/// The user's settings.
///
/// `scale_factor_bits` holds the bit pattern of the launcher's 32-bit
/// floating-point scale factor; `downloaded_filters` maps each cached filter
/// to its file.
#[derive(Clone, Debug)]
pub struct Settings {
    // Launch args
    pub graphics_mode: GraphicsMode,
    pub skiptobnet: bool,
    pub sndbkg: bool,
    pub no_updates: bool,
    // Launcher
    pub scale_factor_bits: u32,
    // I just cache filters here
    pub downloaded_filters: FilterCache,
    pub active_filter: Option<(Filter, String)>,
}

/// The settings as they are written to disk, where a filter may be listed
/// more than once.
#[derive(Clone, Debug)]
pub struct SettingsSerialisable {
    pub graphics_mode: GraphicsMode,
    pub skiptobnet: bool,
    pub sndbkg: bool,
    pub no_updates: bool,
    pub scale_factor_bits: u32,
    pub downloaded_filters: Vec<(Filter, String)>,
    pub active_filter: Option<(Filter, String)>,
}

impl View for Settings {
    type V = SettingsModel;

    open spec fn view(&self) -> SettingsModel {
        SettingsModel {
            graphics_mode: self.graphics_mode,
            skiptobnet: self.skiptobnet,
            sndbkg: self.sndbkg,
            no_updates: self.no_updates,
            scale_factor_bits: self.scale_factor_bits,
            downloaded_filters: self.downloaded_filters@,
            active_filter: active_view(self.active_filter),
        }
    }
}

impl View for SettingsSerialisable {
    type V = SettingsModel;

    open spec fn view(&self) -> SettingsModel {
        SettingsModel {
            graphics_mode: self.graphics_mode,
            skiptobnet: self.skiptobnet,
            sndbkg: self.sndbkg,
            no_updates: self.no_updates,
            scale_factor_bits: self.scale_factor_bits,
            downloaded_filters: cache_view(self.downloaded_filters@),
            active_filter: active_view(self.active_filter),
        }
    }
}

/// The settings a new installation starts with.
pub open spec fn default_settings() -> SettingsModel {
    SettingsModel {
        graphics_mode: GraphicsMode::_3DFX,
        skiptobnet: true,
        sndbkg: false,
        no_updates: false,
        scale_factor_bits: DEFAULT_SCALE_FACTOR_BITS,
        downloaded_filters: Seq::empty(),
        active_filter: None,
    }
}

/// The command-line flags that start the game as `m` describes.
pub open spec fn launch_args(m: SettingsModel) -> Seq<Seq<char>> {
    let mode = match m.graphics_mode {
        GraphicsMode::DDRAW => "-ddraw"@,
        GraphicsMode::_3DFX => "-3dfx"@,
    };
    let with_bnet = if m.skiptobnet {
        seq![mode, "-skiptobnet"@]
    } else {
        seq![mode]
    };
    if m.sndbkg {
        with_bnet.push("-sndbkg"@)
    } else {
        with_bnet
    }
}

impl Default for Settings {
    fn default() -> (r: Settings)
        ensures
            r@ == default_settings(),
    {
        let r = Settings {
            graphics_mode: GraphicsMode::_3DFX,
            skiptobnet: true,
            sndbkg: false,
            no_updates: false,
            scale_factor_bits: DEFAULT_SCALE_FACTOR_BITS,
            downloaded_filters: FilterCache::new(),
            active_filter: None,
        };
        r
    }
}

/// A copy of an optional active filter.
fn copy_active(a: &Option<(Filter, String)>) -> (r: Option<(Filter, String)>)
    ensures
        active_view(r) == active_view(*a),
{
    match a {
        Some(p) => Some((p.0.duplicate(), p.1.clone())),
        None => None,
    }
}

/// Where `key` stands in `cache`, if it does.
fn find_filter(cache: &Vec<(Filter, String)>, key: &Filter) -> (r: Option<usize>)
    ensures
        match r {
            Some(j) => j < cache@.len() && cache_view(cache@)[j as int].0 == key@,
            None => forall|j: int| 0 <= j < cache@.len() ==> cache_view(cache@)[j].0 != key@,
        },
{
    let mut i: usize = 0;
    while i < cache.len()
        invariant
            0 <= i <= cache@.len(),
            forall|j: int| 0 <= j < i ==> cache_view(cache@)[j].0 != key@,
        decreases cache.len() - i,
    {
        if cache[i].0.same_as(key) {
            return Some(i);
        }
        i = i + 1;
    }
    None
}

/// The list of cached filters after `entry` is recorded for `key`: it
/// replaces the entry of `key` where `key` is listed, and is added at the end
/// where it is not.
pub open spec fn record_filter(c: CacheModel, key: FilterModel, entry: Seq<char>) -> CacheModel {
    if exists|j: int| 0 <= j < c.len() && c[j].0 == key {
        let j = choose|j: int| 0 <= j < c.len() && c[j].0 == key;
        c.update(j, (key, entry))
    } else {
        c.push((key, entry))
    }
}

/// The cached filters that a list read from disk amounts to: each pair is
/// recorded in turn, so that a later entry of a filter replaces an earlier
/// one, and each filter keeps the place of its first pair.
pub open spec fn dedup_cache(c: CacheModel) -> CacheModel
    decreases c.len(),
{
    if c.len() == 0 {
        Seq::empty()
    } else {
        record_filter(dedup_cache(c.drop_last()), c.last().0, c.last().1)
    }
}

/// The settings that the record `m` read from disk amounts to: its fields,
/// with repeated filters merged.
pub open spec fn read_back(m: SettingsModel) -> SettingsModel {
    SettingsModel { downloaded_filters: dedup_cache(m.downloaded_filters), ..m }
}

/// Writing a new entry over the entry of a filter changes what the list
/// records for that filter and nothing else.
proof fn lemma_cache_update(c: CacheModel, j: int, v: Seq<char>)
    requires
        distinct_keys(c),
        0 <= j < c.len(),
    ensures
        cache_map(c.update(j, (c[j].0, v))) == cache_map(c).insert(c[j].0, v),
    decreases c.len(),
{
    let u = c.update(j, (c[j].0, v));
    if j == c.len() - 1 {
        assert(u.drop_last() =~= c.drop_last());
        assert(cache_map(u) =~= cache_map(c).insert(c[j].0, v));
    } else {
        assert(u.drop_last() =~= c.drop_last().update(j, (c[j].0, v)));
        lemma_cache_update(c.drop_last(), j, v);
        assert(c.last().0 != c[j].0);
        assert(cache_map(u) =~= cache_map(c).insert(c[j].0, v));
    }
}

/// Recording an entry keeps a list free of repeated filters, and records
/// exactly that entry for its filter.
proof fn lemma_record_filter(c: CacheModel, key: FilterModel, entry: Seq<char>)
    requires
        distinct_keys(c),
    ensures
        distinct_keys(record_filter(c, key, entry)),
        cache_map(record_filter(c, key, entry)) == cache_map(c).insert(key, entry),
{
    if exists|j: int| 0 <= j < c.len() && c[j].0 == key {
        let j = choose|j: int| 0 <= j < c.len() && c[j].0 == key;
        lemma_cache_update(c, j, entry);
    } else {
        let r = c.push((key, entry));
        assert(r.drop_last() =~= c);
    }
}

/// The cached filters read from disk name each filter once.
pub proof fn lemma_dedup_distinct(c: CacheModel)
    ensures
        distinct_keys(dedup_cache(c)),
        cache_map(dedup_cache(c)) == cache_map(c),
    decreases c.len(),
{
    if c.len() > 0 {
        lemma_dedup_distinct(c.drop_last());
        lemma_record_filter(dedup_cache(c.drop_last()), c.last().0, c.last().1);
    }
}

/// A list that names each filter once is read back unchanged.
pub proof fn lemma_dedup_identity(c: CacheModel)
    requires
        distinct_keys(c),
    ensures
        dedup_cache(c) == c,
    decreases c.len(),
{
    if c.len() > 0 {
        let p = c.drop_last();
        assert forall|a: int, b: int| 0 <= a < b < p.len() implies p[a].0 != p[b].0 by {
            assert(p[a] == c[a] && p[b] == c[b]);
        }
        lemma_dedup_identity(p);
        assert forall|j: int| 0 <= j < p.len() implies p[j].0 != c.last().0 by {
            assert(p[j] == c[j]);
        }
        assert(p.push(c.last()) =~= c);
    }
}

/// Every filter that a list records is listed in it, with the entry of
/// its pair, where the list names each filter once.
proof fn lemma_cache_map_entries(c: CacheModel)
    requires
        distinct_keys(c),
    ensures
        forall|i: int| 0 <= i < c.len() ==> #[trigger] cache_map(c).contains_key(c[i].0) && cache_map(
            c,
        )[c[i].0] == c[i].1,
        forall|k: FilterModel| #[trigger] cache_map(c).contains_key(k) ==> exists|i: int|
            0 <= i < c.len() && c[i].0 == k,
    decreases c.len(),
{
    if c.len() > 0 {
        let p = c.drop_last();
        assert forall|a: int, b: int| 0 <= a < b < p.len() implies p[a].0 != p[b].0 by {
            assert(p[a] == c[a] && p[b] == c[b]);
        }
        lemma_cache_map_entries(p);
        assert forall|i: int| 0 <= i < c.len() implies #[trigger] cache_map(c).contains_key(c[i].0)
            && cache_map(c)[c[i].0] == c[i].1 by {
            if i < c.len() - 1 {
                assert(c[i] == p[i]);
                assert(cache_map(p).contains_key(p[i].0));
                assert(c[i].0 != c.last().0);
            }
        }
        assert forall|k: FilterModel| #[trigger] cache_map(c).contains_key(k) implies exists|i: int|
            0 <= i < c.len() && c[i].0 == k by {
            if k != c.last().0 {
                assert(cache_map(p).contains_key(k));
                let i = choose|i: int| 0 <= i < p.len() && p[i].0 == k;
                assert(c[i] == p[i]);
            } else {
                assert(c[c.len() - 1].0 == k);
            }
        }
    }
}

/// A copy of a list of cached filters.
fn copy_pairs(v: &Vec<(Filter, String)>) -> (r: Vec<(Filter, String)>)
    ensures
        cache_view(r@) == cache_view(v@),
{
    let mut out: Vec<(Filter, String)> = Vec::new();
    let mut i: usize = 0;
    while i < v.len()
        invariant
            0 <= i <= v.len(),
            out@.len() == i,
            forall|j: int| 0 <= j < i ==> cache_view(out@)[j] == cache_view(v@)[j],
        decreases v.len() - i,
    {
        let ghost before = out@;
        out.push((v[i].0.duplicate(), v[i].1.clone()));
        assert forall|j: int| 0 <= j < i + 1 implies cache_view(out@)[j] == cache_view(v@)[j] by {
            if j < i {
                assert(out@[j] == before[j]);
            }
        }
        i = i + 1;
    }
    assert(cache_view(out@) =~= cache_view(v@));
    out
}

/// The filters kept on disk, each with the file it is kept in; no filter is
/// listed twice.
#[derive(Debug)]
pub struct FilterCache {
    entries: Vec<(Filter, String)>,
}

impl View for FilterCache {
    type V = CacheModel;

    closed spec fn view(&self) -> CacheModel {
        cache_view(self.entries@)
    }
}

impl FilterCache {
    /// No filter is listed twice.
    #[verifier::type_invariant]
    spec fn distinct(self) -> bool {
        distinct_keys(cache_view(self.entries@))
    }

    /// A cache with no filters.
    pub fn new() -> (r: FilterCache)
        ensures
            r@ == Seq::<(FilterModel, Seq<char>)>::empty(),
    {
        let r = FilterCache { entries: Vec::new() };
        assert(r@ =~= Seq::<(FilterModel, Seq<char>)>::empty());
        r
    }

    /// The cache that the pairs `pairs` amount to: where a filter is listed
    /// more than once, its last entry counts, at the place of its first.
    pub fn from_pairs(pairs: &Vec<(Filter, String)>) -> (r: FilterCache)
        ensures
            r@ == dedup_cache(cache_view(pairs@)),
    {
        let ghost inv = cache_view(pairs@);
        let mut out: Vec<(Filter, String)> = Vec::new();
        let mut i: usize = 0;
        while i < pairs.len()
            invariant
                0 <= i <= pairs@.len(),
                inv == cache_view(pairs@),
                cache_view(out@) == dedup_cache(inv.take(i as int)),
            decreases pairs.len() - i,
        {
            let key = pairs[i].0.duplicate();
            let entry = pairs[i].1.clone();
            let ghost before = cache_view(out@);
            proof {
                assert(inv.take(i + 1).drop_last() =~= inv.take(i as int));
                assert(inv.take(i + 1).last() == (key@, entry@));
                lemma_dedup_distinct(inv.take(i as int));
            }
            match find_filter(&out, &key) {
                Some(j) => {
                    proof {
                        let c = choose|c: int| 0 <= c < before.len() && before[c].0 == key@;
                        assert(c == j);
                    }
                    out.set(j, (key, entry));
                    assert(cache_view(out@) =~= before.update(j as int, (key@, entry@)));
                },
                None => {
                    out.push((key, entry));
                    assert(cache_view(out@) =~= before.push((key@, entry@)));
                },
            }
            i = i + 1;
        }
        assert(inv.take(pairs.len() as int) =~= inv);
        proof {
            lemma_dedup_distinct(inv);
        }
        FilterCache { entries: out }
    }

    /// The cached filters with their files, each filter once.
    pub fn entries(&self) -> (r: &Vec<(Filter, String)>)
        ensures
            cache_view(r@) == self@,
            distinct_keys(self@),
    {
        proof {
            use_type_invariant(self);
        }
        &self.entries
    }

    /// The cached filters with their files, each filter once.
    pub fn into_pairs(self) -> (r: Vec<(Filter, String)>)
        ensures
            cache_view(r@) == self@,
            distinct_keys(self@),
    {
        proof {
            use_type_invariant(&self);
        }
        self.entries
    }

    /// The number of cached filters.
    pub fn len(&self) -> (r: usize)
        ensures
            r == self@.len(),
    {
        self.entries.len()
    }

    /// Records that `filter` is kept in `file`: the entry of `filter` is
    /// replaced where it is cached, and added at the end where it is not.
    pub fn insert(&mut self, filter: Filter, file: String)
        ensures
            final(self)@ == record_filter(old(self)@, filter@, file@),
            cache_map(final(self)@) == cache_map(old(self)@).insert(filter@, file@),
    {
        proof {
            use_type_invariant(&*self);
            lemma_record_filter(self@, filter@, file@);
        }
        let ghost before = self@;
        let mut entries = copy_pairs(&self.entries);
        match find_filter(&entries, &filter) {
            Some(j) => {
                proof {
                    let c = choose|c: int| 0 <= c < before.len() && before[c].0 == filter@;
                    assert(c == j);
                }
                entries.set(j, (filter, file));
                assert(cache_view(entries@) =~= before.update(j as int, (filter@, file@)));
            },
            None => {
                entries.push((filter, file));
                assert(cache_view(entries@) =~= before.push((filter@, file@)));
            },
        }
        self.entries = entries;
    }

    /// The file `filter` is kept in, where it is cached.
    pub fn get(&self, filter: &Filter) -> (r: Option<&String>)
        ensures
            match r {
                Some(f) => cache_map(self@).contains_key(filter@) && cache_map(self@)[filter@] == f@,
                None => !cache_map(self@).contains_key(filter@),
            },
    {
        proof {
            use_type_invariant(self);
            lemma_cache_map_entries(self@);
        }
        match find_filter(&self.entries, filter) {
            Some(j) => {
                assert(self@[j as int] == (self.entries@[j as int].0@, self.entries@[j as int].1@));
                assert(cache_map(self@).contains_key(self@[j as int].0));
                Some(&self.entries[j].1)
            },
            None => {
                proof {
                    if cache_map(self@).contains_key(filter@) {
                        let i = choose|i: int| 0 <= i < self@.len() && self@[i].0 == filter@;
                        assert(self@[i].0 != filter@);
                    }
                }
                None
            },
        }
    }

    /// Whether every filter of `self` is cached in `other` with the same file.
    fn within(&self, other: &FilterCache) -> (r: bool)
        ensures
            r == forall|k: FilterModel| #[trigger] cache_map(self@).contains_key(k) ==> cache_map(
                other@,
            ).contains_key(k) && cache_map(other@)[k] == cache_map(self@)[k],
    {
        proof {
            use_type_invariant(self);
            use_type_invariant(other);
            lemma_cache_map_entries(self@);
            lemma_cache_map_entries(other@);
        }
        let mut i: usize = 0;
        while i < self.entries.len()
            invariant
                0 <= i <= self@.len(),
                self@ == cache_view(self.entries@),
                distinct_keys(self@),
                distinct_keys(other@),
                forall|j: int| 0 <= j < self@.len() ==> #[trigger] cache_map(self@).contains_key(
                    self@[j].0,
                ) && cache_map(self@)[self@[j].0] == self@[j].1,
                forall|j: int| 0 <= j < other@.len() ==> #[trigger] cache_map(other@).contains_key(
                    other@[j].0,
                ) && cache_map(other@)[other@[j].0] == other@[j].1,
                forall|k: FilterModel| #[trigger] cache_map(other@).contains_key(k) ==> exists|j: int|
                    0 <= j < other@.len() && other@[j].0 == k,
                forall|j: int| 0 <= j < i ==> cache_map(other@).contains_key(#[trigger] self@[j].0)
                    && cache_map(other@)[self@[j].0] == self@[j].1,
            decreases self.entries.len() - i,
        {
            let key = &self.entries[i].0;
            assert(self@[i as int] == (key@, self.entries@[i as int].1@));
            assert(cache_map(self@).contains_key(self@[i as int].0));
            match other.get(key) {
                Some(f) => {
                    if !(*f == self.entries[i].1) {
                        return false;
                    }
                },
                None => {
                    return false;
                },
            }
            i = i + 1;
        }
        assert forall|k: FilterModel| #[trigger] cache_map(self@).contains_key(k) implies cache_map(
            other@,
        ).contains_key(k) && cache_map(other@)[k] == cache_map(self@)[k] by {
            lemma_cache_map_entries(self@);
            let j = choose|j: int| 0 <= j < self@.len() && self@[j].0 == k;
            assert(cache_map(other@).contains_key(self@[j].0));
        }
        true
    }

    /// Whether the two caches record the same file for the same filters, in
    /// whatever order they list them.
    pub fn same_as(&self, other: &FilterCache) -> (r: bool)
        ensures
            r == (cache_map(self@) == cache_map(other@)),
    {
        let a = self.within(other);
        let b = other.within(self);
        if a && b {
            assert(cache_map(self@) =~= cache_map(other@));
        }
        a && b
    }
}

impl Clone for FilterCache {
    fn clone(&self) -> (r: FilterCache)
        ensures
            r@ == self@,
    {
        proof {
            use_type_invariant(self);
        }
        FilterCache { entries: copy_pairs(&self.entries) }
    }
}

impl PartialEq for FilterCache {
    fn eq(&self, other: &Self) -> (r: bool) {
        self.same_as(other)
    }
}

impl vstd::std_specs::cmp::PartialEqSpecImpl for FilterCache {
    open spec fn obeys_eq_spec() -> bool {
        true
    }

    open spec fn eq_spec(&self, other: &Self) -> bool {
        cache_map(self@) == cache_map(other@)
    }
}

/// Whether two 32-bit floating-point numbers, given by their bit patterns,
/// compare equal: neither is a NaN (all exponent bits set and a nonzero
/// fraction), and they are the same number, where `+0` and `-0` are the same.
pub open spec fn scale_factors_equal(a: u32, b: u32) -> bool {
    let a_nan = a & 0x7f80_0000u32 == 0x7f80_0000u32 && a & 0x007f_ffffu32 != 0;
    let b_nan = b & 0x7f80_0000u32 == 0x7f80_0000u32 && b & 0x007f_ffffu32 != 0;
    !a_nan && !b_nan && (a == b || (a & 0x7fff_ffffu32 == 0 && b & 0x7fff_ffffu32 == 0))
}

/// Whether the scale factors with the bit patterns `a` and `b` compare equal.
fn scale_factor_eq(a: u32, b: u32) -> (r: bool)
    ensures
        r == scale_factors_equal(a, b),
{
    let a_nan = a & 0x7f80_0000u32 == 0x7f80_0000u32 && a & 0x007f_ffffu32 != 0;
    let b_nan = b & 0x7f80_0000u32 == 0x7f80_0000u32 && b & 0x007f_ffffu32 != 0;
    !a_nan && !b_nan && (a == b || (a & 0x7fff_ffffu32 == 0 && b & 0x7fff_ffffu32 == 0))
}

/// Whether the two optional active filters are the same.
fn active_eq(a: &Option<(Filter, String)>, b: &Option<(Filter, String)>) -> (r: bool)
    ensures
        r == (active_view(*a) == active_view(*b)),
{
    match (a, b) {
        (None, None) => true,
        (Some(x), Some(y)) => x.0.same_as(&y.0) && x.1 == y.1,
        _ => false,
    }
}

/// Whether the two settings agree: the same switches, equal scale factors
/// (compared as floating-point numbers), the same cached filters with the
/// same files in whatever order, and the same active filter.
pub open spec fn settings_equal(a: SettingsModel, b: SettingsModel) -> bool {
    &&& a.graphics_mode == b.graphics_mode
    &&& a.skiptobnet == b.skiptobnet
    &&& a.sndbkg == b.sndbkg
    &&& a.no_updates == b.no_updates
    &&& scale_factors_equal(a.scale_factor_bits, b.scale_factor_bits)
    &&& cache_map(a.downloaded_filters) == cache_map(b.downloaded_filters)
    &&& a.active_filter == b.active_filter
}

impl PartialEq for Settings {
    fn eq(&self, other: &Self) -> (r: bool) {
        self.graphics_mode == other.graphics_mode && self.skiptobnet == other.skiptobnet
            && self.sndbkg == other.sndbkg && self.no_updates == other.no_updates
            && scale_factor_eq(self.scale_factor_bits, other.scale_factor_bits)
            && self.downloaded_filters.same_as(&other.downloaded_filters)
            && active_eq(&self.active_filter, &other.active_filter)
    }
}

impl vstd::std_specs::cmp::PartialEqSpecImpl for Settings {
    open spec fn obeys_eq_spec() -> bool {
        true
    }

    open spec fn eq_spec(&self, other: &Self) -> bool {
        settings_equal(self@, other@)
    }
}

impl Settings {
    /// The command-line flags that start the game with these settings: the
    /// renderer first, then the battle.net and background sound switches
    /// where they are on.
    pub fn compose_args(&self) -> (r: Vec<&'static str>)
        ensures
            r@.map_values(|s: &str| s@) == launch_args(self@),
    {
        let mut args: Vec<&'static str> = Vec::new();
        match self.graphics_mode {
            GraphicsMode::DDRAW => args.push("-ddraw"),
            GraphicsMode::_3DFX => args.push("-3dfx"),
        }
        if self.skiptobnet {
            args.push("-skiptobnet");
        }
        if self.sndbkg {
            args.push("-sndbkg");
        }
        assert(args@.map_values(|s: &str| s@) =~= launch_args(self@));
        args
    }

    /// The settings that were written to disk as `value`: where a filter is
    /// listed more than once, its last entry counts.
    pub fn from_serialisable(value: SettingsSerialisable) -> (r: Settings)
        ensures
            r@ == read_back(value@),
    {
        let downloaded_filters = FilterCache::from_pairs(&value.downloaded_filters);
        Settings {
            graphics_mode: value.graphics_mode,
            skiptobnet: value.skiptobnet,
            sndbkg: value.sndbkg,
            no_updates: value.no_updates,
            scale_factor_bits: value.scale_factor_bits,
            downloaded_filters,
            active_filter: copy_active(&value.active_filter),
        }
    }
}

impl SettingsSerialisable {
    /// The form in which `value` is written to disk; reading that form back
    /// gives `value` again.
    pub fn from_settings(value: Settings) -> (r: SettingsSerialisable)
        ensures
            r@ == value@,
            read_back(r@) == value@,
    {
        let downloaded_filters = value.downloaded_filters.into_pairs();
        proof {
            lemma_settings_round_trip(value@);
        }
        SettingsSerialisable {
            graphics_mode: value.graphics_mode,
            skiptobnet: value.skiptobnet,
            sndbkg: value.sndbkg,
            no_updates: value.no_updates,
            scale_factor_bits: value.scale_factor_bits,
            downloaded_filters,
            active_filter: value.active_filter,
        }
    }
}

/// The settings read back from disk, or the defaults where none could be
/// read.
pub fn settings_or_default(read: Option<SettingsSerialisable>) -> (r: Settings)
    ensures
        match read {
            Some(v) => r@ == read_back(v@),
            None => r@ == default_settings(),
        },
{
    match read {
        Some(v) => Settings::from_serialisable(v),
        None => Settings::default(),
    }
}

/// Reading back a record that names each filter once gives the record's
/// settings: the cache of every `Settings` value is such a record (see
/// `SettingsSerialisable::from_settings`), so settings written to disk read
/// back unchanged.
pub proof fn lemma_settings_round_trip(s: SettingsModel)
    requires
        distinct_keys(s.downloaded_filters),
    ensures
        read_back(s) == s,
{
    lemma_dedup_identity(s.downloaded_filters);
}

/// The launch flags: the renderer's flag first, chosen by the renderer alone;
/// `-skiptobnet` exactly when that switch is on; `-sndbkg` exactly when
/// background sound is on, whatever the renderer, and then last.
pub proof fn lemma_launch_flags(m: SettingsModel)
    ensures
        launch_args(m)[0] == (if m.graphics_mode == GraphicsMode::DDRAW {
            "-ddraw"@
        } else {
            "-3dfx"@
        }),
        launch_args(m).len() == 1 + (if m.skiptobnet {
            1int
        } else {
            0
        }) + (if m.sndbkg {
            1int
        } else {
            0
        }),
        launch_args(m).contains("-skiptobnet"@) <==> m.skiptobnet,
        launch_args(m).contains("-sndbkg"@) <==> m.sndbkg,
        m.sndbkg ==> launch_args(m).last() == "-sndbkg"@,
{
    reveal_strlit("-ddraw");
    reveal_strlit("-3dfx");
    reveal_strlit("-skiptobnet");
    reveal_strlit("-sndbkg");
    let a = launch_args(m);
    if m.skiptobnet {
        assert(a[1] == "-skiptobnet"@);
    }
    if m.sndbkg {
        assert(a[a.len() - 1] == "-sndbkg"@);
    }
    if a.contains("-skiptobnet"@) {
        let i = choose|i: int| 0 <= i < a.len() && a[i] == "-skiptobnet"@;
        assert(a[i].len() == 11);
    }
    if a.contains("-sndbkg"@) {
        let i = choose|i: int| 0 <= i < a.len() && a[i] == "-sndbkg"@;
        assert(a[i].len() == 7);
    }
}

} // verus!
