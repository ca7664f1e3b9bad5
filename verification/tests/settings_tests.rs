use pd2lcp::filter::{Filter, FilterGroup};
use pd2lcp::settings::{
    DEFAULT_SCALE_FACTOR_BITS, FilterCache, GraphicsMode, Settings, SettingsSerialisable,
    settings_or_default,
};

fn filter(name: &str) -> Filter {
    Filter {
        grouping: FilterGroup::local(),
        name: name.to_string(),
        url: "n/a".to_string(),
        sha: "n/a".to_string(),
    }
}

fn serialisable(cache: Vec<(Filter, String)>) -> SettingsSerialisable {
    SettingsSerialisable {
        graphics_mode: GraphicsMode::DDRAW,
        skiptobnet: false,
        sndbkg: true,
        no_updates: true,
        scale_factor_bits: 1.5f32.to_bits(),
        downloaded_filters: cache,
        active_filter: Some((filter("a"), "a-file".to_string())),
    }
}

#[test]
fn defaults() {
    let s = Settings::default();
    assert_eq!(s.graphics_mode, GraphicsMode::_3DFX);
    assert!(s.skiptobnet);
    assert!(!s.sndbkg);
    assert!(!s.no_updates);
    assert_eq!(f32::from_bits(s.scale_factor_bits), 1.0);
    assert_eq!(DEFAULT_SCALE_FACTOR_BITS, 1.0f32.to_bits());
    assert_eq!(s.downloaded_filters.len(), 0);
    assert!(s.active_filter.is_none());
    assert_eq!(s.compose_args(), vec!["-3dfx", "-skiptobnet"]);
}

#[test]
fn compose_args_follows_the_switches() {
    let mut s = Settings::default();
    s.graphics_mode = GraphicsMode::DDRAW;
    s.skiptobnet = false;
    s.sndbkg = true;
    assert_eq!(s.compose_args(), vec!["-ddraw", "-sndbkg"]);
    s.skiptobnet = true;
    assert_eq!(s.compose_args(), vec!["-ddraw", "-skiptobnet", "-sndbkg"]);
}

#[test]
fn renderer_names() {
    assert_eq!(GraphicsMode::DDRAW.to_string(), "ddraw");
    assert_eq!(GraphicsMode::_3DFX.to_string(), "3dfx");
}

#[test]
fn later_entries_of_a_filter_win() {
    let s = Settings::from_serialisable(serialisable(vec![
        (filter("a"), "first".to_string()),
        (filter("b"), "b".to_string()),
        (filter("a"), "second".to_string()),
    ]));
    assert_eq!(
        s.downloaded_filters.entries(),
        &vec![(filter("a"), "second".to_string()), (filter("b"), "b".to_string())]
    );
    assert_eq!(s.graphics_mode, GraphicsMode::DDRAW);
    assert!(!s.skiptobnet);
    assert!(s.sndbkg);
    assert!(s.no_updates);
    assert_eq!(f32::from_bits(s.scale_factor_bits), 1.5);
    assert_eq!(s.active_filter, Some((filter("a"), "a-file".to_string())));
}

#[test]
fn settings_survive_a_round_trip() {
    let mut s = Settings::default();
    s.downloaded_filters.insert(filter("x"), "x".to_string());
    s.downloaded_filters.insert(filter("y"), "y".to_string());
    s.active_filter = Some((filter("y"), "y".to_string()));
    let back = Settings::from_serialisable(SettingsSerialisable::from_settings(s.clone()));
    assert!(back == s);
    assert_eq!(back.downloaded_filters.entries(), s.downloaded_filters.entries());
    assert_eq!(back.active_filter, s.active_filter);
    assert_eq!(back.graphics_mode, s.graphics_mode);
    assert_eq!(back.scale_factor_bits, s.scale_factor_bits);
}

#[test]
fn unreadable_settings_give_defaults() {
    let s = settings_or_default(None);
    assert_eq!(s.compose_args(), vec!["-3dfx", "-skiptobnet"]);
    let t = settings_or_default(Some(serialisable(Vec::new())));
    assert_eq!(t.graphics_mode, GraphicsMode::DDRAW);
}

#[test]
fn cache_insert_replaces_the_entry_of_a_filter() {
    let mut c = FilterCache::new();
    c.insert(filter("a"), "one".to_string());
    c.insert(filter("b"), "two".to_string());
    c.insert(filter("a"), "three".to_string());
    assert_eq!(c.len(), 2);
    assert_eq!(
        c.entries(),
        &vec![(filter("a"), "three".to_string()), (filter("b"), "two".to_string())]
    );
    assert_eq!(c.get(&filter("a")), Some(&"three".to_string()));
    assert_eq!(c.get(&filter("c")), None);
}

#[test]
fn caches_compare_by_content() {
    let mut c = FilterCache::new();
    c.insert(filter("a"), "1".to_string());
    c.insert(filter("b"), "2".to_string());
    let mut d = FilterCache::new();
    d.insert(filter("b"), "2".to_string());
    d.insert(filter("a"), "1".to_string());
    assert!(c == d);
    assert!(c.same_as(&d));
    d.insert(filter("a"), "other".to_string());
    assert!(c != d);
    let e = FilterCache::from_pairs(&vec![
        (filter("b"), "x".to_string()),
        (filter("a"), "1".to_string()),
        (filter("b"), "2".to_string()),
    ]);
    assert!(c == e);
    assert_eq!(e.into_pairs().len(), 2);
}

#[test]
fn scale_factors_compare_as_numbers() {
    let mut a = Settings::default();
    let mut b = Settings::default();
    a.scale_factor_bits = 0.0f32.to_bits();
    b.scale_factor_bits = (-0.0f32).to_bits();
    assert!(a == b);
    a.scale_factor_bits = f32::NAN.to_bits();
    b.scale_factor_bits = f32::NAN.to_bits();
    assert!(a != b);
    a.scale_factor_bits = 1.5f32.to_bits();
    b.scale_factor_bits = 1.5f32.to_bits();
    assert!(a == b);
    b.active_filter = Some((filter("z"), "z".to_string()));
    assert!(a != b);
}
