use pd2lcp::error::Error;
use pd2lcp::filter::{
    DirEntry, Filter, FilterGroup, GhLinksField, GhResp, has_update, local_filters,
    online_filters, with_local_group,
};

fn group(name: &str) -> FilterGroup {
    FilterGroup {
        name: name.to_string(),
        url: format!("https://example.org/{name}"),
        author: "someone".to_string(),
    }
}

fn filter(g: &FilterGroup, name: &str, sha: &str) -> Filter {
    Filter {
        grouping: g.clone(),
        name: name.to_string(),
        url: "https://example.org/f".to_string(),
        sha: sha.to_string(),
    }
}

fn gh(name: &str, kind: &str, download: Option<&str>, sha: &str) -> GhResp {
    GhResp {
        name: name.to_string(),
        path: name.to_string(),
        sha: sha.to_string(),
        size: 10,
        url: "u".to_string(),
        html_url: "h".to_string(),
        download_url: download.map(|d| d.to_string()),
        type_field: kind.to_string(),
        _links: GhLinksField {
            self_field: "s".to_string(),
            git: "g".to_string(),
            html: "h".to_string(),
        },
    }
}

#[test]
fn local_group_values() {
    let l = FilterGroup::local();
    assert_eq!(l.name, "Local");
    assert_eq!(l.url, "n/a");
    assert_eq!(l.author, "local");
    assert!(l.is_local());
    assert!(!group("Kryszard").is_local());
}

#[test]
fn filename_replaces_spaces() {
    let f = filter(&group("Big Group"), "My Filter v2.filter", "1");
    assert_eq!(f.get_filename(), "Big_Group-My_Filter_v2.filter");
    let g = filter(&group("plain"), "x.filter", "1");
    assert_eq!(g.get_filename(), "plain-x.filter");
}

#[test]
fn groups_start_with_local() {
    let all = with_local_group(Some(vec![group("a"), group("b")]));
    assert_eq!(all, vec![FilterGroup::local(), group("a"), group("b")]);
    assert_eq!(with_local_group(None), vec![FilterGroup::local()]);
}

#[test]
fn local_listing_keeps_filter_files() {
    let entries = vec![
        DirEntry { file_name: Some("mine.filter".to_string()), is_file: true },
        DirEntry { file_name: Some("notes.txt".to_string()), is_file: true },
        DirEntry { file_name: Some("dir.filter".to_string()), is_file: false },
        DirEntry { file_name: Some("other.filter".to_string()), is_file: true },
    ];
    let found = local_filters(&entries).unwrap();
    assert_eq!(found.len(), 2);
    assert_eq!(found[0].name, "mine.filter");
    assert_eq!(found[1].name, "other.filter");
    assert_eq!(found[0].grouping, FilterGroup::local());
    assert_eq!(found[0].url, "n/a");
    assert_eq!(found[0].sha, "n/a");
    assert!(local_filters(&Vec::new()).unwrap().is_empty());
}

#[test]
fn unreadable_file_name_fails_the_listing() {
    let entries = vec![
        DirEntry { file_name: Some("mine.filter".to_string()), is_file: true },
        DirEntry { file_name: None, is_file: true },
    ];
    assert!(matches!(local_filters(&entries), Err(Error::FailedToParseFilename)));
}

#[test]
fn online_listing_keeps_downloadable_filter_files() {
    let g = group("Author");
    let entries = vec![
        gh("cool_one.filter", "file", Some("https://dl/1"), "s1"),
        gh("readme.md", "file", Some("https://dl/2"), "s2"),
        gh("sub.filter", "dir", Some("https://dl/3"), "s3"),
        gh("nodl.filter", "file", None, "s4"),
        gh("a_b_c.filter", "file", Some("https://dl/5"), "s5"),
    ];
    let found = online_filters(&g, &entries);
    assert_eq!(found.len(), 2);
    assert_eq!(found[0].name, "cool-one.filter");
    assert_eq!(found[0].url, "https://dl/1");
    assert_eq!(found[0].sha, "s1");
    assert_eq!(found[0].grouping, g);
    assert_eq!(found[1].name, "a-b-c.filter");
}

#[test]
fn update_needs_same_name_and_other_sha() {
    let g = group("A");
    let mine = filter(&g, "x.filter", "old");
    assert!(has_update(&vec![filter(&g, "y.filter", "new"), filter(&g, "x.filter", "new")], &mine));
    assert!(!has_update(&vec![filter(&g, "x.filter", "old")], &mine));
    assert!(!has_update(&vec![filter(&g, "y.filter", "new")], &mine));
    assert!(!has_update(&Vec::new(), &mine));
}
