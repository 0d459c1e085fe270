use std::path::{Path, PathBuf};

use lunara::loader::{
    apps_dir, config_dir, config_file, embed_icon, icon_to_data_url, is_yml_file, join,
    snippets_dir, sort_apps_by_id, sort_snippets_by_id,
};
use lunara::models::{AppEntry, Snippet};
use lunara::order::stable_order;
use lunara::text::{contains_str, starts_with, str_eq, str_lt, trim_str};

fn app(id: &str) -> AppEntry {
    AppEntry {
        id: id.to_string(),
        name: format!("name of {id}"),
        cmd: vec!["prog".to_string(), "--flag".to_string()],
        wm_class: None,
        icon: None,
        bspwm_desktop: None,
    }
}

fn snippet(id: &str) -> Snippet {
    Snippet {
        id: id.to_string(),
        name: id.to_string(),
        confirmation: None,
        icon: "icon.png".to_string(),
        executor: vec![],
        query_vars: None,
    }
}

#[test]
fn trim_agrees_with_std() {
    let samples = [
        "", " ", "abc", "  abc  ", "\t\nabc\r\n", "\u{3000}wide\u{3000}", "\u{85}x\u{a0}",
        "a b", "\u{200b}zero-width\u{200b}", " \u{2028} mid \u{2029} ", "\u{1680}\u{205f}",
    ];
    for s in samples {
        assert_eq!(trim_str(s), s.trim(), "trim of {s:?}");
    }
}

#[test]
fn lexicographic_order_agrees_with_std() {
    let samples = ["", "a", "b", "ab", "abc", "B", "é", "z", "ä", "aa", "\u{10348}", "\u{ffff}"];
    for a in samples {
        for b in samples {
            assert_eq!(str_lt(a, b), a < b, "{a:?} < {b:?}");
            assert_eq!(str_eq(a, b), a == b);
        }
    }
}

#[test]
fn prefix_and_infix() {
    assert!(starts_with("BAT0", "BAT"));
    assert!(!starts_with("BA", "BAT"));
    assert!(!starts_with("ACAD", "BAT"));
    assert!(contains_str("Volume: 0.40 [MUTED]", "MUTED"));
    assert!(!contains_str("Volume: 0.40", "MUTED"));
    assert!(contains_str("abc", ""));
}

#[test]
fn joining_paths_agrees_with_pathbuf() {
    let bases = ["", "/", "/etc", "/etc/", "rel", "a//"];
    for b in bases {
        let expected = PathBuf::from(b).join("lunara");
        assert_eq!(join(b, "lunara"), expected.to_str().unwrap(), "join {b:?}");
    }
}

#[test]
fn config_dir_prefers_lunara_cfg() {
    assert_eq!(config_dir(Some("/cfg"), Some("/xdg"), Some("/home/u")), "/cfg");
    assert_eq!(config_dir(None, Some("/xdg"), Some("/home/u")), "/xdg/lunara");
    assert_eq!(config_dir(None, Some("/xdg/"), None), "/xdg/lunara");
    assert_eq!(config_dir(None, None, Some("/home/u")), "/home/u/.config/lunara");
    assert_eq!(config_dir(None, None, None), "./.config/lunara");
    assert_eq!(config_dir(None, Some(""), None), "lunara");
}

#[test]
fn files_inside_the_config_dir() {
    assert_eq!(apps_dir("/c"), "/c/apps");
    assert_eq!(snippets_dir("/c"), "/c/snippets");
    assert_eq!(config_file("/c/"), "/c/config.yml");
}

#[test]
fn yml_extension_agrees_with_path() {
    let names = [
        "a.yml", ".yml", "..yml", "a.yaml", "yml", "a.YML", "a.b.yml", "a.yml.bak", "x.yml ",
        ".hidden.yml", "a.", "", ".", "..", "é.yml",
    ];
    for n in names {
        let expected = Path::new(n).extension().and_then(|s| s.to_str()) == Some("yml");
        assert_eq!(is_yml_file(n), expected, "{n:?}");
    }
}

#[test]
fn icon_becomes_a_data_url() {
    assert_eq!(icon_to_data_url(b"hello"), "data:image/png;base64,aGVsbG8=");
    assert_eq!(icon_to_data_url(b""), "data:image/png;base64,");
}

#[test]
fn icon_embedded_only_when_read() {
    let mut a = app("x");
    a.icon = Some("/icons/x.png".to_string());
    let embedded = embed_icon(a.clone(), Some(b"hi".to_vec()));
    assert_eq!(embedded.icon.as_deref(), Some("data:image/png;base64,aGk="));
    let unread = embed_icon(a.clone(), None);
    assert_eq!(unread.icon.as_deref(), Some("/icons/x.png"));
    let no_icon = embed_icon(app("y"), Some(b"hi".to_vec()));
    assert_eq!(no_icon.icon, None);
}

#[test]
fn stable_order_matches_std_stable_sort() {
    let keys: Vec<String> = ["b", "a", "c", "a", "b", "", "a"].iter().map(|s| s.to_string()).collect();
    let mut expected: Vec<usize> = (0..keys.len()).collect();
    expected.sort_by(|x, y| keys[*x].cmp(&keys[*y]));
    assert_eq!(stable_order(&keys), expected);
    assert_eq!(stable_order(&vec![]), Vec::<usize>::new());
}

#[test]
fn apps_sorted_by_lowercase_id() {
    let apps = vec![app("b"), app("A"), app("a"), app("C")];
    let ids: Vec<String> = sort_apps_by_id(apps).into_iter().map(|a| a.id).collect();
    assert_eq!(ids, vec!["A", "a", "b", "C"]);
}

#[test]
fn snippets_sorted_by_lowercase_id() {
    let s = vec![snippet("Volume"), snippet("bluetooth"), snippet("VOLUME"), snippet("Audio")];
    let ids: Vec<String> = sort_snippets_by_id(s).into_iter().map(|s| s.id).collect();
    assert_eq!(ids, vec!["Audio", "bluetooth", "Volume", "VOLUME"]);
}
