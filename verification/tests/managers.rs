use lunara::app_manager::{list_apps, AppManager};
use lunara::command::CommandSpec;
use lunara::models::{AppEntry, Executor, QueryVars, Snippet};
use lunara::snippets_manager::{run_snippset_all, run_snippset_query, SnippetsManager};

fn app(id: &str, name: &str) -> AppEntry {
    AppEntry {
        id: id.to_string(),
        name: name.to_string(),
        cmd: vec!["firefox".to_string()],
        wm_class: Some("firefox".to_string()),
        icon: None,
        bspwm_desktop: Some("web".to_string()),
    }
}

fn strings(v: &[&str]) -> Vec<String> {
    v.iter().map(|s| s.to_string()).collect()
}

fn snippet(id: &str, query: Option<(&str, &[&str], Option<u64>)>) -> Snippet {
    Snippet {
        id: id.to_string(),
        name: format!("{id} tile"),
        confirmation: Some(false),
        icon: "i.png".to_string(),
        executor: vec![
            Executor { action_button: "A".to_string(), cmd: Some("toggle".to_string()), args: Some(strings(&[id])) },
            Executor { action_button: "B".to_string(), cmd: None, args: None },
            Executor { action_button: "A".to_string(), cmd: Some("second".to_string()), args: None },
        ],
        query_vars: query.map(|(c, a, t)| QueryVars { cmd: Some(c.to_string()), args: Some(strings(a)), time: t }),
    }
}

fn cmd(c: &CommandSpec) -> (String, Vec<String>) {
    (c.program.clone(), c.args.clone())
}

#[test]
fn app_manager_starts_empty() {
    let m = AppManager::new();
    assert!(m.apps().is_empty());
    assert!(m.find_app("x").is_none());
    assert!(list_apps(&m).is_empty());
}

#[test]
fn app_reload_reports_changes() {
    let mut m = AppManager::new();
    assert!(m.reload_config(vec![app("a", "A"), app("b", "B")]));
    assert!(!m.reload_config(vec![app("a", "A"), app("b", "B")]));
    assert!(m.reload_config(vec![app("a", "A"), app("b", "Bee")]));
    assert!(m.reload_config(vec![app("a", "A")]));
    assert_eq!(m.apps().len(), 1);
    assert!(m.reload_config(vec![]));
    assert!(!m.reload_config(vec![]));
}

#[test]
fn find_app_returns_first_match() {
    let mut m = AppManager::new();
    m.reload_config(vec![app("a", "first"), app("b", "B"), app("a", "second")]);
    assert_eq!(m.find_app("a").unwrap().name, "first");
    assert_eq!(m.find_app("b").unwrap().name, "B");
    assert!(m.find_app("c").is_none());
    let views = list_apps(&m);
    assert_eq!(views.len(), 3);
    assert_eq!(views[2].app.name, "second");
}

#[test]
fn snippet_query_command() {
    let s = snippet("vol", Some(("wpctl", &["get-volume"], Some(5))));
    assert_eq!(cmd(&run_snippset_query(&s).unwrap()), ("wpctl".to_string(), strings(&["get-volume"])));
    assert!(run_snippset_query(&snippet("x", None)).is_none());
    let mut no_cmd = snippet("y", None);
    no_cmd.query_vars = Some(QueryVars { cmd: None, args: None, time: Some(1) });
    assert!(run_snippset_query(&no_cmd).is_none());
    let mut no_args = snippet("z", None);
    no_args.query_vars = Some(QueryVars { cmd: Some("date".to_string()), args: None, time: None });
    assert_eq!(cmd(&run_snippset_query(&no_args).unwrap()), ("date".to_string(), vec![]));
}

#[test]
fn snippet_button_command_uses_first_executor() {
    let s = snippet("vol", None);
    assert_eq!(cmd(&run_snippset_all(&s, "A").unwrap()), ("toggle".to_string(), strings(&["vol"])));
    assert!(run_snippset_all(&s, "B").is_none());
    assert!(run_snippset_all(&s, "X").is_none());
}

#[test]
fn snippets_reload_and_views() {
    let mut m = SnippetsManager::new();
    assert!(m.get_snippet_views().is_empty());
    let list = vec![snippet("a", Some(("q", &[], Some(3)))), snippet("b", None)];
    let changed = m.reload_config(list.clone(), vec![Some("on".to_string()), None]);
    assert!(changed);
    let views = m.get_snippet_views();
    assert_eq!(views.len(), 2);
    assert_eq!(views[0].snippet.id, "a");
    assert_eq!(views[0].query.as_deref(), Some("on"));
    assert_eq!(views[1].query, None);
    assert!(!m.reload_config(list, vec![Some("off".to_string()), None]));
    assert_eq!(m.get_snippet_views()[0].query.as_deref(), Some("off"));
}

#[test]
fn snippet_query_change_detection() {
    let mut m = SnippetsManager::new();
    m.reload_config(vec![snippet("a", None), snippet("b", None)], vec![None, None]);
    assert!(!m.run_snippet_query_id("a".to_string(), None));
    assert!(m.run_snippet_query_id("a".to_string(), Some("x".to_string())));
    assert!(!m.run_snippet_query_id("a".to_string(), Some("x".to_string())));
    assert!(!m.run_snippet_query_id("missing".to_string(), Some("x".to_string())));
    let views = m.get_snippet_views();
    assert_eq!(views[0].query.as_deref(), Some("x"));
    assert_eq!(views[1].query, None);
}

#[test]
fn run_all_query_vars_records_each() {
    let mut m = SnippetsManager::new();
    m.reload_config(vec![snippet("a", None), snippet("b", None)], vec![None, None]);
    m.run_all_query_vars(vec![Some("1".to_string()), Some("2".to_string())]);
    let q: Vec<Option<String>> = m.get_snippet_views().into_iter().map(|v| v.query).collect();
    assert_eq!(q, vec![Some("1".to_string()), Some("2".to_string())]);
}

#[test]
fn duplicate_ids_share_the_last_output() {
    let mut m = SnippetsManager::new();
    m.reload_config(vec![snippet("a", None), snippet("a", None)], vec![Some("1".to_string()), Some("2".to_string())]);
    let q: Vec<Option<String>> = m.get_snippet_views().into_iter().map(|v| v.query).collect();
    assert_eq!(q, vec![Some("2".to_string()), Some("2".to_string())]);
}

#[test]
fn query_jobs_list_periodic_snippets() {
    let mut m = SnippetsManager::new();
    let list = vec![
        snippet("a", Some(("q", &[], Some(3)))),
        snippet("b", None),
        snippet("c", Some(("q", &[], None))),
        snippet("d", Some(("q", &[], Some(60)))),
    ];
    m.reload_config(list, vec![None, None, None, None]);
    assert_eq!(m.query_jobs(), vec![("a".to_string(), 3), ("d".to_string(), 60)]);
    assert_eq!(m.find_snippet("c").unwrap().id, "c");
    assert!(m.find_snippet("e").is_none());
}
