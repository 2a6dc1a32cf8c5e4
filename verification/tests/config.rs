use helmule::config::{
    Chart, ConfigError, CustomCommandsMirror, Git, GitMirror, Helm, Mirror, Repository,
    RepositoryKind,
};
use helmule::vars::Variables;

fn vars(pairs: &[(&str, &str)]) -> Variables {
    let mut v = Variables::new();
    for (k, val) in pairs {
        v.insert(k.to_string(), val.to_string());
    }
    v
}

fn chart(name: &str, repository: &str, mirrors: &[&str]) -> Chart {
    Chart {
        name: name.to_string(),
        repository: repository.to_string(),
        mirrors: mirrors.iter().map(|m| m.to_string()).collect(),
        version: None,
        extensions: None,
        patches: None,
        variables: None,
        repository_obj: None,
        mirror_objs: None,
    }
}

fn helm_repo(name: &str, url: &str) -> Repository {
    Repository { name: name.to_string(), helm: Some(Helm { url: url.to_string() }), git: None }
}

fn git_repo(name: &str, url: &str) -> Repository {
    Repository {
        name: name.to_string(),
        helm: None,
        git: Some(Git { url: url.to_string(), git_ref: "main".to_string(), path: "charts".to_string() }),
    }
}

fn cc_mirror(name: &str) -> Mirror {
    Mirror {
        name: name.to_string(),
        git: None,
        custom_command: Some(CustomCommandsMirror {
            package: vec![format!("package {}", name)],
            upload: vec![],
        }),
    }
}

#[test]
fn variables_insert_replaces_and_keeps_order() {
    let mut v = vars(&[("a", "1"), ("b", "2")]);
    v.insert("a".to_string(), "3".to_string());
    assert_eq!(v.len(), 2);
    assert_eq!(v.get("a"), Some("3".to_string()));
    assert_eq!(v.get("b"), Some("2".to_string()));
    assert_eq!(v.get("c"), None);
    let (k, val) = v.entry(0);
    assert_eq!((k.as_str(), val.as_str()), ("a", "3"));
}

#[test]
fn variables_extend_prefers_other() {
    let mut v = vars(&[("a", "1"), ("b", "2")]);
    v.extend(&vars(&[("b", "20"), ("c", "30")]));
    assert_eq!(v.len(), 3);
    assert_eq!(v.get("a"), Some("1".to_string()));
    assert_eq!(v.get("b"), Some("20".to_string()));
    assert_eq!(v.get("c"), Some("30".to_string()));
}

#[test]
fn populate_variables_global_values_win() {
    let mut c = chart("flux2", "repo", &[]);
    c.variables = Some(vars(&[("git-msg", "chart"), ("only-chart", "x")]));
    c.populate_variables(Some(vars(&[("git-msg", "Hello there"), ("only-global", "y")])));
    let v = c.variables.unwrap();
    assert_eq!(v.get("git-msg"), Some("Hello there".to_string()));
    assert_eq!(v.get("only-chart"), Some("x".to_string()));
    assert_eq!(v.get("only-global"), Some("y".to_string()));
}

#[test]
fn populate_variables_twice_is_like_once() {
    let global = || Some(vars(&[("a", "g")]));
    let mut once = chart("c", "r", &[]);
    once.variables = Some(vars(&[("a", "c"), ("b", "c")]));
    let mut twice = chart("c", "r", &[]);
    twice.variables = Some(vars(&[("a", "c"), ("b", "c")]));
    once.populate_variables(global());
    twice.populate_variables(global());
    twice.populate_variables(global());
    let (o, t) = (once.variables.unwrap(), twice.variables.unwrap());
    assert_eq!(o.len(), t.len());
    assert_eq!(o.get("a"), t.get("a"));
    assert_eq!(o.get("b"), t.get("b"));
}

#[test]
fn populate_variables_without_chart_variables_takes_globals() {
    let mut c = chart("c", "r", &[]);
    c.populate_variables(Some(vars(&[("a", "1")])));
    assert_eq!(c.variables.unwrap().get("a"), Some("1".to_string()));
    let mut d = chart("c", "r", &[]);
    d.populate_variables(None);
    assert!(d.variables.is_none());
}

#[test]
fn populate_repository_takes_first_with_name() {
    let mut c = chart("flux2", "flux-community", &[]);
    let repos = vec![
        helm_repo("other", "https://other"),
        helm_repo("flux-community", "https://fluxcd-community.github.io/helm-charts"),
        helm_repo("flux-community", "https://second"),
    ];
    assert!(c.populate_repository(repos).is_ok());
    assert_eq!(c.get_helm_repository_url(), "https://fluxcd-community.github.io/helm-charts");
    assert!(matches!(c.get_repo_kind(), Ok(RepositoryKind::Helm)));
}

#[test]
fn populate_repository_reports_missing_repo() {
    let mut c = chart("flux2", "missing", &[]);
    let r = c.populate_repository(vec![helm_repo("other", "https://other")]);
    match r {
        Err(e) => {
            assert!(matches!(e, ConfigError::RepoNotFound(_)));
            assert_eq!(e.message(), "repo missing is not found in the repo list");
        }
        Ok(_) => panic!("the repository does not exist"),
    }
    assert!(c.repository_obj.is_none());
}

#[test]
fn populate_mirrors_keeps_global_order_and_repeats() {
    let mut c = chart("c", "r", &["b", "a", "b"]);
    let r = c.populate_mirrors(vec![cc_mirror("a"), cc_mirror("b"), cc_mirror("z")]);
    assert!(r.is_ok());
    let names: Vec<String> = c.mirror_objs.unwrap().iter().map(|m| m.name.clone()).collect();
    assert_eq!(names, vec!["a".to_string(), "b".to_string(), "b".to_string()]);
}

#[test]
fn populate_mirrors_without_match_leaves_chart() {
    let mut c = chart("c", "r", &["nope"]);
    assert!(c.populate_mirrors(vec![cc_mirror("a")]).is_ok());
    assert!(c.mirror_objs.is_none());
}

#[test]
fn mirror_duplicate_copies_everything() {
    let m = Mirror {
        name: "g".to_string(),
        git: Some(GitMirror {
            url: "u".to_string(),
            path: Some("p".to_string()),
            branch: "b".to_string(),
            commit: None,
            git_dir: None,
            default_branch: Some("dev".to_string()),
            rebase: Some(true),
        }),
        custom_command: None,
    };
    let d = m.duplicate();
    let g = d.git.unwrap();
    assert_eq!(d.name, "g");
    assert_eq!(g.url, "u");
    assert_eq!(g.path, Some("p".to_string()));
    assert_eq!(g.default_branch, Some("dev".to_string()));
    assert_eq!(g.rebase, Some(true));
}

#[test]
fn git_repository_getters() {
    let mut c = chart("chart", "db-operator", &[]);
    c.populate_repository(vec![git_repo("db-operator", "https://github.com/db-operator/charts.git")])
        .ok()
        .unwrap();
    assert_eq!(c.get_git_repository_url(), "https://github.com/db-operator/charts.git");
    assert_eq!(c.get_git_repository_ref(), "main");
    assert_eq!(c.get_git_repository_path(), "charts");
    assert!(matches!(c.get_repo_kind(), Ok(RepositoryKind::Git)));
}

#[test]
fn getters_without_repository_are_empty() {
    let c = chart("chart", "r", &[]);
    assert_eq!(c.get_helm_repository_url(), "");
    assert_eq!(c.get_git_repository_url(), "");
    assert_eq!(c.get_git_repository_ref(), "");
    assert_eq!(c.get_git_repository_path(), "");
    match c.get_repo_kind() {
        Err(e) => assert_eq!(e.message(), "repository object is not filled up for the chart"),
        Ok(_) => panic!("no repository"),
    }
}

#[test]
fn repo_kind_of_empty_repository_is_unknown() {
    let mut c = chart("chart", "r", &[]);
    c.repository_obj = Some(Repository { name: "r".to_string(), helm: None, git: None });
    match c.get_repo_kind() {
        Err(e) => {
            assert!(matches!(e, ConfigError::UnknownRepositoryKind));
            assert_eq!(e.message(), "unknown repository kind is found");
        }
        Ok(_) => panic!("neither helm nor git"),
    }
}

#[test]
fn helm_wins_over_git_for_repo_kind() {
    let mut c = chart("chart", "r", &[]);
    let mut repo = helm_repo("r", "https://h");
    repo.git = git_repo("r", "https://g").git;
    c.repository_obj = Some(repo);
    assert!(matches!(c.get_repo_kind(), Ok(RepositoryKind::Helm)));
}
