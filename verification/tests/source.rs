use helmule::config::{Chart, Git as GitRepo, Helm as HelmRepo, Repository};
use helmule::source::{repo_from_chart, version_query, Git, Helm, Repo, RepoKind, SourceError};
use helmule::step::Step;
use helmule::vars::Variables;

fn describe(step: &Step) -> String {
    match step {
        Step::Run { command, dir } => format!("run {} in {:?}", command, dir),
        Step::RunOr { command, fallback, cwd } => format!("run {} or {} in {}", command, fallback, cwd),
        Step::CopyDir { from, to } => format!("copy {} to {}", from, to),
        Step::RemoveDir { path } => format!("remove {}", path),
    }
}

fn helm(url: &str, version: &str) -> Helm {
    Helm { chart: "flux2".to_string(), repository_url: url.to_string(), version: version.to_string() }
}

fn chart_with(repo: Option<Repository>, version: Option<&str>) -> Chart {
    Chart {
        name: "flux2".to_string(),
        repository: "r".to_string(),
        mirrors: vec![],
        version: version.map(|v| v.to_string()),
        extensions: None,
        patches: None,
        variables: None,
        repository_obj: repo,
        mirror_objs: None,
    }
}

#[test]
fn repo_kind_from_scheme() {
    assert!(matches!(helm("oci://registry-1.docker.io/bitnamicharts/", "latest").repo_kind_from_url(), Ok(RepoKind::Oci)));
    assert!(matches!(helm("https://charts.example.com", "latest").repo_kind_from_url(), Ok(RepoKind::Default)));
    assert!(matches!(helm("http://charts.example.com", "latest").repo_kind_from_url(), Ok(RepoKind::Default)));
    match helm("ftp://charts.example.com", "latest").repo_kind_from_url() {
        Err(e) => {
            assert!(matches!(e, SourceError::UnknownRepoKind(_)));
            assert_eq!(e.message(), "repo kind is not defined by the prefix: ftp");
        }
        Ok(_) => panic!("ftp is not a helm repository scheme"),
    }
    match helm("charts.example.com", "latest").repo_kind_from_url() {
        Err(e) => assert_eq!(e.message(), "repo kind is not defined by the prefix: charts.example.com"),
        Ok(_) => panic!("no scheme"),
    }
}

#[test]
fn helm_pull_plan_for_latest() {
    let plan = helm("https://charts.example.com", "latest").pull("/w").ok().unwrap();
    let steps: Vec<String> = plan.prepare.iter().map(describe).collect();
    assert_eq!(
        steps,
        vec![
            "run helm repo add aHR0cHM6Ly9jaGFydHMuZXhhbXBsZS5jb20 https://charts.example.com in None".to_string(),
            "run helm repo update in None".to_string(),
            "run helm pull aHR0cHM6Ly9jaGFydHMuZXhhbXBsZS5jb20/flux2  --destination /w --untar in None".to_string(),
        ]
    );
    assert_eq!(plan.show_chart, "helm show chart /w/flux2");
    assert_eq!(plan.unpacked_dir, "/w/flux2");
    assert_eq!(plan.versioned_dir("2.12.4"), "/w/flux2-2.12.4");
    assert_eq!(describe(&plan.cleanup[0]), "run helm repo remove aHR0cHM6Ly9jaGFydHMuZXhhbXBsZS5jb20 in None");
    assert_eq!(plan.cleanup.len(), 1);
    let local = plan.finish("/w/flux2-2.12.4".to_string(), "2.12.4".to_string(), Variables::new());
    assert_eq!(local.name, "flux2");
    assert_eq!(local.repo_url, "https://charts.example.com");
    assert_eq!(local.path, "/w/flux2-2.12.4");
    assert_eq!(local.version, "2.12.4");
}

#[test]
fn helm_pull_plan_for_fixed_version() {
    let plan = helm("https://charts.example.com", "1.2.3").pull("/w").ok().unwrap();
    assert_eq!(
        describe(&plan.prepare[2]),
        "run helm pull aHR0cHM6Ly9jaGFydHMuZXhhbXBsZS5jb20/flux2 --version 1.2.3 --destination /w --untar in None"
    );
}

#[test]
fn helm_pull_rejects_unknown_scheme() {
    assert!(matches!(helm("ssh://x", "latest").pull("/w"), Err(SourceError::UnknownRepoKind(_))));
}

#[test]
fn git_pull_plan() {
    let g = Git {
        git_url: "https://github.com/db-operator/charts.git".to_string(),
        git_ref: "main".to_string(),
        path: "charts".to_string(),
        chart: "db-operator".to_string(),
    };
    let plan = g.pull("/w");
    let clone_dir = "/w/aHR0cHM6Ly9naXRodWIuY29tL2RiLW9wZXJhdG9yL2NoYXJ0cy5naXQ";
    let steps: Vec<String> = plan.prepare.iter().map(describe).collect();
    assert_eq!(
        steps,
        vec![
            format!("run git clone https://github.com/db-operator/charts.git {} in None", clone_dir),
            format!("run git -C {} checkout main in None", clone_dir),
        ]
    );
    assert_eq!(plan.unpacked_dir, format!("{}/charts/db-operator", clone_dir));
    assert_eq!(plan.show_chart, format!("helm show chart {}/charts/db-operator", clone_dir));
    assert_eq!(plan.versioned_dir("1.0.0"), "/w/db-operator-1.0.0");
    assert_eq!(describe(&plan.cleanup[0]), format!("remove {}", clone_dir));
    assert_eq!(version_query(), "helm show chart . | yq '.version'");
}

#[test]
fn repo_from_chart_by_kind() {
    let helm_repo = Repository { name: "r".to_string(), helm: Some(HelmRepo { url: "https://h".to_string() }), git: None };
    match repo_from_chart(chart_with(Some(helm_repo), None)) {
        Ok(Repo::Helm(h)) => {
            assert_eq!(h.repository_url, "https://h");
            assert_eq!(h.version, "latest");
            assert_eq!(h.chart, "flux2");
        }
        _ => panic!("a helm repository"),
    }
    let git_repo = Repository {
        name: "r".to_string(),
        helm: None,
        git: Some(GitRepo { url: "https://g".to_string(), git_ref: "v1".to_string(), path: "charts".to_string() }),
    };
    match repo_from_chart(chart_with(Some(git_repo), Some("1.0.0"))) {
        Ok(Repo::Git(g)) => {
            assert_eq!(g.git_url, "https://g");
            assert_eq!(g.git_ref, "v1");
            assert_eq!(g.path, "charts");
        }
        _ => panic!("a git repository"),
    }
    match repo_from_chart(chart_with(None, None)) {
        Err(e) => assert_eq!(e.message(), "repository object is not filled up for the chart"),
        Ok(_) => panic!("no repository"),
    }
}

#[test]
fn repo_pull_dispatches() {
    let r = Repo::Helm(helm("https://charts.example.com", "latest"));
    assert!(r.pull("/w").is_ok());
}

#[test]
fn chart_local_test_marker() {
    let c = helm("https://x", "latest").pull("/w").ok().unwrap().finish("d".to_string(), "v".to_string(), Variables::new());
    assert_eq!(c.test(), "test-me-if-you-can");
}

#[test]
fn helm_from_chart_without_repository() {
    let h = Helm::from_chart(chart_with(None, Some("9.9.9")));
    assert_eq!(h.repository_url, "");
    assert_eq!(h.version, "9.9.9");
}

#[test]
fn local_repository_names_are_unpadded_base64() {
    let three = helm("https://x", "latest").pull("/w").ok().unwrap();
    assert_eq!(describe(&three.cleanup[0]), "run helm repo remove aHR0cHM6Ly94 in None");
    let one_left = helm("https://xy", "latest").pull("/w").ok().unwrap();
    assert_eq!(describe(&one_left.cleanup[0]), "run helm repo remove aHR0cHM6Ly94eQ in None");
}

#[test]
fn helm_pull_plan_for_oci_registry() {
    let plan = helm("oci://registry-1.docker.io/bitnamicharts/", "latest").pull("/w").ok().unwrap();
    let steps: Vec<String> = plan.prepare.iter().map(describe).collect();
    assert_eq!(
        steps,
        vec!["run helm pull oci://registry-1.docker.io/bitnamicharts/flux2  --destination /w --untar in None".to_string()]
    );
    assert!(plan.cleanup.is_empty());
    assert_eq!(plan.show_chart, "helm show chart /w/flux2");
    assert_eq!(plan.versioned_dir("1.0.0"), "/w/flux2-1.0.0");
    let local = plan.finish("/w/flux2-1.0.0".to_string(), "1.0.0".to_string(), Variables::new());
    assert_eq!(local.name, "flux2");
    assert_eq!(local.repo_url, "oci://registry-1.docker.io/bitnamicharts/");
}

#[test]
fn helm_pull_plan_for_oci_without_trailing_slash() {
    let plan = helm("oci://registry.example.com/charts", "2.0.0").pull("/w").ok().unwrap();
    assert_eq!(
        describe(&plan.prepare[0]),
        "run helm pull oci://registry.example.com/charts/flux2 --version 2.0.0 --destination /w --untar in None"
    );
}
