use helmule::config::{CustomCommandsMirror, GitMirror, Mirror};
use helmule::mirror::{mirror_from_mirror_obj, Git, MirrorError, Target};
use helmule::source::ChartLocal;
use helmule::step::Step;
use helmule::template::Timestamp;
use helmule::vars::Variables;

fn chart_local() -> ChartLocal {
    ChartLocal {
        name: "flux2".to_string(),
        version: "2.12.4".to_string(),
        path: "/w/flux2-2.12.4".to_string(),
        repo_url: "https://fluxcd-community.github.io/helm-charts".to_string(),
        vars: Variables::new(),
    }
}

fn now() -> Timestamp {
    Timestamp { date: "2024-05-06".to_string(), time: "07-08-09".to_string() }
}

fn git_target(rebase: bool, commit: Option<&str>) -> Git {
    Git {
        git_dir: "my-git-mirror".to_string(),
        url: "git@git.example.net:allanger/helmuled-charts.git".to_string(),
        path: "charts/{{ name }}".to_string(),
        branch: "upgrade-{{ name }}-to-{{ version }}".to_string(),
        commit: commit.map(|c| c.to_string()),
        default_branch: None,
        rebase,
    }
}

fn describe(step: &Step) -> String {
    match step {
        Step::Run { command, dir } => format!("run {} in {:?}", command, dir),
        Step::RunOr { command, fallback, cwd } => format!("run {} or {} in {}", command, fallback, cwd),
        Step::CopyDir { from, to } => format!("copy {} to {}", from, to),
        Step::RemoveDir { path } => format!("remove {}", path),
    }
}

#[test]
fn git_push_steps() {
    let plan = git_target(false, None).push("/w", &chart_local(), &now(), false);
    assert!(plan.failure.is_none());
    let steps: Vec<String> = plan.steps.iter().map(describe).collect();
    assert_eq!(
        steps,
        vec![
            "run git clone git@git.example.net:allanger/helmuled-charts.git my-git-mirror in Some(\"/w\")".to_string(),
            "run git checkout upgrade-flux2-to-2.12.4 or git checkout -b upgrade-flux2-to-2.12.4 in /w/my-git-mirror".to_string(),
            "copy /w/flux2-2.12.4 to /w/my-git-mirror/charts/flux2".to_string(),
            "run git add . && git diff --staged --quiet || git commit -m 'helmuled flux2-2.12.4' in Some(\"/w/my-git-mirror/charts/flux2\")".to_string(),
            "run git push --set-upstream origin upgrade-flux2-to-2.12.4  in Some(\"/w/my-git-mirror/charts/flux2\")".to_string(),
        ]
    );
}

#[test]
fn git_push_with_rebase_forces() {
    let mut g = git_target(true, Some("chore: mirror {{ name }}"));
    g.default_branch = Some("trunk".to_string());
    let plan = g.push("/w", &chart_local(), &now(), false);
    let steps: Vec<String> = plan.steps.iter().map(describe).collect();
    assert_eq!(steps[2], "run git rebase trunk in Some(\"/w/my-git-mirror\")");
    assert_eq!(
        steps[4],
        "run git add . && git diff --staged --quiet || git commit -m 'chore: mirror flux2' in Some(\"/w/my-git-mirror/charts/flux2\")"
    );
    assert_eq!(
        steps[5],
        "run git push --set-upstream origin upgrade-flux2-to-2.12.4 --force in Some(\"/w/my-git-mirror/charts/flux2\")"
    );
    let plain = git_target(true, None).push("/w", &chart_local(), &now(), true);
    assert_eq!(describe(&plain.steps[2]), "run git rebase main in Some(\"/w/my-git-mirror\")");
}

#[test]
fn git_dry_run_is_prefix_of_full_run() {
    let dry: Vec<String> = git_target(false, None).push("/w", &chart_local(), &now(), true).steps.iter().map(describe).collect();
    let full: Vec<String> = git_target(false, None).push("/w", &chart_local(), &now(), false).steps.iter().map(describe).collect();
    assert_eq!(full.len(), dry.len() + 1);
    assert_eq!(&full[..dry.len()], &dry[..]);
    assert!(!dry.iter().any(|s| s.contains("git push")));
}

#[test]
fn git_push_stops_at_broken_template() {
    let mut g = git_target(false, None);
    g.branch = "{{#if}}".to_string();
    let plan = g.push("/w", &chart_local(), &now(), false);
    assert!(plan.failure.is_some());
    assert_eq!(plan.steps.len(), 1);
}

#[test]
fn git_push_stops_at_partial() {
    let mut g = git_target(false, None);
    g.path = "charts/{{> p}}".to_string();
    let plan = g.push("/w", &chart_local(), &now(), false);
    assert_eq!(
        plan.failure.map(|e| e.message),
        Some("template uses partials or decorators, or nests too deeply".to_string())
    );
    assert_eq!(plan.steps.len(), 2);
}

#[test]
fn git_mirror_defaults() {
    let m = Mirror {
        name: "my-git-mirror".to_string(),
        git: Some(GitMirror {
            url: "u".to_string(),
            path: None,
            branch: "b".to_string(),
            commit: None,
            git_dir: None,
            default_branch: None,
            rebase: None,
        }),
        custom_command: Some(CustomCommandsMirror { package: vec![], upload: vec![] }),
    };
    match mirror_from_mirror_obj(m) {
        Ok(Target::Git(g)) => {
            assert_eq!(g.git_dir, "my-git-mirror");
            assert_eq!(g.path, "");
            assert!(!g.rebase);
            assert_eq!(g.branch, "b");
        }
        _ => panic!("a git mirror"),
    }
}

#[test]
fn custom_command_mirror_target() {
    let m = Mirror {
        name: "cc".to_string(),
        git: None,
        custom_command: Some(CustomCommandsMirror { package: vec!["p".to_string()], upload: vec!["u".to_string()] }),
    };
    match mirror_from_mirror_obj(m) {
        Ok(Target::CustomCommands(c)) => {
            assert_eq!(c.package, vec!["p".to_string()]);
            assert_eq!(c.upload, vec!["u".to_string()]);
        }
        _ => panic!("custom commands"),
    }
}

#[test]
fn unknown_mirror_kind() {
    let m = Mirror { name: "nothing".to_string(), git: None, custom_command: None };
    match mirror_from_mirror_obj(m) {
        Err(e) => {
            assert!(matches!(e, MirrorError::UnknownKind(_)));
            assert_eq!(e.message(), "a kind is unknown for the mirror nothing");
        }
        Ok(_) => panic!("no kind"),
    }
}
