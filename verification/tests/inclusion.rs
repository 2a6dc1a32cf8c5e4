use helmule::config::{Chart, Config, CustomCommandsMirror, Mirror, Repository, Helm};
use helmule::extension::Extension;
use helmule::inclusion::{apply_includes, include_chart, is_path_relative, rebase_config_charts, Included};
use helmule::patch::{CustomCommandPatch, GitPatch, Patch, RegexpPatch};

fn no_resolve(_: String) -> Option<String> {
    None
}

fn chart(name: &str) -> Chart {
    Chart {
        name: name.to_string(),
        repository: "r".to_string(),
        mirrors: vec![],
        version: None,
        extensions: None,
        patches: None,
        variables: None,
        repository_obj: None,
        mirror_objs: None,
    }
}

fn ext(source_dir: &str) -> Extension {
    Extension {
        name: Some("ext".to_string()),
        target_dir: "./templates/extensions".to_string(),
        source_dir: source_dir.to_string(),
    }
}

fn regexp_patch(path: &str) -> Patch {
    Patch {
        name: None,
        regexp: Some(RegexpPatch { path: path.to_string() }),
        git: None,
        custom_command: None,
        yq: None,
    }
}

fn git_patch(path: &str) -> Patch {
    Patch {
        name: None,
        regexp: None,
        git: Some(GitPatch { path: path.to_string() }),
        custom_command: None,
        yq: None,
    }
}

fn empty_config() -> Config {
    Config {
        includes: None,
        variables: None,
        repositories: None,
        charts: None,
        mirrors: None,
        patches: None,
    }
}

#[test]
fn relative_paths() {
    assert!(is_path_relative("./extensions".to_string()));
    assert!(is_path_relative("extensions".to_string()));
    assert!(is_path_relative("".to_string()));
    assert!(!is_path_relative("/etc/extensions".to_string()));
}

#[test]
fn included_extensions_are_rebased() {
    let mut c = chart("flux2");
    c.extensions = Some(vec![ext("./extensions"), ext("extensions"), ext("/abs/extensions"), ext(".//abs")]);
    let out = include_chart("configs/charts.yaml".to_string(), vec![c], &no_resolve).ok().unwrap();
    let dirs: Vec<String> = out[0].extensions.as_ref().unwrap().iter().map(|e| e.source_dir.clone()).collect();
    assert_eq!(
        dirs,
        vec![
            "configs/extensions".to_string(),
            "configs/extensions".to_string(),
            "/abs/extensions".to_string(),
            ".//abs".to_string(),
        ]
    );
    assert_eq!(out[0].extensions.as_ref().unwrap()[0].target_dir, "./templates/extensions");
}

#[test]
fn included_patches_are_rebased() {
    let mut c = chart("flux2");
    let mut cc = regexp_patch("x");
    cc.regexp = None;
    cc.custom_command = Some(CustomCommandPatch { commands: vec!["echo".to_string()] });
    c.patches = Some(vec![regexp_patch("./regexp"), git_patch("flux2.patch"), git_patch("kept.patch"), cc]);
    let resolve = |p: String| if p == "kept.patch" { Some("/cwd/kept.patch".to_string()) } else { None };
    let out = include_chart("/cfg/charts.yaml".to_string(), vec![c], &resolve).ok().unwrap();
    let ps = out[0].patches.as_ref().unwrap();
    assert_eq!(ps[0].regexp.as_ref().unwrap().path, "/cfg/regexp");
    assert_eq!(ps[1].git.as_ref().unwrap().path, "/cfg/flux2.patch");
    assert_eq!(ps[2].git.as_ref().unwrap().path, "kept.patch");
    assert_eq!(ps[3].custom_command.as_ref().unwrap().commands, vec!["echo".to_string()]);
}

#[test]
fn included_chart_from_current_dir() {
    let mut c = chart("flux2");
    c.extensions = Some(vec![ext("./extensions")]);
    let out = include_chart("charts.yaml".to_string(), vec![c], &no_resolve).ok().unwrap();
    assert_eq!(out[0].extensions.as_ref().unwrap()[0].source_dir, "extensions");
}

#[test]
fn include_without_parent_dir_fails() {
    match include_chart("/".to_string(), vec![chart("a")], &no_resolve) {
        Err(e) => assert_eq!(e.message(), "chart parrent dir not found for /"),
        Ok(_) => panic!("the root has no parent"),
    }
}

#[test]
fn includes_come_after_existing_entries_in_order() {
    let mut config = empty_config();
    config.charts = Some(vec![chart("main")]);
    let mirror = Mirror {
        name: "m".to_string(),
        git: None,
        custom_command: Some(CustomCommandsMirror { package: vec![], upload: vec![] }),
    };
    let repo = Repository { name: "r".to_string(), helm: Some(Helm { url: "https://r".to_string() }), git: None };
    apply_includes(
        &mut config,
        vec![
            Included::Charts(vec![chart("one"), chart("two")]),
            Included::Mirrors(vec![mirror]),
            Included::Charts(vec![chart("three")]),
            Included::Repositories(vec![repo]),
        ],
    );
    let names: Vec<String> = config.charts.unwrap().iter().map(|c| c.name.clone()).collect();
    assert_eq!(names, vec!["main", "one", "two", "three"]);
    assert_eq!(config.mirrors.unwrap()[0].name, "m");
    assert_eq!(config.repositories.unwrap()[0].name, "r");
}

#[test]
fn empty_include_still_sets_list() {
    let mut config = empty_config();
    apply_includes(&mut config, vec![Included::Mirrors(vec![])]);
    assert_eq!(config.mirrors.unwrap().len(), 0);
    assert!(config.charts.is_none());
    assert!(config.repositories.is_none());
}

#[test]
fn extension_names_and_targets() {
    assert_eq!(ext("s").display_name(), "ext");
    let unnamed = Extension { name: None, target_dir: "t".to_string(), source_dir: "s".to_string() };
    assert_eq!(unnamed.display_name(), "Unnamed");
    assert_eq!(unnamed.target_path("/w/chart-1.0.0"), "/w/chart-1.0.0/t");
}

#[test]
fn config_charts_are_relative_to_config_file() {
    let mut config = empty_config();
    let mut c = chart("flux2");
    c.extensions = Some(vec![ext("./extensions")]);
    c.patches = Some(vec![regexp_patch("./patch/to/patch"), git_patch("/abs/flux2.patch")]);
    config.charts = Some(vec![c]);
    assert!(rebase_config_charts(&mut config, "/etc/helmule/helmule.yaml".to_string(), &no_resolve).is_ok());
    let charts = config.charts.unwrap();
    assert_eq!(charts[0].extensions.as_ref().unwrap()[0].source_dir, "/etc/helmule/extensions");
    let ps = charts[0].patches.as_ref().unwrap();
    assert_eq!(ps[0].regexp.as_ref().unwrap().path, "/etc/helmule/patch/to/patch");
    assert_eq!(ps[1].git.as_ref().unwrap().path, "/abs/flux2.patch");
}

#[test]
fn config_in_current_dir_keeps_relative_paths() {
    let mut config = empty_config();
    let mut c = chart("flux2");
    c.extensions = Some(vec![ext("./extensions")]);
    config.charts = Some(vec![c]);
    assert!(rebase_config_charts(&mut config, "helmule.yaml".to_string(), &no_resolve).is_ok());
    assert_eq!(config.charts.unwrap()[0].extensions.as_ref().unwrap()[0].source_dir, "extensions");
}

#[test]
fn config_without_charts_is_left_alone() {
    let mut config = empty_config();
    assert!(rebase_config_charts(&mut config, "helmule.yaml".to_string(), &no_resolve).is_ok());
    assert!(config.charts.is_none());
    match rebase_config_charts(&mut config, "/".to_string(), &no_resolve) {
        Err(e) => assert_eq!(e.message(), "chart parrent dir not found for /"),
        Ok(_) => panic!("the root has no parent"),
    }
}
