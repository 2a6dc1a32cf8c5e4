use helmule::mirror::CustomCommands;
use helmule::source::ChartLocal;
use helmule::step::{Plan, Step};
use helmule::template::Timestamp;
use helmule::vars::Variables;

fn get_chart_local() -> ChartLocal {
    let mut vars = Variables::new();
    vars.insert("key".to_string(), "value".to_string());
    ChartLocal {
        name: "chart".to_string(),
        version: "1.0.0".to_string(),
        path: "chart-1.0.0".to_string(),
        repo_url: "https:://helm.repo".to_string(),
        vars,
    }
}

fn now() -> Timestamp {
    Timestamp { date: "2024-01-02".to_string(), time: "03-04-05".to_string() }
}

/// The commands a plan runs, each with the directory it runs from.
fn commands(plan: &Plan) -> Vec<(String, Option<String>)> {
    plan.steps
        .iter()
        .map(|s| match s {
            Step::Run { command, dir } => (command.clone(), dir.clone()),
            _ => panic!("custom commands only run commands"),
        })
        .collect()
}

#[test]
fn test_package_basic() {
    let chart_local = get_chart_local();
    let workdir = "/tmp/workdir".to_string();

    let custom_commands = CustomCommands {
        package: vec!["touch package".to_string()],
        upload: vec!["touch upload".to_string()],
    };

    let plan = custom_commands.push(&workdir, &chart_local, &now(), true);
    assert!(plan.failure.is_none());
    let cmds = commands(&plan);

    assert!(cmds.contains(&("touch package".to_string(), Some(workdir.clone()))));
    assert!(!cmds.iter().any(|(c, _)| c == "touch upload"));
}

#[test]
fn test_upload_basic() {
    let chart_local = get_chart_local();
    let workdir = "/tmp/workdir".to_string();

    let custom_commands = CustomCommands {
        package: vec!["touch package".to_string()],
        upload: vec!["touch upload".to_string()],
    };

    let plan = custom_commands.push(&workdir, &chart_local, &now(), false);
    assert!(plan.failure.is_none());
    let cmds = commands(&plan);

    assert!(cmds.contains(&("touch package".to_string(), Some(workdir.clone()))));
    assert!(cmds.contains(&("touch upload".to_string(), Some(workdir.clone()))));
}

#[test]
fn test_templates() {
    let chart_local = get_chart_local();
    let workdir = "/tmp/workdir".to_string();

    let custom_commands = CustomCommands {
        package: vec!["touch {{ name }}-{{ version }}".to_string()],
        upload: vec!["touch {{ repo_url }}-{{ vars.key }}".to_string()],
    };

    let plan = custom_commands.push(&workdir, &chart_local, &now(), true);
    assert!(plan.failure.is_none());
    let cmds: Vec<String> = commands(&plan).into_iter().map(|(c, _)| c).collect();

    assert!(cmds.contains(&format!("touch {}-{}", chart_local.name, chart_local.version)));
    assert!(!cmds.contains(&format!(
        "touch {}-{}",
        chart_local.repo_url,
        chart_local.vars.get("key").unwrap()
    )));
}

#[test]
fn custom_commands_run_package_then_upload_in_order() {
    let custom_commands = CustomCommands {
        package: vec!["a {{ name }}".to_string(), "b".to_string()],
        upload: vec!["c {{ vars.key }}".to_string()],
    };
    let plan = custom_commands.push("/w", &get_chart_local(), &now(), false);
    assert!(plan.failure.is_none());
    let cmds: Vec<String> = commands(&plan).into_iter().map(|(c, _)| c).collect();
    assert_eq!(cmds, vec!["a chart".to_string(), "b".to_string(), "c value".to_string()]);
}

#[test]
fn custom_commands_upload_templates_render_in_full_run() {
    let custom_commands = CustomCommands {
        package: vec![],
        upload: vec!["touch {{ repo_url }}-{{ vars.key }}".to_string()],
    };
    let plan = custom_commands.push("/w", &get_chart_local(), &now(), false);
    let cmds: Vec<String> = commands(&plan).into_iter().map(|(c, _)| c).collect();
    assert_eq!(cmds, vec!["touch https:://helm.repo-value".to_string()]);
}

#[test]
fn custom_commands_stop_at_first_broken_template() {
    let custom_commands = CustomCommands {
        package: vec!["ok".to_string(), "{{#if}}".to_string(), "never".to_string()],
        upload: vec!["never either".to_string()],
    };
    let plan = custom_commands.push("/w", &get_chart_local(), &now(), false);
    assert!(plan.failure.is_some());
    let cmds: Vec<String> = commands(&plan).into_iter().map(|(c, _)| c).collect();
    assert_eq!(cmds, vec!["ok".to_string()]);
}

#[test]
fn custom_commands_stop_at_inline_partial() {
    let custom_commands = CustomCommands {
        package: vec!["ok".to_string(), "{{#*inline \"p\"}}{{> p}}{{/inline}}{{> p}}".to_string()],
        upload: vec!["never".to_string()],
    };
    let plan = custom_commands.push("/w", &get_chart_local(), &now(), false);
    assert!(plan.failure.is_some());
    let cmds: Vec<String> = commands(&plan).into_iter().map(|(c, _)| c).collect();
    assert_eq!(cmds, vec!["ok".to_string()]);
}

#[test]
fn custom_commands_dry_run_is_prefix_of_full_run() {
    let custom_commands = CustomCommands {
        package: vec!["p1".to_string(), "p2".to_string()],
        upload: vec!["u1".to_string()],
    };
    let dry = commands(&custom_commands.push("/w", &get_chart_local(), &now(), true));
    let full = commands(&custom_commands.push("/w", &get_chart_local(), &now(), false));
    assert_eq!(&full[..dry.len()], &dry[..]);
    assert_eq!(full.len(), dry.len() + 1);
}
