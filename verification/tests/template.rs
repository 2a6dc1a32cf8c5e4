use helmule::source::ChartLocal;
use helmule::template::{data_json, render, template_is_safe, Timestamp};
use helmule::vars::Variables;

fn chart_local(vars: &[(&str, &str)]) -> ChartLocal {
    let mut v = Variables::new();
    for (k, val) in vars {
        v.insert(k.to_string(), val.to_string());
    }
    ChartLocal {
        name: "flux2".to_string(),
        version: "2.12.4".to_string(),
        path: "/w/flux2-2.12.4".to_string(),
        repo_url: "https://fluxcd-community.github.io/helm-charts".to_string(),
        vars: v,
    }
}

fn now() -> Timestamp {
    Timestamp { date: "2024-05-06".to_string(), time: "07-08-09".to_string() }
}

#[test]
fn data_json_is_exact() {
    let c = chart_local(&[("a", "1"), ("b", "x\"y\\z\n")]);
    assert_eq!(
        data_json(&c, &now()),
        "{\"name\":\"flux2\",\"version\":\"2.12.4\",\"path\":\"/w/flux2-2.12.4\",\"repo_url\":\"https://fluxcd-community.github.io/helm-charts\",\"vars\":{\"a\":\"1\",\"b\":\"x\\\"y\\\\z\\u000a\"},\"date\":\"2024-05-06\",\"time\":\"07-08-09\"}"
    );
}

#[test]
fn render_fields_vars_date_and_time() {
    let c = chart_local(&[("git-msg", "Hello there")]);
    let out = render("{{ name }}-{{ version }} {{ vars.git-msg }} {{ date }} {{ time }}", &c, &now());
    assert_eq!(out.ok().unwrap(), "flux2-2.12.4 Hello there 2024-05-06 07-08-09");
}

#[test]
fn render_keeps_odd_characters_of_variables() {
    let c = chart_local(&[("msg", "line1\nline2 \"quoted\"")]);
    let out = render("{{{ vars.msg }}}", &c, &now()).ok().unwrap();
    assert_eq!(out, "line1\nline2 \"quoted\"");
}

#[test]
fn render_escapes_html_like_handlebars() {
    let c = chart_local(&[("v", "a&b")]);
    assert_eq!(render("{{ vars.v }}", &c, &now()).ok().unwrap(), "a&amp;b");
}

#[test]
fn render_reports_broken_template() {
    match render("{{#if}}", &chart_local(&[]), &now()) {
        Err(e) => assert!(!e.message.is_empty()),
        Ok(_) => panic!("the template does not parse"),
    }
}

#[test]
fn template_check_refuses_partials_and_decorators() {
    assert!(!template_is_safe("{{#*inline \"p\"}}{{> p}}{{/inline}}{{> p}}"));
    assert!(!template_is_safe("{{> p}}"));
    assert!(!template_is_safe("{{~#> layout}}x{{/layout}}"));
    assert!(!template_is_safe("{{ > p}}"));
    assert!(!template_is_safe("{{*decorator}}"));
}

#[test]
fn template_check_accepts_ordinary_templates() {
    assert!(template_is_safe(""));
    assert!(template_is_safe("helmuled {{ name }}-{{ version }}"));
    assert!(template_is_safe("{{#if vars.x}}a > b{{else}}c{{/if}} {{{ vars.y }}}"));
    assert!(template_is_safe("a > b * c"));
}

#[test]
fn template_check_bounds_nesting() {
    let ok = "#".repeat(32);
    assert!(template_is_safe(&ok));
    let deep = "#".repeat(33);
    assert!(!template_is_safe(&deep));
    let mut nested = String::new();
    for _ in 0..40 {
        nested.push_str("{{#if name}}");
    }
    assert!(!template_is_safe(&nested));
}

#[test]
fn render_refuses_self_including_partial() {
    let out = render("{{#*inline \"p\"}}{{> p}}{{/inline}}{{> p}}", &chart_local(&[]), &now());
    match out {
        Err(e) => assert_eq!(e.message, "template uses partials or decorators, or nests too deeply"),
        Ok(_) => panic!("a partial must be refused"),
    }
}
