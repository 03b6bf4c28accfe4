use nilla_core::error::NixError;
use nilla_core::explain::{reconcile_row, render_plan, ExplainEntry, ExplainEntryData, RenderStep};
use nilla_core::flow::{build_args, shell_args, BuildFlow, BuildOpts, BuildPhase, BuildRequest, ShellOpts};
use nilla_core::show::{decide_show_name, show_all_plan, show_attribute_plan, ExplainFetch, ShowNameDecision};

fn request(name: Option<&str>, system: Option<&str>) -> BuildRequest {
    BuildRequest {
        entry_file: "/proj/nilla.nix".to_string(),
        name: name.map(|s| s.to_string()),
        system_flag: system.map(|s| s.to_string()),
        link: true,
        print_out_paths: true,
    }
}

#[test]
fn missing_entry_file_aborts_before_any_evaluation() {
    let mut flow = BuildFlow::start(request(Some("foo"), None));
    assert_eq!(flow.phase, BuildPhase::CheckingFile);
    let r = flow.on_file_check(false);
    assert!(matches!(r, Err(NixError::FileNotFound)));
    assert_eq!(flow.phase, BuildPhase::Failed);
}

#[test]
fn plain_name_expands_before_existence_check() {
    let mut flow = BuildFlow::start(request(Some("foo"), Some("x86_64-linux")));
    flow.on_file_check(true).unwrap();
    assert_eq!(flow.phase, BuildPhase::CheckingAttr);
    assert_eq!(flow.attr, "packages.\"foo\".result.\"x86_64-linux\"");
}

#[test]
fn dotted_name_is_used_verbatim() {
    let mut flow = BuildFlow::start(request(Some("shells.dev"), Some("s")));
    flow.on_file_check(true).unwrap();
    assert_eq!(flow.attr, "shells.dev");
}

#[test]
fn no_name_selects_default_package() {
    let mut flow = BuildFlow::start(request(None, None));
    flow.on_file_check(true).unwrap();
    assert_eq!(flow.phase, BuildPhase::ResolvingSystem);
    flow.on_system(Ok("aarch64-linux".to_string())).unwrap();
    assert_eq!(flow.system, "aarch64-linux");
    assert_eq!(flow.attr, "packages.default.result.\"aarch64-linux\"");
}

#[test]
fn system_lookup_failure_aborts() {
    let mut flow = BuildFlow::start(request(None, None));
    flow.on_file_check(true).unwrap();
    let r = flow.on_system(Err(NixError::TypeMismatch("not text".to_string())));
    assert!(matches!(r, Err(NixError::TypeMismatch(_))));
    assert_eq!(flow.phase, BuildPhase::Failed);
}

#[test]
fn absent_attribute_aborts_with_its_path() {
    let mut flow = BuildFlow::start(request(Some("foo"), Some("s")));
    flow.on_file_check(true).unwrap();
    let r = flow.on_exists(Ok(false));
    match r {
        Err(NixError::AttributeNotFound(a)) => assert_eq!(a, "packages.\"foo\".result.\"s\""),
        _ => panic!("expected attribute-not-found"),
    }
    assert_eq!(flow.phase, BuildPhase::Failed);
}

#[test]
fn full_flow_builds_and_reports_paths() {
    let mut flow = BuildFlow::start(request(Some("foo"), Some("x86_64-linux")));
    flow.on_file_check(true).unwrap();
    flow.on_exists(Ok(true)).unwrap();
    let (class, shown) = flow.on_classified(Some("my-foo".to_string()));
    assert_eq!(class, nilla_core::attr::BuildClassification::Package);
    assert_eq!(shown, "my-foo");
    let args = flow.builder_args();
    assert_eq!(
        args,
        vec![
            "build",
            "--print-out-paths",
            "-f",
            "/proj/nilla.nix",
            "--system",
            "x86_64-linux",
            "packages.\"foo\".result.\"x86_64-linux\""
        ]
    );
    let r = flow
        .on_build_result(true, vec!["/store/out".to_string()], "")
        .unwrap();
    assert_eq!(r, vec!["/store/out"]);
    assert_eq!(flow.phase, BuildPhase::Done);
}

#[test]
fn classification_falls_back_to_raw_attribute() {
    let mut flow = BuildFlow::start(request(Some("other.thing"), Some("s")));
    flow.on_file_check(true).unwrap();
    flow.on_exists(Ok(true)).unwrap();
    let (class, shown) = flow.on_classified(None);
    assert_eq!(class, nilla_core::attr::BuildClassification::Unknown);
    assert_eq!(shown, "other.thing");
}

#[test]
fn builder_failure_aborts_with_diagnostics() {
    let mut flow = BuildFlow::start(request(None, Some("s")));
    flow.on_file_check(true).unwrap();
    flow.on_exists(Ok(true)).unwrap();
    flow.on_classified(None);
    let r = flow.on_build_result(false, Vec::new(), "builder broke");
    match r {
        Err(NixError::BuildFailure(d)) => assert_eq!(d, "builder broke"),
        _ => panic!("expected a build failure"),
    }
}

#[test]
fn build_args_options() {
    let a = build_args(
        "f.nix",
        "attr",
        &BuildOpts { link: false, report: false, system: "".to_string() },
    );
    assert_eq!(a, vec!["build", "--no-link", "-f", "f.nix", "attr"]);
}

#[test]
fn shell_args_options() {
    let a = shell_args("f.nix", "dev", &ShellOpts { system: "s".to_string() });
    assert_eq!(a, vec!["f.nix", "--system", "s", "-A", "dev"]);
    let b = shell_args("f.nix", "dev", &ShellOpts { system: "".to_string() });
    assert_eq!(b, vec!["f.nix", "-A", "dev"]);
}

#[test]
fn short_row_is_padded_with_empty_cells() {
    let row = vec!["x".to_string(), "y".to_string()];
    assert_eq!(reconcile_row(3, &row), vec!["x", "y", ""]);
}

#[test]
fn long_row_is_truncated() {
    let row = vec!["x".to_string(), "y".to_string(), "z".to_string(), "w".to_string()];
    assert_eq!(reconcile_row(3, &row), vec!["x", "y", "z"]);
}

fn leaf(name: &str, description: &str) -> ExplainEntry {
    ExplainEntry {
        name: name.to_string(),
        description: description.to_string(),
        data: ExplainEntryData { columns: Vec::new(), rows: Vec::new() },
        entries: Vec::new(),
    }
}

#[test]
fn render_plan_emission_order() {
    let e = ExplainEntry {
        name: "pkgs".to_string(),
        description: "the packages".to_string(),
        data: ExplainEntryData {
            columns: vec!["a".to_string(), "b".to_string(), "c".to_string()],
            rows: vec![vec!["x".to_string(), "y".to_string()]],
        },
        entries: vec![leaf("child", "")],
    };
    let plan = render_plan(&e);
    let mut it = plan.iter();
    match it.next().unwrap() {
        RenderStep::Header(h) => assert_eq!(h, "pkgs"),
        _ => panic!("expected the header first"),
    }
    assert!(matches!(it.next().unwrap(), RenderStep::Blank));
    match it.next().unwrap() {
        RenderStep::Text(d) => assert_eq!(d, "the packages"),
        _ => panic!("expected the description"),
    }
    assert!(matches!(it.next().unwrap(), RenderStep::Blank));
    match it.next().unwrap() {
        RenderStep::TableHead(c) => assert_eq!(c, &vec!["a", "b", "c"]),
        _ => panic!("expected the table header"),
    }
    match it.next().unwrap() {
        RenderStep::TableRow(r) => assert_eq!(r, &vec!["x", "y", ""]),
        _ => panic!("expected the reconciled row"),
    }
    assert!(matches!(it.next().unwrap(), RenderStep::Blank));
    match it.next().unwrap() {
        RenderStep::Header(h) => assert_eq!(h, "child"),
        _ => panic!("expected the child header"),
    }
    assert!(matches!(it.next().unwrap(), RenderStep::Blank));
    assert!(matches!(it.next().unwrap(), RenderStep::Blank));
    assert!(it.next().is_none());
}

#[test]
fn empty_description_and_table_are_skipped() {
    let plan = render_plan(&leaf("only", ""));
    assert_eq!(plan.len(), 2);
    assert!(matches!(&plan[0], RenderStep::Header(_)));
    assert!(matches!(&plan[1], RenderStep::Blank));
}

#[test]
fn one_failed_attribute_does_not_stop_the_rest() {
    let fetches = vec![
        ExplainFetch::Entry(leaf("first", "")),
        ExplainFetch::EvalFailed,
        ExplainFetch::Entry(leaf("second", "")),
    ];
    let plan = show_all_plan(&fetches);
    let headers: Vec<&str> = plan
        .iter()
        .filter_map(|s| match s {
            RenderStep::Header(h) => Some(h.as_str()),
            _ => None,
        })
        .collect();
    assert_eq!(headers, vec!["first", "second"]);
}

#[test]
fn show_attribute_outcomes() {
    assert!(matches!(
        show_attribute_plan(&ExplainFetch::Missing),
        Ok(v) if v.is_empty()
    ));
    assert!(matches!(
        show_attribute_plan(&ExplainFetch::EvalFailed),
        Err(NixError::EvaluationFailure(_))
    ));
    assert!(matches!(
        show_attribute_plan(&ExplainFetch::Undecodable),
        Err(NixError::EvaluationFailure(_))
    ));
    let r = show_attribute_plan(&ExplainFetch::Entry(leaf("n", ""))).unwrap();
    assert_eq!(r.len(), 2);
}

#[test]
fn named_show_decisions() {
    assert_eq!(decide_show_name(&Ok(true)), ShowNameDecision::Show);
    assert_eq!(decide_show_name(&Ok(false)), ShowNameDecision::NoInfo);
    assert_eq!(
        decide_show_name(&Err(NixError::EvaluationFailure("e".to_string()))),
        ShowNameDecision::Failed
    );
}
