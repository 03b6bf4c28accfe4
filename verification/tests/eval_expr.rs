use nilla_core::error::NixError;
use nilla_core::eval::{
    bool_outcome, eval_args, expect_bool, expect_names, expect_text, filter_nonempty,
    interpret_eval_output, is_null_result, names_outcome, system_expr, text_outcome, EvalOpts,
    EvalResult,
};
use nilla_core::expr::{exists_expr, main_program_expr, name_attr_expr, GetMainProgramOpts};
use nilla_core::show::{attr_names_expr, explain_expr, has_explainer_expr};
use nilla_core::store::FixedOutputStoreEntry;

fn entry() -> FixedOutputStoreEntry {
    FixedOutputStoreEntry { path: "/store/xyz-src".to_string(), hash: "HASH".to_string() }
}

fn prelude() -> String {
    "let\n  source = builtins.path { path = \"/store/xyz-src\"; sha256 = \"HASH\"; };\n  \
     project = import \"${source}/nilla.nix\";\nin\n  "
        .to_string()
}

#[test]
fn exists_expr_single_segment_is_direct_membership() {
    let e = exists_expr("nilla.nix", &entry(), "foo");
    assert_eq!(e, format!("{}project ? foo", prelude()));
}

#[test]
fn exists_expr_multi_segment_defaults_missing_structure() {
    let e = exists_expr("nilla.nix", &entry(), "a.b.c");
    assert_eq!(e, format!("{}(project.a.b or {{}}) ? c", prelude()));
}

#[test]
fn name_attr_expr_reads_dot_name() {
    let e = name_attr_expr("nilla.nix", &entry(), "packages.foo");
    assert_eq!(e, format!("{}project.packages.foo.name", prelude()));
}

#[test]
fn main_program_expr_text() {
    let opts = GetMainProgramOpts { system: "x86_64-linux".to_string() };
    let e = main_program_expr("nilla.nix", &entry(), "foo", &opts);
    assert_eq!(
        e,
        "let\n  source = builtins.path { path = \"/store/xyz-src\"; sha256 = \"HASH\"; };\n  \
         project = import \"${source}/nilla.nix\";\n  system = \"x86_64-linux\";\n  \
         name = \"foo\";\nin\n  project.packages.${name}.result.${system}.meta.mainProgram or name"
    );
}

#[test]
fn eval_args_all_flags() {
    let a = eval_args("1 + 1", &EvalOpts { json: true, impure: true });
    assert_eq!(
        a,
        vec!["eval", "--show-trace", "--json", "--impure", "--expr", "1 + 1"]
    );
}

#[test]
fn eval_args_raw_pure() {
    let a = eval_args("x", &EvalOpts { json: false, impure: false });
    assert_eq!(a, vec!["eval", "--show-trace", "--expr", "x"]);
}

#[test]
fn eval_opts_default_is_raw_impure() {
    let d = EvalOpts::default();
    assert!(!d.json);
    assert!(d.impure);
}

#[test]
fn evaluate_structured_boolean_round_trip() {
    let opts = EvalOpts { json: true, impure: true };
    let r = interpret_eval_output(&opts, true, "true\n", "").unwrap();
    assert!(matches!(r, EvalResult::Json(_)));
    assert_eq!(expect_bool(&r).unwrap(), true);
}

#[test]
fn evaluate_raw_round_trip() {
    let opts = EvalOpts { json: false, impure: true };
    let r = interpret_eval_output(&opts, true, "2\n", "").unwrap();
    match r {
        EvalResult::Raw(t) => assert_eq!(t, "2"),
        EvalResult::Json(_) => panic!("expected raw text"),
    }
}

#[test]
fn evaluate_failure_carries_stderr() {
    let opts = EvalOpts { json: true, impure: true };
    let r = interpret_eval_output(&opts, false, "", "boom");
    match r {
        Err(NixError::EvaluationFailure(d)) => assert_eq!(d, "boom"),
        _ => panic!("expected an evaluation failure"),
    }
}

#[test]
fn evaluate_malformed_structured_output_fails() {
    let opts = EvalOpts { json: true, impure: true };
    let r = interpret_eval_output(&opts, true, "{ not json", "");
    assert!(matches!(r, Err(NixError::EvaluationFailure(_))));
}

#[test]
fn expect_bool_rejects_non_boolean() {
    let opts = EvalOpts { json: true, impure: true };
    let r = interpret_eval_output(&opts, true, "\"text\"", "").unwrap();
    assert!(matches!(expect_bool(&r), Err(NixError::TypeMismatch(_))));
    let raw = EvalResult::Raw("true".to_string());
    assert!(matches!(expect_bool(&raw), Err(NixError::TypeMismatch(_))));
}

#[test]
fn expect_text_reads_string_and_rejects_others() {
    let opts = EvalOpts { json: true, impure: true };
    let r = interpret_eval_output(&opts, true, "\"x86_64-linux\"\n", "").unwrap();
    assert_eq!(expect_text(&r).unwrap(), "x86_64-linux");
    let b = interpret_eval_output(&opts, true, "true", "").unwrap();
    assert!(matches!(expect_text(&b), Err(NixError::TypeMismatch(_))));
}

#[test]
fn expect_names_reads_array_and_drops_blanks() {
    let opts = EvalOpts { json: true, impure: true };
    let r = interpret_eval_output(&opts, true, "[\"a\", \"\", \"b\", 3]", "").unwrap();
    assert_eq!(expect_names(&r).unwrap(), vec!["a", "b"]);
    let not_array = interpret_eval_output(&opts, true, "17", "").unwrap();
    assert!(matches!(expect_names(&not_array), Err(NixError::TypeMismatch(_))));
}

#[test]
fn null_result_is_recognised() {
    let opts = EvalOpts { json: true, impure: true };
    let r = interpret_eval_output(&opts, true, "null", "").unwrap();
    assert!(is_null_result(&r));
    let f = interpret_eval_output(&opts, true, "false", "").unwrap();
    assert!(!is_null_result(&f));
}

#[test]
fn filter_nonempty_keeps_order() {
    let v = vec!["".to_string(), "a".to_string(), "".to_string(), "b".to_string()];
    assert_eq!(filter_nonempty(v), vec!["a", "b"]);
}

#[test]
fn system_expr_text() {
    assert_eq!(system_expr(), "builtins.currentSystem");
}

#[test]
fn explain_expr_text() {
    let e = explain_expr("/proj/nilla.nix", "pkgs");
    assert_eq!(
        e,
        "let\n  project = import (builtins.toPath \"/proj/nilla.nix\");\n  \
         attribute = \"pkgs\";\nin\n  project.explain.\"${attribute}\".result or null"
    );
}

#[test]
fn has_explainer_expr_text() {
    let e = has_explainer_expr("/proj/nilla.nix", "pkgs");
    assert_eq!(
        e,
        "let\n  project = import (builtins.toPath \"/proj/nilla.nix\");\n  \
         attribute = \"pkgs\";\nin\n  project.explain ? ${attribute}"
    );
}

#[test]
fn attr_names_expr_excludes_reserved_set() {
    let e = attr_names_expr("/proj/nilla.nix");
    assert!(e.contains("reserved = [ \"assertions\" \"warnings\" \"extend\" \"explain\" ]"));
    assert!(e.contains("builtins.attrNames (builtins.removeAttrs project reserved)"));
}

#[test]
fn error_kind_labels() {
    assert_eq!(NixError::FileNotFound.kind_label(), "file not found");
    assert_eq!(
        NixError::StoreOperationFailure("x".to_string()).kind_label(),
        "store operation failed"
    );
    assert_eq!(NixError::ProjectNotFound("p".to_string()).kind_label(), "project not found");
}

#[test]
fn outcome_decisions() {
    assert_eq!(bool_outcome(Some(true)).unwrap(), true);
    assert!(matches!(bool_outcome(None), Err(NixError::TypeMismatch(_))));
    assert_eq!(text_outcome(Some("t".to_string())).unwrap(), "t");
    assert!(matches!(text_outcome(None), Err(NixError::TypeMismatch(_))));
    let names = names_outcome(Some(vec!["a".to_string(), "".to_string()])).unwrap();
    assert_eq!(names, vec!["a"]);
    assert!(matches!(names_outcome(None), Err(NixError::TypeMismatch(_))));
}
