use crate::error::NixError;
use crate::text::{trim, trim_spec, views};
use vstd::prelude::*;
use vstd::string::{StrSliceExecFns, StringExecFns};

verus! {

/// Options of one evaluator invocation: whether machine-readable
/// (structured) output is requested, and whether evaluation may read the
/// ambient filesystem and environment.
pub struct EvalOpts {
    pub json: bool,
    pub impure: bool,
}

impl Default for EvalOpts {
    /// Raw output, impure evaluation.
    fn default() -> (r: Self)
        ensures
            !r.json,
            r.impure,
    {
        EvalOpts { json: false, impure: true }
    }
}

#[verifier::external_type_specification]
#[verifier::external_body]
pub struct ExValue(serde_json::Value);

/// The outcome of a successful evaluator invocation: a structured value
/// when structured output was requested, otherwise the raw text.
#[derive(Debug)]
pub enum EvalResult {
    Json(serde_json::Value),
    Raw(String),
}

/// Whether a text is a well-formed structured document, as the external
/// parser decides it; a function of the text alone.
pub uninterp spec fn json_parses(s: Seq<char>) -> bool;

/// Relies on serde_json::from_str: parsing succeeds exactly on well-formed
/// JSON text, and the parsed value depends on the text alone.
#[verifier::external_body]
fn parse_json(s: &str) -> (r: Option<serde_json::Value>)
    ensures
        r is Some <==> json_parses(s@),
{
    serde_json::from_str::<serde_json::Value>(s).ok()
}

/// Relies on serde_json::Value::as_bool: the payload when the value is a
/// JSON boolean, nothing otherwise.
#[verifier::external_body]
fn value_as_bool(v: &serde_json::Value) -> Option<bool> {
    v.as_bool()
}

/// Relies on serde_json::Value::as_str: the payload when the value is a
/// JSON string, nothing otherwise.
#[verifier::external_body]
fn value_as_text(v: &serde_json::Value) -> Option<String> {
    v.as_str().map(|s| s.to_string())
}

/// Relies on serde_json::Value::is_null.
#[verifier::external_body]
fn value_is_null(v: &serde_json::Value) -> bool {
    v.is_null()
}

/// Relies on serde_json::Value::as_array and Value::as_str: the elements
/// of a JSON array as text, a non-string element yielding the empty
/// string; nothing when the value is not an array.
#[verifier::external_body]
fn value_text_items(v: &serde_json::Value) -> Option<Vec<String>> {
    v.as_array().map(|a| a.iter().map(|n| n.as_str().unwrap_or_default().to_string()).collect())
}

/// The argument list of one evaluator invocation: trace reporting always
/// on, structured output and impurity by option, then the expression.
pub open spec fn eval_args_spec(code: Seq<char>, json: bool, impure: bool) -> Seq<Seq<char>> {
    seq!["eval"@, "--show-trace"@] + (if json {
        seq!["--json"@]
    } else {
        Seq::empty()
    }) + (if impure {
        seq!["--impure"@]
    } else {
        Seq::empty()
    }) + seq!["--expr"@, code]
}

/// Builds the evaluator's argument list for an expression.
pub fn eval_args(code: &str, opts: &EvalOpts) -> (r: Vec<String>)
    ensures
        views(r@) == eval_args_spec(code@, opts.json, opts.impure),
{
    let mut args: Vec<String> = Vec::new();
    args.push(String::from_str("eval"));
    args.push(String::from_str("--show-trace"));
    if opts.json {
        args.push(String::from_str("--json"));
    }
    if opts.impure {
        args.push(String::from_str("--impure"));
    }
    args.push(String::from_str("--expr"));
    args.push(code.to_owned());
    proof {
        assert(views(args@) =~= eval_args_spec(code@, opts.json, opts.impure));
    }
    args
}

/// Interprets one finished evaluator invocation.  Nonzero exit fails with
/// the captured diagnostics; on success the trimmed standard output is the
/// result, parsed as a structured value exactly when one was requested and
/// failing when that parse fails.
pub fn interpret_eval_output(opts: &EvalOpts, success: bool, stdout: &str, stderr: &str) -> (r:
    Result<EvalResult, NixError>)
    ensures
        !success ==> (r matches Err(e) && e matches NixError::EvaluationFailure(d) && d@
            == stderr@),
        success && !opts.json ==> (r matches Ok(v) && v matches EvalResult::Raw(t) && t@
            == trim_spec(stdout@)),
        success && opts.json && json_parses(trim_spec(stdout@)) ==> (r matches Ok(v)
            && v is Json),
        success && opts.json && !json_parses(trim_spec(stdout@)) ==> (r matches Err(e)
            && e is EvaluationFailure),
{
    if !success {
        return Err(NixError::EvaluationFailure(stderr.to_owned()));
    }
    let t = trim(stdout);
    if opts.json {
        match parse_json(t.as_str()) {
            Some(v) => Ok(EvalResult::Json(v)),
            None => Err(NixError::EvaluationFailure(t)),
        }
    } else {
        Ok(EvalResult::Raw(t))
    }
}

/// Decides the boolean expectation from what a structured value revealed
/// of itself: the payload when it was a boolean, a type mismatch for any
/// other shape.
pub fn bool_outcome(v: Option<bool>) -> (r: Result<bool, NixError>)
    ensures
        v matches Some(b) ==> (r matches Ok(x) && x == b),
        v is None ==> (r matches Err(e) && e is TypeMismatch),
{
    match v {
        Some(b) => Ok(b),
        None => Err(NixError::TypeMismatch(String::from_str("expected a boolean result"))),
    }
}

/// Expects a boolean structured result, as the existence check does; any
/// other shape is a type mismatch.
pub fn expect_bool(r: &EvalResult) -> (b: Result<bool, NixError>)
    ensures
        r is Raw ==> (b matches Err(e) && e is TypeMismatch),
        b is Ok ==> r is Json,
        b matches Err(e) ==> e is TypeMismatch,
{
    match r {
        EvalResult::Json(v) => bool_outcome(value_as_bool(v)),
        EvalResult::Raw(_) => Err(
            NixError::TypeMismatch(String::from_str("expected a structured result")),
        ),
    }
}

/// Decides the textual expectation from what a structured value revealed
/// of itself: the payload when it was a string, a type mismatch for any
/// other shape.
pub fn text_outcome(v: Option<String>) -> (r: Result<String, NixError>)
    ensures
        v matches Some(t) ==> (r matches Ok(x) && x@ == t@),
        v is None ==> (r matches Err(e) && e is TypeMismatch),
{
    match v {
        Some(t) => Ok(t),
        None => Err(NixError::TypeMismatch(String::from_str("expected a textual result"))),
    }
}

/// Expects a textual structured result, as the platform and display-name
/// lookups do; any other shape is a type mismatch.
pub fn expect_text(r: &EvalResult) -> (b: Result<String, NixError>)
    ensures
        r is Raw ==> (b matches Err(e) && e is TypeMismatch),
        b is Ok ==> r is Json,
        b matches Err(e) ==> e is TypeMismatch,
{
    match r {
        EvalResult::Json(v) => text_outcome(value_as_text(v)),
        EvalResult::Raw(_) => Err(
            NixError::TypeMismatch(String::from_str("expected a structured result")),
        ),
    }
}

/// The predicate that keeps a non-empty string.
pub open spec fn nonempty_pred() -> spec_fn(Seq<char>) -> bool {
    |s: Seq<char>| s.len() > 0
}

/// Keeps the non-empty strings, in order.
pub fn filter_nonempty(items: Vec<String>) -> (r: Vec<String>)
    ensures
        views(r@) == views(items@).filter(nonempty_pred()),
        forall|i: int| 0 <= i < r@.len() ==> r@[i]@.len() > 0,
{
    let n = items.len();
    let mut res: Vec<String> = Vec::new();
    let mut i: usize = 0;
    proof {
        reveal(Seq::filter);
        assert(views(items@.take(0)) =~= Seq::<Seq<char>>::empty());
        assert(views(res@) =~= Seq::<Seq<char>>::empty());
        assert(Seq::<Seq<char>>::empty().filter(nonempty_pred())
            =~= Seq::<Seq<char>>::empty());
    }
    while i < n
        invariant
            n == items@.len(),
            i <= n,
            views(res@) == views(items@.take(i as int)).filter(nonempty_pred()),
            forall|k: int| 0 <= k < res@.len() ==> res@[k]@.len() > 0,
        decreases n - i,
    {
        let ghost prev = views(items@.take(i as int)).filter(nonempty_pred());
        let ghost oldres = res@;
        let keep = items[i].as_str().unicode_len() > 0;
        if keep {
            res.push(items[i].clone());
        }
        proof {
            reveal(Seq::filter);
            let pred = nonempty_pred();
            let cur = views(items@.take(i + 1));
            assert(cur.len() > 0);
            assert(cur.drop_last() =~= views(items@.take(i as int)));
            assert(cur.last() == items@[i as int]@);
            if keep {
                assert(res@ == oldres.push(items@[i as int]));
                assert(views(res@) =~= views(oldres).push(items@[i as int]@));
                assert(pred(cur.last()));
                assert(cur.filter(pred) == cur.drop_last().filter(pred).push(cur.last()));
            } else {
                assert(!pred(cur.last()));
                assert(cur.filter(pred) == cur.drop_last().filter(pred));
            }
        }
        i = i + 1;
    }
    proof {
        assert(items@.take(n as int) =~= items@);
    }
    res
}

/// Decides the name-list expectation from what a structured value
/// revealed of itself: the array's textual elements with empty entries
/// dropped, a type mismatch for any other shape.
pub fn names_outcome(v: Option<Vec<String>>) -> (r: Result<Vec<String>, NixError>)
    ensures
        v matches Some(items) ==> (r matches Ok(out) && views(out@) == views(items@).filter(
            nonempty_pred(),
        )),
        r matches Ok(out) ==> forall|i: int| 0 <= i < out@.len() ==> out@[i]@.len() > 0,
        v is None ==> (r matches Err(e) && e is TypeMismatch),
{
    match v {
        Some(items) => Ok(filter_nonempty(items)),
        None => Err(NixError::TypeMismatch(String::from_str("expected a list of names"))),
    }
}

/// Expects a structured list of attribute names: the array's textual
/// elements, empty entries dropped; any other shape is a type mismatch.
pub fn expect_names(r: &EvalResult) -> (b: Result<Vec<String>, NixError>)
    ensures
        r is Raw ==> (b matches Err(e) && e is TypeMismatch),
        b is Ok ==> r is Json,
        b matches Ok(v) ==> forall|i: int| 0 <= i < v@.len() ==> v@[i]@.len() > 0,
        b matches Err(e) ==> e is TypeMismatch,
{
    match r {
        EvalResult::Json(v) => names_outcome(value_text_items(v)),
        EvalResult::Raw(_) => Err(
            NixError::TypeMismatch(String::from_str("expected a structured result")),
        ),
    }
}

/// Whether a structured result is the null value, which the explain flow
/// treats as "nothing to show".
pub fn is_null_result(r: &EvalResult) -> (b: bool)
    ensures
        r is Raw ==> !b,
{
    match r {
        EvalResult::Json(v) => value_is_null(v),
        EvalResult::Raw(_) => false,
    }
}

/// The expression that evaluates the builtin current-platform identifier.
pub fn system_expr() -> (r: String)
    ensures
        r@ == "builtins.currentSystem"@,
{
    String::from_str("builtins.currentSystem")
}

} // verus!
