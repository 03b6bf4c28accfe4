use crate::error::NixError;
use crate::explain::{entry_plan, plan_views, render_into, ExplainEntry, PlanStep, RenderStep};
use vstd::prelude::*;
use vstd::string::{StrSliceExecFns, StringExecFns};

verus! {

/// The expression that reads one attribute's explain data, or null when
/// the project declares none for it.
pub open spec fn explain_expr_spec(project: Seq<char>, attribute: Seq<char>) -> Seq<char> {
    "let\n  project = import (builtins.toPath \""@ + project + "\");\n  attribute = \""@
        + attribute + "\";\nin\n  project.explain.\"${attribute}\".result or null"@
}

/// Synthesizes the explain-data lookup for one attribute.
pub fn explain_expr(project: &str, attribute: &str) -> (r: String)
    ensures
        r@ == explain_expr_spec(project@, attribute@),
{
    let mut s = String::from_str("let\n  project = import (builtins.toPath \"");
    s.append(project);
    s.append("\");\n  attribute = \"");
    s.append(attribute);
    s.append("\";\nin\n  project.explain.\"${attribute}\".result or null");
    proof {
        assert(s@ =~= explain_expr_spec(project@, attribute@));
    }
    s
}

/// The expression that tests whether the project declares explain data
/// for an attribute.
pub open spec fn has_explainer_spec(project: Seq<char>, attribute: Seq<char>) -> Seq<char> {
    "let\n  project = import (builtins.toPath \""@ + project + "\");\n  attribute = \""@
        + attribute + "\";\nin\n  project.explain ? ${attribute}"@
}

/// Synthesizes the has-explainer test for one attribute.
pub fn has_explainer_expr(project: &str, attribute: &str) -> (r: String)
    ensures
        r@ == has_explainer_spec(project@, attribute@),
{
    let mut s = String::from_str("let\n  project = import (builtins.toPath \"");
    s.append(project);
    s.append("\");\n  attribute = \"");
    s.append(attribute);
    s.append("\";\nin\n  project.explain ? ${attribute}");
    proof {
        assert(s@ =~= has_explainer_spec(project@, attribute@));
    }
    s
}

/// The expression that lists every top-level project attribute except the
/// reserved set: assertions, warnings, extend and explain themselves.
pub open spec fn attr_names_spec(project: Seq<char>) -> Seq<char> {
    "let\n  project = import (builtins.toPath \""@ + project
        + "\");\n  reserved = [ \"assertions\" \"warnings\" \"extend\" \"explain\" ];\nin\n  builtins.attrNames (builtins.removeAttrs project reserved)"@
}

/// Synthesizes the top-level attribute enumeration.
pub fn attr_names_expr(project: &str) -> (r: String)
    ensures
        r@ == attr_names_spec(project@),
{
    let mut s = String::from_str("let\n  project = import (builtins.toPath \"");
    s.append(project);
    s.append(
        "\");\n  reserved = [ \"assertions\" \"warnings\" \"extend\" \"explain\" ];\nin\n  builtins.attrNames (builtins.removeAttrs project reserved)",
    );
    proof {
        assert(s@ =~= attr_names_spec(project@));
    }
    s
}

/// What one attribute's explain lookup produced, as plain values.
#[derive(Debug)]
pub enum ExplainFetch {
    /// The evaluation itself failed.
    EvalFailed,
    /// The project declares no explain data for the attribute (null).
    Missing,
    /// The result was structured but not a well-formed explain entry.
    Undecodable,
    /// A decoded explain entry.
    Entry(ExplainEntry),
}

/// Plans one attribute of the show flow: a decoded entry is rendered, a
/// missing one renders nothing at all, and a failed fetch is an error the
/// caller reports before moving on to the next attribute.
pub fn show_attribute_plan(f: &ExplainFetch) -> (r: Result<Vec<RenderStep>, NixError>)
    ensures
        f matches ExplainFetch::Entry(e) ==> (r matches Ok(v) && plan_views(v@) == entry_plan(*e)),
        f is Missing ==> (r matches Ok(v) && v@.len() == 0),
        f is EvalFailed ==> (r matches Err(err) && err is EvaluationFailure),
        f is Undecodable ==> (r matches Err(err) && err is EvaluationFailure),
{
    match f {
        ExplainFetch::Entry(e) => {
            let mut out: Vec<RenderStep> = Vec::new();
            proof {
                assert(plan_views(out@) =~= Seq::<PlanStep>::empty());
            }
            render_into(e, &mut out);
            Ok(out)
        },
        ExplainFetch::Missing => Ok(Vec::new()),
        ExplainFetch::EvalFailed => Err(
            NixError::EvaluationFailure(String::from_str("failed to get explain entry")),
        ),
        ExplainFetch::Undecodable => Err(
            NixError::EvaluationFailure(String::from_str("failed to parse explain entry")),
        ),
    }
}

/// The concatenated plan of a whole show-all pass from position `j` on:
/// each decoded entry in order; a missing or failed attribute contributes
/// nothing and stops nothing.
pub open spec fn all_plans_from(fs: Seq<ExplainFetch>, j: int) -> Seq<PlanStep>
    decreases fs.len() - j,
{
    if 0 <= j < fs.len() {
        (match fs[j] {
            ExplainFetch::Entry(e) => entry_plan(e),
            _ => Seq::empty(),
        }) + all_plans_from(fs, j + 1)
    } else {
        Seq::empty()
    }
}

/// Plans a whole show-all pass over the fetched attributes, in order,
/// with continue-on-error semantics: a failure for one attribute never
/// prevents the remaining attributes from rendering.
pub fn show_all_plan(fetches: &Vec<ExplainFetch>) -> (r: Vec<RenderStep>)
    ensures
        plan_views(r@) == all_plans_from(fetches@, 0),
{
    let mut out: Vec<RenderStep> = Vec::new();
    let mut j: usize = 0;
    proof {
        assert(plan_views(out@) =~= Seq::<PlanStep>::empty());
        assert(plan_views(out@) + all_plans_from(fetches@, 0) =~= all_plans_from(fetches@, 0));
    }
    while j < fetches.len()
        invariant
            j <= fetches@.len(),
            plan_views(out@) + all_plans_from(fetches@, j as int) == all_plans_from(fetches@, 0),
        decreases fetches@.len() - j,
    {
        let ghost prevout = out@;
        match &fetches[j] {
            ExplainFetch::Entry(e) => {
                render_into(e, &mut out);
            },
            _ => {},
        }
        proof {
            assert(plan_views(out@) + all_plans_from(fetches@, j + 1) =~= all_plans_from(
                fetches@,
                0,
            ));
        }
        j = j + 1;
    }
    proof {
        assert(all_plans_from(fetches@, fetches@.len() as int) =~= Seq::<PlanStep>::empty());
        assert(plan_views(out@) + all_plans_from(fetches@, fetches@.len() as int) =~= plan_views(
            out@,
        ));
    }
    out
}

/// The decision after the has-explainer test of a named show.
#[derive(Debug, Clone, Copy, PartialEq, Eq, Structural)]
pub enum ShowNameDecision {
    /// The project has explain data for the name: render it.
    Show,
    /// The project has none: say so, nothing fails.
    NoInfo,
    /// The test itself failed: report it.
    Failed,
}

/// Decides a named show from the has-explainer test's outcome.
pub fn decide_show_name(b: &Result<bool, NixError>) -> (r: ShowNameDecision)
    ensures
        b matches Ok(true) <==> r == ShowNameDecision::Show,
        b matches Ok(false) <==> r == ShowNameDecision::NoInfo,
        b is Err <==> r == ShowNameDecision::Failed,
{
    match b {
        Ok(true) => ShowNameDecision::Show,
        Ok(false) => ShowNameDecision::NoInfo,
        Err(_) => ShowNameDecision::Failed,
    }
}

} // verus!
