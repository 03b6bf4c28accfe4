use crate::text::views;
use vstd::prelude::*;
use vstd::string::{StrSliceExecFns, StringExecFns};

verus! {

/// The tabular part of an explain entry.  A row's cell count need not
/// equal the column count; reconciliation happens only at render time and
/// never mutates this data.
#[derive(Debug)]
pub struct ExplainEntryData {
    pub columns: Vec<String>,
    pub rows: Vec<Vec<String>>,
}

/// A recursive, user-facing descriptive node returned by evaluating a
/// project's self-documentation data.
#[derive(Debug)]
pub struct ExplainEntry {
    pub name: String,
    pub description: String,
    pub data: ExplainEntryData,
    pub entries: Vec<ExplainEntry>,
}

/// One step of a rendering plan, in emission order.
#[derive(Debug)]
pub enum RenderStep {
    /// The entry's name, as a visually distinguished header line.
    Header(String),
    /// A blank separator line.
    Blank,
    /// A plain paragraph (the entry's description).
    Text(String),
    /// The bolded header row of a table.
    TableHead(Vec<String>),
    /// One data row of a table, already reconciled to the column count.
    TableRow(Vec<String>),
}

/// The mathematical shadow of a `RenderStep`.
pub enum PlanStep {
    Header(Seq<char>),
    Blank,
    Text(Seq<char>),
    TableHead(Seq<Seq<char>>),
    TableRow(Seq<Seq<char>>),
}

/// The shadow of one step.
pub open spec fn step_view(s: RenderStep) -> PlanStep {
    match s {
        RenderStep::Header(t) => PlanStep::Header(t@),
        RenderStep::Blank => PlanStep::Blank,
        RenderStep::Text(t) => PlanStep::Text(t@),
        RenderStep::TableHead(c) => PlanStep::TableHead(views(c@)),
        RenderStep::TableRow(c) => PlanStep::TableRow(views(c@)),
    }
}

/// The shadows of a sequence of steps.
pub open spec fn plan_views(q: Seq<RenderStep>) -> Seq<PlanStep> {
    q.map_values(|s: RenderStep| step_view(s))
}

/// A row reconciled against the column count: missing trailing cells
/// become empty, surplus trailing cells are dropped.
pub open spec fn row_reconciled(cols: nat, row: Seq<Seq<char>>) -> Seq<Seq<char>> {
    Seq::new(
        cols,
        |i: int|
            if i < row.len() {
                row[i]
            } else {
                Seq::empty()
            },
    )
}

/// Reconciles one data row against the column count: a row with fewer
/// cells than columns is padded with empty cells at the end, one with more
/// is truncated.
pub fn reconcile_row(columns: usize, row: &Vec<String>) -> (r: Vec<String>)
    ensures
        views(r@) == row_reconciled(columns as nat, views(row@)),
{
    let mut r: Vec<String> = Vec::new();
    let mut i: usize = 0;
    while i < columns
        invariant
            i <= columns,
            r@.len() == i,
            forall|k: int|
                0 <= k < i ==> r@[k]@ == (if k < row@.len() {
                    row@[k]@
                } else {
                    Seq::<char>::empty()
                }),
        decreases columns - i,
    {
        if i < row.len() {
            r.push(row[i].clone());
        } else {
            r.push(String::new());
        }
        i = i + 1;
    }
    proof {
        assert(views(r@) =~= row_reconciled(columns as nat, views(row@)));
    }
    r
}

/// The table-row steps of an entry's data rows, each reconciled.
pub open spec fn rows_plan(cols: nat, rows: Seq<Vec<String>>) -> Seq<PlanStep> {
    Seq::new(rows.len(), |i: int| PlanStep::TableRow(row_reconciled(cols, views(rows[i]@))))
}

/// The steps emitted after an entry's own parts, one block per child:
/// a blank separator, then the child's whole plan, recursively.
pub open spec fn children_plan_from(cs: Seq<ExplainEntry>, j: int) -> Seq<PlanStep>
    decreases cs, cs.len() - j,
{
    if 0 <= j < cs.len() {
        seq![PlanStep::Blank] + entry_plan(cs[j]) + children_plan_from(cs, j + 1)
    } else {
        Seq::empty()
    }
}

/// The full rendering plan of one entry: its header; a blank line and the
/// description when one is present; a blank line, the bolded column names
/// and the reconciled data rows when both columns and rows are non-empty;
/// each child after a blank line, in order; and a trailing blank line.
pub open spec fn entry_plan(e: ExplainEntry) -> Seq<PlanStep>
    decreases e,
{
    seq![PlanStep::Header(e.name@)] + (if e.description@.len() > 0 {
        seq![PlanStep::Blank, PlanStep::Text(e.description@)]
    } else {
        Seq::empty()
    }) + (if e.data.columns@.len() > 0 && e.data.rows@.len() > 0 {
        seq![PlanStep::Blank, PlanStep::TableHead(views(e.data.columns@))] + rows_plan(
            e.data.columns@.len(),
            e.data.rows@,
        )
    } else {
        Seq::empty()
    }) + children_plan_from(e.entries@, 0) + seq![PlanStep::Blank]
}

/// Copies a list of strings.
fn copy_strings(v: &Vec<String>) -> (r: Vec<String>)
    ensures
        views(r@) == views(v@),
{
    let mut r: Vec<String> = Vec::new();
    let mut i: usize = 0;
    while i < v.len()
        invariant
            i <= v@.len(),
            r@.len() == i,
            forall|k: int| 0 <= k < i ==> r@[k]@ == v@[k]@,
        decreases v@.len() - i,
    {
        r.push(v[i].clone());
        i = i + 1;
    }
    proof {
        assert(views(r@) =~= views(v@));
    }
    r
}

/// Renders one entry's plan onto the end of an existing plan.
pub fn render_into(e: &ExplainEntry, out: &mut Vec<RenderStep>)
    ensures
        plan_views(final(out)@) == plan_views(old(out)@) + entry_plan(*e),
    decreases *e,
{
    let ghost base = plan_views(old(out)@);
    out.push(RenderStep::Header(e.name.clone()));
    if !e.description.as_str().is_empty() {
        out.push(RenderStep::Blank);
        out.push(RenderStep::Text(e.description.clone()));
    }
    if e.data.columns.len() > 0 && e.data.rows.len() > 0 {
        out.push(RenderStep::Blank);
        out.push(RenderStep::TableHead(copy_strings(&e.data.columns)));
        let cols = e.data.columns.len();
        let mut i: usize = 0;
        while i < e.data.rows.len()
            invariant
                i <= e.data.rows@.len(),
                cols == e.data.columns@.len(),
                plan_views(out@) == base + seq![PlanStep::Header(e.name@)] + (if e.description@.len()
                    > 0 {
                    seq![PlanStep::Blank, PlanStep::Text(e.description@)]
                } else {
                    Seq::empty()
                }) + seq![PlanStep::Blank, PlanStep::TableHead(views(e.data.columns@))]
                    + rows_plan(cols as nat, e.data.rows@.take(i as int)),
            decreases e.data.rows@.len() - i,
        {
            let rr = reconcile_row(cols, &e.data.rows[i]);
            let ghost prevout = out@;
            out.push(RenderStep::TableRow(rr));
            proof {
                assert(rows_plan(cols as nat, e.data.rows@.take(i + 1)) =~= rows_plan(
                    cols as nat,
                    e.data.rows@.take(i as int),
                ).push(PlanStep::TableRow(row_reconciled(cols as nat, views(e.data.rows@[i as int]@)))));
                assert(plan_views(out@) =~= plan_views(prevout).push(
                    PlanStep::TableRow(views(rr@)),
                ));
                assert(plan_views(out@) =~= base + seq![PlanStep::Header(e.name@)] + (
                if e.description@.len() > 0 {
                    seq![PlanStep::Blank, PlanStep::Text(e.description@)]
                } else {
                    Seq::empty()
                }) + seq![PlanStep::Blank, PlanStep::TableHead(views(e.data.columns@))]
                    + rows_plan(cols as nat, e.data.rows@.take(i + 1)));
            }
            i = i + 1;
        }
        proof {
            assert(e.data.rows@.take(e.data.rows@.len() as int) =~= e.data.rows@);
        }
    }
    proof {
        assert(plan_views(out@) =~= base + seq![PlanStep::Header(e.name@)] + (if e.description@.len()
            > 0 {
            seq![PlanStep::Blank, PlanStep::Text(e.description@)]
        } else {
            Seq::<PlanStep>::empty()
        }) + (if e.data.columns@.len() > 0 && e.data.rows@.len() > 0 {
            seq![PlanStep::Blank, PlanStep::TableHead(views(e.data.columns@))] + rows_plan(
                e.data.columns@.len(),
                e.data.rows@,
            )
        } else {
            Seq::<PlanStep>::empty()
        }));
    }
    let ghost mid = plan_views(out@);
    let mut j: usize = 0;
    while j < e.entries.len()
        invariant
            j <= e.entries@.len(),
            plan_views(out@) + children_plan_from(e.entries@, j as int) == mid
                + children_plan_from(e.entries@, 0),
        decreases e.entries@.len() - j,
    {
        let ghost prevout = out@;
        out.push(RenderStep::Blank);
        proof {
            assert(plan_views(out@) =~= plan_views(prevout).push(PlanStep::Blank));
        }
        render_into(&e.entries[j], out);
        proof {
            assert(plan_views(out@) + children_plan_from(e.entries@, j + 1) =~= mid
                + children_plan_from(e.entries@, 0));
        }
        j = j + 1;
    }
    let ghost endout = out@;
    out.push(RenderStep::Blank);
    proof {
        let cs = e.entries@;
        assert(children_plan_from(cs, cs.len() as int) =~= Seq::<PlanStep>::empty());
        assert(plan_views(endout) + children_plan_from(cs, cs.len() as int) =~= plan_views(
            endout,
        ));
        assert(plan_views(endout) =~= mid + children_plan_from(cs, 0));
        assert(plan_views(out@) =~= plan_views(endout).push(PlanStep::Blank));
        assert(plan_views(out@) =~= base + entry_plan(*e));
    }
}

/// Plans the rendering of one explain entry: the exact emission order of
/// headers, blank lines, description, reconciled table and children, as a
/// pure value that the surrounding program prints.
pub fn render_plan(e: &ExplainEntry) -> (r: Vec<RenderStep>)
    ensures
        plan_views(r@) == entry_plan(*e),
{
    let mut out: Vec<RenderStep> = Vec::new();
    proof {
        assert(plan_views(out@) =~= Seq::<PlanStep>::empty());
    }
    render_into(e, &mut out);
    out
}

} // verus!
