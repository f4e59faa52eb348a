//! Table rendering of HA plans and results.

use vstd::prelude::*;
use crate::ha::types::{duration_sum, HaPlan, HaPlanStep, HaResult, HaStepStatus};
use crate::text::{
    decimal, decimal_u64, owned, pad_right, push_padded_right, push_repeat, push_str, repeat_char,
    to_uppercase, uppercase,
};
use crate::timestamps::{display_utc, utc_display};

verus! {

/// The marker drawn before a step's status.
pub open spec fn status_icon(s: HaStepStatus) -> Seq<char> {
    match s {
        HaStepStatus::Pending => "○"@,
        HaStepStatus::InProgress => "◐"@,
        HaStepStatus::Completed => "✓"@,
        HaStepStatus::Skipped => "⊘"@,
        HaStepStatus::Failed => "✗"@,
    }
}

fn status_icon_text(s: HaStepStatus) -> (r: String)
    ensures
        r@ == status_icon(s),
{
    match s {
        HaStepStatus::Pending => owned("○"),
        HaStepStatus::InProgress => owned("◐"),
        HaStepStatus::Completed => owned("✓"),
        HaStepStatus::Skipped => owned("⊘"),
        HaStepStatus::Failed => owned("✗"),
    }
}

/// The table row of one step, followed by its error line if it failed.
pub open spec fn step_row(s: HaPlanStep) -> Seq<char> {
    pad_right(decimal(s.number as nat), 4) + " "@ + pad_right(
        s.name@ + if s.is_destructive {
            " ⚠"@
        } else {
            Seq::empty()
        },
        30,
    ) + " "@ + pad_right(status_icon(s.status) + " "@ + s.status.spec_name(), 12) + " "@
        + pad_right(s.description@, 50) + "\n"@ + match s.error {
        Some(e) => "     └─ Error: "@ + e@ + "\n"@,
        None => Seq::empty(),
    }
}

/// The rows of all steps, in order.
pub open spec fn step_rows(steps: Seq<HaPlanStep>) -> Seq<char>
    decreases steps.len(),
{
    if steps.len() == 0 {
        Seq::empty()
    } else {
        step_rows(steps.drop_last()) + step_row(steps.last())
    }
}

/// The warning lines, in order.
pub open spec fn warning_rows(warnings: Seq<String>) -> Seq<char>
    decreases warnings.len(),
{
    if warnings.len() == 0 {
        Seq::empty()
    } else {
        warning_rows(warnings.drop_last()) + "   - "@ + warnings.last()@ + "\n"@
    }
}

/// The title and mode lines of a plan table.
pub open spec fn plan_header(plan: HaPlan) -> Seq<char> {
    "\n"@ + uppercase(plan.operation@) + " Plan: "@ + match plan.source_node_id {
        Some(s) => s@,
        None => "N/A"@,
    } + " -> "@ + plan.target_node_id@ + "\n"@ + "Cluster: "@ + plan.cluster_id@ + "\n"@ + (if plan.dry_run {
        "Mode: DRY-RUN (no changes will be made)\n"@
    } else {
        Seq::empty()
    }) + "\n"@
}

/// The warnings block of a plan table (empty when there are no warnings).
pub open spec fn plan_warnings(plan: HaPlan) -> Seq<char> {
    if plan.warnings@.len() > 0 {
        "⚠️  WARNINGS:\n"@ + warning_rows(plan.warnings@) + "\n"@
    } else {
        Seq::empty()
    }
}

/// The column heading of a plan table.
pub open spec fn plan_columns() -> Seq<char> {
    "Execution Plan:\n"@ + pad_right("#"@, 4) + " "@ + pad_right("STEP"@, 30) + " "@ + pad_right(
        "STATUS"@,
        12,
    ) + " "@ + pad_right("DESCRIPTION"@, 50) + "\n"@ + repeat_char('-', 100) + "\n"@
}

/// The summary lines under the steps of a plan table.
pub open spec fn plan_footer(plan: HaPlan) -> Seq<char> {
    (if plan.spec_has_some_duration() {
        "\nEstimated duration: "@ + decimal(duration_sum(plan.steps@)) + " seconds\n"@
    } else {
        Seq::empty()
    }) + (if plan.spec_has_destructive_steps() {
        "\n⚠️  This plan contains destructive steps that cannot be undone.\n"@
    } else {
        Seq::empty()
    })
}

/// The text of a plan table.
pub open spec fn plan_table(plan: HaPlan) -> Seq<char> {
    plan_header(plan) + plan_warnings(plan) + plan_columns() + step_rows(plan.steps@)
        + plan_footer(plan)
}

fn push_step_row(out: &mut String, s: &HaPlanStep)
    ensures
        final(out)@ == old(out)@ + step_row(*s),
{
    let ghost start = out@;
    let n = decimal_u64(s.number as u64);
    push_padded_right(out, n.as_str(), 4);
    push_str(out, " ");
    let mut name = owned(s.name.as_str());
    if s.is_destructive {
        push_str(&mut name, " ⚠");
    }
    push_padded_right(out, name.as_str(), 30);
    push_str(out, " ");
    let mut st = status_icon_text(s.status);
    push_str(&mut st, " ");
    let sn = s.status.name();
    push_str(&mut st, sn.as_str());
    push_padded_right(out, st.as_str(), 12);
    push_str(out, " ");
    push_padded_right(out, s.description.as_str(), 50);
    push_str(out, "\n");
    match &s.error {
        Some(e) => {
            push_str(out, "     └─ Error: ");
            push_str(out, e.as_str());
            push_str(out, "\n");
        },
        None => {},
    }
    proof {
        assert(out@ =~= start + step_row(*s));
    }
}

fn push_plan_header(out: &mut String, plan: &HaPlan)
    ensures
        final(out)@ == old(out)@ + plan_header(*plan),
{
    let ghost start = out@;
    push_str(out, "\n");
    let op = to_uppercase(plan.operation.as_str());
    push_str(out, op.as_str());
    push_str(out, " Plan: ");
    match &plan.source_node_id {
        Some(s) => push_str(out, s.as_str()),
        None => push_str(out, "N/A"),
    }
    push_str(out, " -> ");
    push_str(out, plan.target_node_id.as_str());
    push_str(out, "\n");
    push_str(out, "Cluster: ");
    push_str(out, plan.cluster_id.as_str());
    push_str(out, "\n");
    if plan.dry_run {
        push_str(out, "Mode: DRY-RUN (no changes will be made)\n");
    }
    push_str(out, "\n");
    proof {
        assert(out@ =~= start + plan_header(*plan));
    }
}

fn push_plan_warnings(out: &mut String, plan: &HaPlan)
    ensures
        final(out)@ == old(out)@ + plan_warnings(*plan),
{
    let ghost start = out@;
    if plan.warnings.len() > 0 {
        push_str(out, "⚠️  WARNINGS:\n");
        let ghost before = out@;
        let mut i: usize = 0;
        while i < plan.warnings.len()
            invariant
                i <= plan.warnings.len(),
                out@ == before + warning_rows(plan.warnings@.subrange(0, i as int)),
            decreases plan.warnings.len() - i,
        {
            push_str(out, "   - ");
            push_str(out, plan.warnings[i].as_str());
            push_str(out, "\n");
            proof {
                let w = plan.warnings@.subrange(0, i + 1);
                assert(w.drop_last() =~= plan.warnings@.subrange(0, i as int));
            }
            i = i + 1;
        }
        proof {
            assert(plan.warnings@.subrange(0, plan.warnings@.len() as int) =~= plan.warnings@);
        }
        push_str(out, "\n");
    }
    proof {
        assert(out@ =~= start + plan_warnings(*plan));
    }
}

fn push_plan_columns(out: &mut String)
    ensures
        final(out)@ == old(out)@ + plan_columns(),
{
    let ghost start = out@;
    push_str(out, "Execution Plan:\n");
    push_padded_right(out, "#", 4);
    push_str(out, " ");
    push_padded_right(out, "STEP", 30);
    push_str(out, " ");
    push_padded_right(out, "STATUS", 12);
    push_str(out, " ");
    push_padded_right(out, "DESCRIPTION", 50);
    push_str(out, "\n");
    push_repeat(out, '-', 100);
    push_str(out, "\n");
    proof {
        assert(out@ =~= start + plan_columns());
    }
}

fn push_step_rows(out: &mut String, plan: &HaPlan)
    ensures
        final(out)@ == old(out)@ + step_rows(plan.steps@),
{
    let ghost before = out@;
    let mut i: usize = 0;
    while i < plan.steps.len()
        invariant
            i <= plan.steps.len(),
            out@ == before + step_rows(plan.steps@.subrange(0, i as int)),
        decreases plan.steps.len() - i,
    {
        push_step_row(out, &plan.steps[i]);
        proof {
            let w = plan.steps@.subrange(0, i + 1);
            assert(w.drop_last() =~= plan.steps@.subrange(0, i as int));
        }
        i = i + 1;
    }
    proof {
        assert(plan.steps@.subrange(0, plan.steps@.len() as int) =~= plan.steps@);
    }
}

fn push_plan_footer(out: &mut String, plan: &HaPlan)
    requires
        duration_sum(plan.steps@) <= u64::MAX,
    ensures
        final(out)@ == old(out)@ + plan_footer(*plan),
{
    let ghost start = out@;
    match plan.estimated_total_duration_secs() {
        Some(d) => {
            push_str(out, "\nEstimated duration: ");
            let t = decimal_u64(d);
            push_str(out, t.as_str());
            push_str(out, " seconds\n");
        },
        None => {},
    }
    if plan.has_destructive_steps() {
        push_str(out, "\n⚠️  This plan contains destructive steps that cannot be undone.\n");
    }
    proof {
        assert(out@ =~= start + plan_footer(*plan));
    }
}

/// Render a plan as the table the tool prints.
pub fn format_plan_table(plan: &HaPlan) -> (r: String)
    requires
        duration_sum(plan.steps@) <= u64::MAX,
    ensures
        r@ == plan_table(*plan),
{
    let mut out = String::new();
    push_plan_header(&mut out, plan);
    push_plan_warnings(&mut out, plan);
    push_plan_columns(&mut out);
    push_step_rows(&mut out, plan);
    push_plan_footer(&mut out, plan);
    proof {
        assert(out@ =~= plan_table(*plan));
    }
    out
}

/// The text of a result table.
pub open spec fn result_table(result: HaResult) -> Seq<char> {
    "\n"@ + (if result.success {
        "✓"@
    } else {
        "✗"@
    }) + " "@ + uppercase(result.operation@) + " "@ + (if result.success {
        "COMPLETED"@
    } else {
        "FAILED"@
    }) + "\n"@ + "Cluster: "@ + result.cluster_id@ + "\n"@ + match result.new_primary_id {
        Some(p) => "New Primary: "@ + p@ + "\n"@,
        None => Seq::empty(),
    } + match result.new_replica_id {
        Some(p) => "New Replica: "@ + p@ + "\n"@,
        None => Seq::empty(),
    } + "\nMessage: "@ + result.message@ + "\n"@ + "Completed at: "@ + utc_display(
        result.completed_at,
    ) + "\n"@
}

/// Render a result as the table the tool prints.
pub fn format_result_table(result: &HaResult) -> (r: String)
    ensures
        r@ == result_table(*result),
{
    let mut out = owned("\n");
    if result.success {
        push_str(&mut out, "✓");
    } else {
        push_str(&mut out, "✗");
    }
    push_str(&mut out, " ");
    let op = to_uppercase(result.operation.as_str());
    push_str(&mut out, op.as_str());
    push_str(&mut out, " ");
    if result.success {
        push_str(&mut out, "COMPLETED");
    } else {
        push_str(&mut out, "FAILED");
    }
    push_str(&mut out, "\n");
    push_str(&mut out, "Cluster: ");
    push_str(&mut out, result.cluster_id.as_str());
    push_str(&mut out, "\n");
    match &result.new_primary_id {
        Some(p) => {
            push_str(&mut out, "New Primary: ");
            push_str(&mut out, p.as_str());
            push_str(&mut out, "\n");
        },
        None => {},
    }
    match &result.new_replica_id {
        Some(p) => {
            push_str(&mut out, "New Replica: ");
            push_str(&mut out, p.as_str());
            push_str(&mut out, "\n");
        },
        None => {},
    }
    push_str(&mut out, "\nMessage: ");
    push_str(&mut out, result.message.as_str());
    push_str(&mut out, "\n");
    push_str(&mut out, "Completed at: ");
    let t = display_utc(result.completed_at);
    push_str(&mut out, t.as_str());
    push_str(&mut out, "\n");
    proof {
        assert(out@ =~= result_table(*result));
    }
    out
}

} // verus!
