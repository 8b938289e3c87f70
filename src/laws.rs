use vstd::prelude::*;

use crate::catalog::ScriptOperation;
use crate::envelope::CommandResult;
use crate::power::PowerStage;
use crate::shell::Tool;

verus! {

/// Every envelope carries output exactly when it reports success, but for a
/// launched tool, which succeeds without output.
pub proof fn lemma_output_iff_success(
    op: ScriptOperation,
    outcome: Result<String, String>,
    r: CommandResult,
    stage: PowerStage,
    next: PowerStage,
    tool: Tool,
    launch: Result<(), String>,
    opened: CommandResult,
)
    ensures
        op.reports(outcome, r) ==> r.output_iff_success(),
        stage.leads_to(outcome, next) ==> (next matches PowerStage::Done { result }
            ==> result.output_iff_success()),
        tool.reports(launch, opened) ==> opened.output.is_none() && (opened.success
            <==> launch is Ok),
{
}

} // verus!
