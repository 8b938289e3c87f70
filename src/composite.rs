use vstd::prelude::*;

use crate::envelope::CommandResult;
use crate::quoting::bind_text;
use crate::quoting::text_binding;
use crate::scripts;
use crate::text::first_line;
use crate::text::first_line_of;
use crate::text::join_lines;
use crate::text::join_with_newlines;
use crate::text::lemma_first_line_single;
use crate::text::lemma_join_line_count;
use crate::text::newlines;
use crate::text::lemma_single_line_concat;
use crate::text::single_line;

verus! {

/// One item of a composite operation: what it is about, the script that
/// does it, the report line when the script succeeds, and whether the step is
/// quiet: a quiet step does what it can and reports its line whatever its
/// script gave.
pub struct CompositeStep {
    pub subject: String,
    pub script: String,
    pub done_line: String,
    pub quiet: bool,
}

/// A composite step as text.
pub struct StepModel {
    pub subject: Seq<char>,
    pub script: Seq<char>,
    pub done_line: Seq<char>,
    pub quiet: bool,
}

impl View for CompositeStep {
    type V = StepModel;

    open spec fn view(&self) -> StepModel {
        StepModel {
            subject: self.subject@,
            script: self.script@,
            done_line: self.done_line@,
            quiet: self.quiet,
        }
    }
}

/// The report line of a step: its line when its script succeeded or the
/// step is quiet, else its subject and the first line of the failure.
pub open spec fn step_line(step: StepModel, outcome: Result<String, String>) -> Seq<char> {
    match outcome {
        Ok(_) => step.done_line,
        Err(e) => if step.quiet {
            step.done_line
        } else {
            step.subject + " - Failed: "@ + first_line(e@)
        },
    }
}

/// The step that stops and disables service `name`.
pub open spec fn disable_step(name: Seq<char>) -> StepModel {
    StepModel {
        subject: name,
        script: text_binding("name"@, name) + scripts::DISABLE_SERVICE_BODY@,
        done_line: name + " - Disabled"@,
        quiet: false,
    }
}

/// The step that sets service `name` to start on demand.
pub open spec fn manual_step(name: Seq<char>) -> StepModel {
    StepModel {
        subject: name,
        script: text_binding("name"@, name) + scripts::MANUAL_SERVICE_BODY@,
        done_line: name + " - Set to Manual"@,
        quiet: false,
    }
}

/// The step that disables service `name` as far as it can.
pub open spec fn quiet_disable_step(name: Seq<char>) -> StepModel {
    StepModel {
        subject: name,
        script: text_binding("name"@, name) + scripts::QUIET_DISABLE_SERVICE_BODY@,
        done_line: "Disabled service: "@ + name,
        quiet: true,
    }
}

/// A step with a fixed script.
pub open spec fn fixed_step(subject: &str, script: &str, done_line: &str, quiet: bool) -> StepModel {
    StepModel { subject: subject@, script: script@, done_line: done_line@, quiet }
}

fn make_step(subject: &str, script: String, done_line: String, quiet: bool) -> (r: CompositeStep)
    ensures
        r@ == (StepModel { subject: subject@, script: script@, done_line: done_line@, quiet }),
{
    CompositeStep { subject: String::from_str(subject), script, done_line, quiet }
}

fn service_step(name: &str, body: &str, head: &str, tail: &str, quiet: bool) -> (r: CompositeStep)
    ensures
        r@ == (StepModel {
            subject: name@,
            script: text_binding("name"@, name@) + body@,
            done_line: head@ + name@ + tail@,
            quiet,
        }),
{
    let mut script = bind_text("name", name);
    script.append(body);
    let mut done = String::from_str(head);
    done.append(name);
    done.append(tail);
    make_step(name, script, done, quiet)
}

fn disable(name: &str) -> (r: CompositeStep)
    ensures
        r@ == disable_step(name@),
{
    proof {
        reveal_strlit("");
    }
    let r = service_step(name, scripts::DISABLE_SERVICE_BODY, "", " - Disabled", false);
    assert(r@.done_line =~= disable_step(name@).done_line);
    r
}

fn manual(name: &str) -> (r: CompositeStep)
    ensures
        r@ == manual_step(name@),
{
    proof {
        reveal_strlit("");
    }
    let r = service_step(name, scripts::MANUAL_SERVICE_BODY, "", " - Set to Manual", false);
    assert(r@.done_line =~= manual_step(name@).done_line);
    r
}

fn quiet_disable(name: &str) -> (r: CompositeStep)
    ensures
        r@ == quiet_disable_step(name@),
{
    proof {
        reveal_strlit("");
    }
    let r = service_step(name, scripts::QUIET_DISABLE_SERVICE_BODY, "Disabled service: ", "", true);
    assert(r@.done_line =~= quiet_disable_step(name@).done_line);
    r
}

fn fixed(subject: &str, script: &str, done_line: &str, quiet: bool) -> (r: CompositeStep)
    ensures
        r@ == fixed_step(subject, script, done_line, quiet),
{
    make_step(subject, String::from_str(script), String::from_str(done_line), quiet)
}

/// The operations that attempt a fixed list of steps, each on its own, and
/// account for every one.
pub enum CompositeOperation {
    DisableUnnecessaryServices,
    QuickOptimize,
}

impl CompositeOperation {
    /// The steps, in the order they are attempted and reported.
    pub open spec fn spec_steps(&self) -> Seq<StepModel> {
        match self {
            CompositeOperation::DisableUnnecessaryServices => seq![
                disable_step("lfsvc"@),
                disable_step("PhoneSvc"@),
                disable_step("RemoteRegistry"@),
                disable_step("RetailDemo"@),
                disable_step("WerSvc"@),
                disable_step("DusmSvc"@),
                manual_step("seclogon"@),
            ],
            CompositeOperation::QuickOptimize => seq![
                quiet_disable_step("lfsvc"@),
                quiet_disable_step("PhoneSvc"@),
                quiet_disable_step("RemoteRegistry"@),
                quiet_disable_step("RetailDemo"@),
                quiet_disable_step("WerSvc"@),
                quiet_disable_step("DusmSvc"@),
                fixed_step(
                    "advertising ID",
                    scripts::ADVERTISING_ID_SCRIPT,
                    "Disabled advertising ID",
                    false,
                ),
                fixed_step(
                    "power plan",
                    scripts::HIGH_PERFORMANCE_SCRIPT,
                    "Set High Performance power plan",
                    false,
                ),
                fixed_step("temp files", scripts::TEMP_CLEANUP_SCRIPT, "Cleaned temp files", true),
            ],
        }
    }

    /// The message of the report.
    pub open spec fn spec_message(&self) -> Seq<char> {
        match self {
            CompositeOperation::DisableUnnecessaryServices => "Unnecessary services configured"@,
            CompositeOperation::QuickOptimize => "Quick optimization completed"@,
        }
    }

    /// The report lines for the steps' outcomes, one per step, in order.
    pub open spec fn spec_lines(&self, outcomes: Seq<Result<String, String>>) -> Seq<Seq<char>> {
        Seq::new(self.spec_steps().len(), |i: int| step_line(self.spec_steps()[i], outcomes[i]))
    }

    /// The report text: the lines joined by line feeds.
    pub open spec fn spec_report(&self, outcomes: Seq<Result<String, String>>) -> Seq<char> {
        join_lines(self.spec_lines(outcomes))
    }

    /// The steps to attempt.
    pub fn steps(&self) -> (r: Vec<CompositeStep>)
        ensures
            r@.map_values(|s: CompositeStep| s@) == self.spec_steps(),
    {
        let mut v: Vec<CompositeStep> = Vec::new();
        match self {
            CompositeOperation::DisableUnnecessaryServices => {
                v.push(disable("lfsvc"));
                v.push(disable("PhoneSvc"));
                v.push(disable("RemoteRegistry"));
                v.push(disable("RetailDemo"));
                v.push(disable("WerSvc"));
                v.push(disable("DusmSvc"));
                v.push(manual("seclogon"));
            },
            CompositeOperation::QuickOptimize => {
                v.push(quiet_disable("lfsvc"));
                v.push(quiet_disable("PhoneSvc"));
                v.push(quiet_disable("RemoteRegistry"));
                v.push(quiet_disable("RetailDemo"));
                v.push(quiet_disable("WerSvc"));
                v.push(quiet_disable("DusmSvc"));
                v.push(
                    fixed("advertising ID", scripts::ADVERTISING_ID_SCRIPT, "Disabled advertising ID", false),
                );
                v.push(
                    fixed(
                        "power plan",
                        scripts::HIGH_PERFORMANCE_SCRIPT,
                        "Set High Performance power plan",
                        false,
                    ),
                );
                v.push(fixed("temp files", scripts::TEMP_CLEANUP_SCRIPT, "Cleaned temp files", true));
            },
        }
        assert(v@.map_values(|s: CompositeStep| s@) =~= self.spec_steps());
        v
    }

    /// The message of the report.
    pub fn message(&self) -> (r: String)
        ensures
            r@ == self.spec_message(),
    {
        match self {
            CompositeOperation::DisableUnnecessaryServices => String::from_str(
                "Unnecessary services configured",
            ),
            CompositeOperation::QuickOptimize => String::from_str("Quick optimization completed"),
        }
    }

    /// The report for the steps' outcomes, given one outcome per step in
    /// the order of `steps`: always a success, with one line per step.
    pub fn report(&self, outcomes: &Vec<Result<String, String>>) -> (r: CommandResult)
        requires
            outcomes@.len() == self.spec_steps().len(),
        ensures
            r.success,
            r.message@ == self.spec_message(),
            r.output is Some,
            r.output->0@ == self.spec_report(outcomes@),
    {
        let steps = self.steps();
        let ghost models = steps@.map_values(|s: CompositeStep| s@);
        let mut lines: Vec<String> = Vec::new();
        let mut i: usize = 0;
        while i < steps.len()
            invariant
                i <= steps.len(),
                steps@.len() == outcomes@.len(),
                models == steps@.map_values(|s: CompositeStep| s@),
                models == self.spec_steps(),
                lines@.map_values(|l: String| l@) == self.spec_lines(outcomes@).take(i as int),
            decreases steps.len() - i,
        {
            let step = &steps[i];
            assert(step@ == models[i as int]);
            let line = match &outcomes[i] {
                Ok(_) => step.done_line.clone(),
                Err(_) if step.quiet => step.done_line.clone(),
                Err(e) => {
                    let mut l = step.subject.clone();
                    l.append(" - Failed: ");
                    let f = first_line_of(e.as_str());
                    l.append(f.as_str());
                    l
                },
            };
            assert(line@ == step_line(models[i as int], outcomes@[i as int]));
            assert(self.spec_lines(outcomes@)[i as int] == step_line(models[i as int], outcomes@[i as int]));
            let ghost before = lines@;
            lines.push(line);
            assert(lines@ == before.push(line));
            assert(lines@.map_values(|l: String| l@) =~= before.map_values(|l: String| l@).push(line@));
            assert(self.spec_lines(outcomes@).take(i + 1) =~= self.spec_lines(outcomes@).take(i as int).push(self.spec_lines(outcomes@)[i as int]));
            assert(lines@.map_values(|l: String| l@) =~= self.spec_lines(outcomes@).take(i + 1));
            i = i + 1;
        }
        assert(self.spec_lines(outcomes@).take(steps.len() as int) =~= self.spec_lines(outcomes@));
        let text = join_with_newlines(&lines);
        CommandResult::succeeded(self.message(), text)
    }
}

/// Whether a step's subject and success line are single lines.
pub open spec fn step_is_single_line(step: StepModel) -> bool {
    single_line(step.subject) && single_line(step.done_line)
}

proof fn lemma_steps_single_line(op: CompositeOperation)
    ensures
        forall|i: int|
            0 <= i < op.spec_steps().len() ==> step_is_single_line(#[trigger] op.spec_steps()[i]),
{
    reveal_strlit("lfsvc");
    reveal_strlit("PhoneSvc");
    reveal_strlit("RemoteRegistry");
    reveal_strlit("RetailDemo");
    reveal_strlit("WerSvc");
    reveal_strlit("DusmSvc");
    reveal_strlit("seclogon");
    reveal_strlit(" - Disabled");
    reveal_strlit(" - Set to Manual");
    reveal_strlit("Disabled service: ");
    reveal_strlit("advertising ID");
    reveal_strlit("Disabled advertising ID");
    reveal_strlit("power plan");
    reveal_strlit("Set High Performance power plan");
    reveal_strlit("temp files");
    reveal_strlit("Cleaned temp files");
    let names = seq!["lfsvc"@, "PhoneSvc"@, "RemoteRegistry"@, "RetailDemo"@, "WerSvc"@, "DusmSvc"@];
    assert(single_line(" - Disabled"@));
    assert(single_line(" - Set to Manual"@));
    assert(single_line("Disabled service: "@));
    assert forall|k: int| 0 <= k < names.len() implies single_line(#[trigger] names[k]) by {
        assert(single_line("lfsvc"@));
        assert(single_line("PhoneSvc"@));
        assert(single_line("RemoteRegistry"@));
        assert(single_line("RetailDemo"@));
        assert(single_line("WerSvc"@));
        assert(single_line("DusmSvc"@));
    }
    assert forall|k: int| 0 <= k < names.len() implies step_is_single_line(
        #[trigger] disable_step(names[k]),
    ) && step_is_single_line(quiet_disable_step(names[k])) by {
        lemma_single_line_concat(names[k], " - Disabled"@);
        lemma_single_line_concat("Disabled service: "@, names[k]);
    }
    assert(single_line("seclogon"@));
    lemma_single_line_concat("seclogon"@, " - Set to Manual"@);
    assert(single_line("advertising ID"@));
    assert(single_line("Disabled advertising ID"@));
    assert(single_line("power plan"@));
    assert(single_line("Set High Performance power plan"@));
    assert(single_line("temp files"@));
    assert(single_line("Cleaned temp files"@));
    assert(disable_step(names[0]) == disable_step("lfsvc"@));
    assert(disable_step(names[1]) == disable_step("PhoneSvc"@));
    assert(disable_step(names[2]) == disable_step("RemoteRegistry"@));
    assert(disable_step(names[3]) == disable_step("RetailDemo"@));
    assert(disable_step(names[4]) == disable_step("WerSvc"@));
    assert(disable_step(names[5]) == disable_step("DusmSvc"@));
}

/// A composite operation reports every step, whatever each step's outcome:
/// its report is a success whose text has exactly one line per step.
pub proof fn lemma_report_one_line_per_step(
    op: CompositeOperation,
    outcomes: Seq<Result<String, String>>,
)
    requires
        outcomes.len() == op.spec_steps().len(),
    ensures
        op.spec_lines(outcomes).len() == op.spec_steps().len(),
        newlines(op.spec_report(outcomes)) + 1 == op.spec_steps().len(),
{
    let lines = op.spec_lines(outcomes);
    lemma_steps_single_line(op);
    reveal_strlit(" - Failed: ");
    assert(single_line(" - Failed: "@));
    assert forall|i: int| 0 <= i < lines.len() implies single_line(#[trigger] lines[i]) by {
        let step = op.spec_steps()[i];
        assert(step_is_single_line(step));
        match outcomes[i] {
            Ok(_) => {},
            Err(e) => {
                lemma_first_line_single(e@);
                lemma_single_line_concat(step.subject, " - Failed: "@);
                lemma_single_line_concat(step.subject + " - Failed: "@, first_line(e@));
            },
        }
    }
    lemma_join_line_count(lines);
}

} // verus!
