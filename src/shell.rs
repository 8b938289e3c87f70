use vstd::prelude::*;

use crate::envelope::failure_message;
use crate::envelope::CommandResult;

verus! {

/// The interpreter that runs every script.
pub const INTERPRETER: &'static str = "powershell";

/// The program that launches the control-panel tools.
pub const LAUNCHER: &'static str = "cmd";

/// The arguments that run `script` once, without profiles and with no
/// execution policy in the way.
pub open spec fn interpreter_args_of(script: Seq<char>) -> Seq<Seq<char>> {
    seq!["-NoProfile"@, "-ExecutionPolicy"@, "Bypass"@, "-Command"@, script]
}

/// The arguments of the interpreter for `script`.
pub fn interpreter_args(script: String) -> (r: Vec<String>)
    ensures
        r@.map_values(|a: String| a@) == interpreter_args_of(script@),
{
    let mut r: Vec<String> = Vec::new();
    r.push(String::from_str("-NoProfile"));
    r.push(String::from_str("-ExecutionPolicy"));
    r.push(String::from_str("Bypass"));
    r.push(String::from_str("-Command"));
    r.push(script);
    assert(r@.map_values(|a: String| a@) =~= interpreter_args_of(script@));
    r
}

/// What a finished run of the interpreter gave: its standard output when it
/// exited successfully, else its standard error.
pub fn run_outcome(exited_ok: bool, stdout: String, stderr: String) -> (r: Result<String, String>)
    ensures
        exited_ok ==> r == Ok::<String, String>(stdout),
        !exited_ok ==> r == Err::<String, String>(stderr),
{
    if exited_ok {
        Ok(stdout)
    } else {
        Err(stderr)
    }
}

/// The failure text when the interpreter could not be started.
pub open spec fn spawn_failure_of(detail: Seq<char>) -> Seq<char> {
    "Failed to execute PowerShell: "@ + detail
}

/// The failure text when the interpreter could not be started for the
/// reason `detail`.
pub fn spawn_failure(detail: &str) -> (r: String)
    ensures
        r@ == spawn_failure_of(detail@),
{
    let mut r = String::from_str("Failed to execute PowerShell: ");
    r.append(detail);
    r
}

/// The control-panel tools that can be opened.
pub enum Tool {
    SystemProperties,
    Services,
    TaskManager,
    OptionalFeatures,
    WindowsSecurity,
}

impl Tool {
    /// The launcher's arguments that open the tool.
    pub open spec fn spec_args(&self) -> Seq<Seq<char>> {
        match self {
            Tool::SystemProperties => seq!["/C"@, "sysdm.cpl"@],
            Tool::Services => seq!["/C"@, "services.msc"@],
            Tool::TaskManager => seq!["/C"@, "taskmgr"@],
            Tool::OptionalFeatures => seq!["/C"@, "optionalfeatures"@],
            Tool::WindowsSecurity => seq!["/C"@, "start"@, "windowsdefender:"@],
        }
    }

    /// The tool's name in messages.
    pub open spec fn spec_title(&self) -> Seq<char> {
        match self {
            Tool::SystemProperties => "System Properties"@,
            Tool::Services => "Services"@,
            Tool::TaskManager => "Task Manager"@,
            Tool::OptionalFeatures => "Optional Features"@,
            Tool::WindowsSecurity => "Windows Security"@,
        }
    }

    /// The envelope for a launch: a success without output once the tool
    /// was started, else the failure to start it.
    pub open spec fn reports(&self, outcome: Result<(), String>, r: CommandResult) -> bool {
        match outcome {
            Ok(_) => r.success && r.message@ == self.spec_title() + " opened"@
                && r.output.is_none(),
            Err(e) => !r.success && r.message@ == failure_message(
                "Failed to open "@ + self.spec_title(),
                e@,
            ) && r.output.is_none(),
        }
    }

    /// The launcher's arguments that open the tool.
    pub fn args(&self) -> (r: Vec<String>)
        ensures
            r@.map_values(|a: String| a@) == self.spec_args(),
    {
        let mut r: Vec<String> = Vec::new();
        r.push(String::from_str("/C"));
        match self {
            Tool::SystemProperties => r.push(String::from_str("sysdm.cpl")),
            Tool::Services => r.push(String::from_str("services.msc")),
            Tool::TaskManager => r.push(String::from_str("taskmgr")),
            Tool::OptionalFeatures => r.push(String::from_str("optionalfeatures")),
            Tool::WindowsSecurity => {
                r.push(String::from_str("start"));
                r.push(String::from_str("windowsdefender:"));
            },
        }
        assert(r@.map_values(|a: String| a@) =~= self.spec_args());
        r
    }

    /// The tool's name in messages.
    pub fn title(&self) -> (r: &'static str)
        ensures
            r@ == self.spec_title(),
    {
        match self {
            Tool::SystemProperties => "System Properties",
            Tool::Services => "Services",
            Tool::TaskManager => "Task Manager",
            Tool::OptionalFeatures => "Optional Features",
            Tool::WindowsSecurity => "Windows Security",
        }
    }

    /// Turns what launching the tool gave into its envelope.
    pub fn finish(&self, outcome: Result<(), String>) -> (r: CommandResult)
        ensures
            self.reports(outcome, r),
    {
        match outcome {
            Ok(_) => {
                let mut m = String::from_str(self.title());
                m.append(" opened");
                CommandResult::launched(m)
            },
            Err(e) => {
                let mut label = String::from_str("Failed to open ");
                label.append(self.title());
                CommandResult::failed(label.as_str(), e.as_str())
            },
        }
    }
}

} // verus!
