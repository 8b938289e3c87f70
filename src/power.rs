use vstd::prelude::*;

use crate::envelope::failure_message;
use crate::envelope::CommandResult;
use crate::listing::find_scheme_guid;
use crate::listing::scheme_guid;
use crate::quoting::bind_text;
use crate::quoting::text_binding;
use crate::scripts;

verus! {

/// The plan that is looked for first.
pub const HIGH_PERFORMANCE: &'static str = "High performance";

/// The plan that is created and looked for when the first is missing.
pub const ULTIMATE_PERFORMANCE: &'static str = "Ultimate Performance";

/// What a failure's message starts with.
pub const POWER_FAILURE_LABEL: &'static str = "Failed to set power plan";

/// The message of a run that got to its end.
pub const POWER_SUCCESS_MESSAGE: &'static str = "High Performance power plan set";

/// The output of a run that found neither plan.
pub const NO_PLAN_REPORT: &'static str = "Could not find High Performance plan";

/// The output of a run that activated the High performance plan.
pub const HIGH_PERFORMANCE_REPORT: &'static str = "High Performance power plan activated";

/// The output of a run that activated the Ultimate Performance plan.
pub const ULTIMATE_PERFORMANCE_REPORT: &'static str = "Ultimate Performance power plan activated";

/// Where a run that selects a high-performance power plan stands. Each stage
/// but the last names a script to run; its outcome decides the next stage.
pub enum PowerStage {
    /// List the schemes and look for the High performance plan.
    FindHighPerformance,
    /// Create the Ultimate Performance plan from its template.
    CreateUltimate,
    /// List the schemes again and look for the Ultimate Performance plan.
    FindUltimate,
    /// Activate the scheme `guid`, then report `report`.
    Activate { guid: String, report: String },
    /// The run is over.
    Done { result: CommandResult },
}

/// The script that activates the scheme `guid`.
pub open spec fn activation_script(guid: Seq<char>) -> Seq<char> {
    text_binding("guid"@, guid) + scripts::ACTIVATE_SCHEME_BODY@
}

/// Whether `r` is the failure of the run for the failure text `e`.
pub open spec fn power_failure(r: CommandResult, e: String) -> bool {
    !r.success && r.message@ == failure_message(POWER_FAILURE_LABEL@, e@) && r.output.is_none()
}

/// Whether `r` is the success of the run with output `report`.
pub open spec fn power_success(r: CommandResult, report: Seq<char>) -> bool {
    r.success && r.message@ == POWER_SUCCESS_MESSAGE@ && r.output is Some && r.output->0@
        == report
}

impl PowerStage {
    /// The script this stage runs; none once the run is over.
    pub open spec fn spec_script(&self) -> Option<Seq<char>> {
        match self {
            PowerStage::FindHighPerformance => Some(scripts::POWER_SCHEMES_SCRIPT@),
            PowerStage::CreateUltimate => Some(scripts::ULTIMATE_DUPLICATE_SCRIPT@),
            PowerStage::FindUltimate => Some(scripts::POWER_SCHEMES_SCRIPT@),
            PowerStage::Activate { guid, .. } => Some(activation_script(guid@)),
            PowerStage::Done { .. } => None,
        }
    }

    /// Whether `next` is the stage that follows this one when its script
    /// gave `outcome`.
    pub open spec fn leads_to(&self, outcome: Result<String, String>, next: PowerStage) -> bool {
        match self {
            PowerStage::FindHighPerformance => match outcome {
                Ok(listing) => match scheme_guid(listing@, HIGH_PERFORMANCE@) {
                    Some(g) => next matches PowerStage::Activate { guid, report } && guid@ == g
                        && report@ == HIGH_PERFORMANCE_REPORT@,
                    None => next is CreateUltimate,
                },
                Err(e) => next matches PowerStage::Done { result } && power_failure(result, e),
            },
            PowerStage::CreateUltimate => next is FindUltimate,
            PowerStage::FindUltimate => match outcome {
                Ok(listing) => match scheme_guid(listing@, ULTIMATE_PERFORMANCE@) {
                    Some(g) => next matches PowerStage::Activate { guid, report } && guid@ == g
                        && report@ == ULTIMATE_PERFORMANCE_REPORT@,
                    None => next matches PowerStage::Done { result } && power_success(
                        result,
                        NO_PLAN_REPORT@,
                    ),
                },
                Err(e) => next matches PowerStage::Done { result } && power_failure(result, e),
            },
            PowerStage::Activate { report, .. } => match outcome {
                Ok(_) => next matches PowerStage::Done { result } && power_success(
                    result,
                    report@,
                ),
                Err(e) => next matches PowerStage::Done { result } && power_failure(result, e),
            },
            PowerStage::Done { .. } => false,
        }
    }

    /// The first stage of a run.
    pub fn start() -> (r: PowerStage)
        ensures
            r is FindHighPerformance,
    {
        PowerStage::FindHighPerformance
    }

    /// The script to run next; none once the run is over.
    pub fn script(&self) -> (r: Option<String>)
        ensures
            r matches Some(s) ==> self.spec_script() == Some(s@),
            r is None ==> self.spec_script() is None,
    {
        match self {
            PowerStage::FindHighPerformance => Some(String::from_str(scripts::POWER_SCHEMES_SCRIPT)),
            PowerStage::CreateUltimate => Some(String::from_str(scripts::ULTIMATE_DUPLICATE_SCRIPT)),
            PowerStage::FindUltimate => Some(String::from_str(scripts::POWER_SCHEMES_SCRIPT)),
            PowerStage::Activate { guid, .. } => {
                let mut s = bind_text("guid", guid.as_str());
                s.append(scripts::ACTIVATE_SCHEME_BODY);
                Some(s)
            },
            PowerStage::Done { .. } => None,
        }
    }

    /// The stage that follows this one when its script gave `outcome`.
    pub fn advance(self, outcome: Result<String, String>) -> (r: PowerStage)
        requires
            !(self is Done),
        ensures
            self.leads_to(outcome, r),
    {
        match self {
            PowerStage::FindHighPerformance => match outcome {
                Ok(listing) => match find_scheme_guid(listing.as_str(), HIGH_PERFORMANCE) {
                    Some(guid) => PowerStage::Activate {
                        guid,
                        report: String::from_str(HIGH_PERFORMANCE_REPORT),
                    },
                    None => PowerStage::CreateUltimate,
                },
                Err(e) => PowerStage::Done {
                    result: CommandResult::failed(POWER_FAILURE_LABEL, e.as_str()),
                },
            },
            PowerStage::CreateUltimate => PowerStage::FindUltimate,
            PowerStage::FindUltimate => match outcome {
                Ok(listing) => match find_scheme_guid(listing.as_str(), ULTIMATE_PERFORMANCE) {
                    Some(guid) => PowerStage::Activate {
                        guid,
                        report: String::from_str(ULTIMATE_PERFORMANCE_REPORT),
                    },
                    None => PowerStage::Done {
                        result: CommandResult::succeeded(
                            String::from_str(POWER_SUCCESS_MESSAGE),
                            String::from_str(NO_PLAN_REPORT),
                        ),
                    },
                },
                Err(e) => PowerStage::Done {
                    result: CommandResult::failed(POWER_FAILURE_LABEL, e.as_str()),
                },
            },
            PowerStage::Activate { report, .. } => match outcome {
                Ok(_) => PowerStage::Done {
                    result: CommandResult::succeeded(String::from_str(POWER_SUCCESS_MESSAGE), report),
                },
                Err(e) => PowerStage::Done {
                    result: CommandResult::failed(POWER_FAILURE_LABEL, e.as_str()),
                },
            },
            PowerStage::Done { result } => PowerStage::Done { result },
        }
    }

    /// The result of a finished run; none before its end.
    pub fn result(self) -> (r: Option<CommandResult>)
        ensures
            self matches PowerStage::Done { result } ==> r == Some(result),
            !(self is Done) ==> r is None,
    {
        match self {
            PowerStage::Done { result } => Some(result),
            _ => None,
        }
    }
}

/// When the scheme listing names a High performance plan, the run activates
/// that plan next and then ends: it never creates the Ultimate Performance
/// plan. Only when the listing names none does it go on to create it.
pub proof fn lemma_high_performance_preferred(
    listing: String,
    second: PowerStage,
    activation: Result<String, String>,
    third: PowerStage,
)
    requires
        PowerStage::FindHighPerformance.leads_to(Ok(listing), second),
        !(second is Done) ==> second.leads_to(activation, third),
    ensures
        scheme_guid(listing@, HIGH_PERFORMANCE@) is Some ==> {
            &&& second matches PowerStage::Activate { guid, .. } && guid@ == scheme_guid(
                listing@,
                HIGH_PERFORMANCE@,
            )->0
            &&& third is Done
        },
        scheme_guid(listing@, HIGH_PERFORMANCE@) is None ==> second is CreateUltimate,
{
}

} // verus!
