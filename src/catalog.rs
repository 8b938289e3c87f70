use vstd::prelude::*;

use crate::envelope::failure_message;
use crate::envelope::CommandResult;
use crate::quoting::bind_number;
use crate::quoting::bind_text;
use crate::quoting::number_binding;
use crate::quoting::text_binding;
use crate::scripts;

verus! {

/// Whether two texts are the same.
pub fn same_text(a: &str, b: &str) -> (r: bool)
    ensures
        r == (a@ == b@),
{
    let n = a.unicode_len();
    if n != b.unicode_len() {
        return false;
    }
    let mut i: usize = 0;
    while i < n
        invariant
            n == a@.len(),
            n == b@.len(),
            i <= n,
            forall|j: int| 0 <= j < i ==> a@[j] == b@[j],
        decreases n - i,
    {
        if a.get_char(i) != b.get_char(i) {
            return false;
        }
        i = i + 1;
    }
    assert(a@ =~= b@);
    true
}

/// The startup type that a request for `requested` sets: the three known
/// types stand for themselves, anything else means "Manual".
pub open spec fn startup_value(requested: Seq<char>) -> Seq<char> {
    if requested == "Disabled"@ {
        "Disabled"@
    } else if requested == "Automatic"@ {
        "Automatic"@
    } else {
        "Manual"@
    }
}

/// Normalizes a requested startup type.
pub fn normalize_startup_type(requested: &str) -> (r: &'static str)
    ensures
        r@ == startup_value(requested@),
{
    if same_text(requested, "Disabled") {
        "Disabled"
    } else if same_text(requested, "Automatic") {
        "Automatic"
    } else {
        "Manual"
    }
}

/// The location tag of entries that live in the startup folder.
pub const STARTUP_FOLDER: &'static str = "StartupFolder";

/// The script that removes startup entry `name` found at `location`: by
/// base name in the startup folder, else as a value under the registry key
/// `location`.
pub open spec fn startup_removal_script(name: Seq<char>, location: Seq<char>) -> Seq<char> {
    if location == STARTUP_FOLDER@ {
        text_binding("name"@, name) + scripts::STARTUP_FOLDER_REMOVAL_BODY@
    } else {
        text_binding("location"@, location) + text_binding("name"@, name)
            + scripts::STARTUP_REGISTRY_REMOVAL_BODY@
    }
}

/// The operations that run one script and report on it.
pub enum ScriptOperation {
    GetSystemInfo,
    GetVirtualMemoryInfo,
    SetVirtualMemory { initial_size: u32, max_size: u32 },
    GetServicesList,
    SetServiceStartup { service_name: String, startup_type: String },
    GetStartupApps,
    DisableStartupApp { name: String, location: String },
    GetDefenderStatus,
    EnableControlledFolderAccess,
    GetPowerPlan,
    DisableTelemetry,
    GetDnsSettings,
    SetCloudflareDns,
    GetOptionalFeatures,
    DisableOptionalFeature { feature_name: String },
    OptimizeVisualEffects,
}

impl ScriptOperation {
    /// The script the operation runs.
    pub open spec fn spec_script(&self) -> Seq<char> {
        match self {
            ScriptOperation::GetSystemInfo => scripts::SYSTEM_INFO_SCRIPT@,
            ScriptOperation::GetVirtualMemoryInfo => scripts::VIRTUAL_MEMORY_INFO_SCRIPT@,
            ScriptOperation::SetVirtualMemory { initial_size, max_size } => number_binding(
                "initialSize"@,
                *initial_size as nat,
            ) + number_binding("maximumSize"@, *max_size as nat) + scripts::SET_VIRTUAL_MEMORY_BODY@,
            ScriptOperation::GetServicesList => scripts::SERVICES_LIST_SCRIPT@,
            ScriptOperation::SetServiceStartup { service_name, startup_type } => text_binding(
                "name"@,
                service_name@,
            ) + text_binding("startupType"@, startup_value(startup_type@))
                + scripts::SET_SERVICE_STARTUP_BODY@,
            ScriptOperation::GetStartupApps => scripts::STARTUP_APPS_SCRIPT@,
            ScriptOperation::DisableStartupApp { name, location } => startup_removal_script(
                name@,
                location@,
            ),
            ScriptOperation::GetDefenderStatus => scripts::DEFENDER_STATUS_SCRIPT@,
            ScriptOperation::EnableControlledFolderAccess => scripts::CONTROLLED_FOLDER_ACCESS_SCRIPT@,
            ScriptOperation::GetPowerPlan => scripts::POWER_PLAN_SCRIPT@,
            ScriptOperation::DisableTelemetry => scripts::TELEMETRY_SCRIPT@,
            ScriptOperation::GetDnsSettings => scripts::DNS_SETTINGS_SCRIPT@,
            ScriptOperation::SetCloudflareDns => scripts::CLOUDFLARE_DNS_SCRIPT@,
            ScriptOperation::GetOptionalFeatures => scripts::OPTIONAL_FEATURES_SCRIPT@,
            ScriptOperation::DisableOptionalFeature { feature_name } => text_binding(
                "featureName"@,
                feature_name@,
            ) + scripts::DISABLE_FEATURE_BODY@,
            ScriptOperation::OptimizeVisualEffects => scripts::VISUAL_EFFECTS_SCRIPT@,
        }
    }

    /// The message of a successful run.
    pub open spec fn spec_success_message(&self) -> Seq<char> {
        match self {
            ScriptOperation::GetSystemInfo => "System info retrieved"@,
            ScriptOperation::GetVirtualMemoryInfo => "Virtual memory info retrieved"@,
            ScriptOperation::SetVirtualMemory { .. } =>
                "Virtual memory configured successfully. Please restart your computer."@,
            ScriptOperation::GetServicesList => "Services list retrieved"@,
            ScriptOperation::SetServiceStartup { service_name, startup_type } => "Service "@
                + service_name@ + " set to "@ + startup_value(startup_type@),
            ScriptOperation::GetStartupApps => "Startup apps retrieved"@,
            ScriptOperation::DisableStartupApp { name, .. } => "Disabled "@ + name@
                + " from startup"@,
            ScriptOperation::GetDefenderStatus => "Defender status retrieved"@,
            ScriptOperation::EnableControlledFolderAccess => "Controlled Folder Access enabled"@,
            ScriptOperation::GetPowerPlan => "Power plan retrieved"@,
            ScriptOperation::DisableTelemetry => "Telemetry settings disabled"@,
            ScriptOperation::GetDnsSettings => "DNS settings retrieved"@,
            ScriptOperation::SetCloudflareDns => "Cloudflare DNS configured"@,
            ScriptOperation::GetOptionalFeatures => "Optional features retrieved"@,
            ScriptOperation::DisableOptionalFeature { feature_name } => "Feature "@
                + feature_name@ + " disabled"@,
            ScriptOperation::OptimizeVisualEffects => "Visual effects optimized"@,
        }
    }

    /// What a failure's message starts with.
    pub open spec fn spec_failure_label(&self) -> Seq<char> {
        match self {
            ScriptOperation::GetSystemInfo => "Failed to get system info"@,
            ScriptOperation::GetVirtualMemoryInfo => "Failed to get virtual memory info"@,
            ScriptOperation::SetVirtualMemory { .. } => "Failed to set virtual memory"@,
            ScriptOperation::GetServicesList => "Failed to get services"@,
            ScriptOperation::SetServiceStartup { .. } => "Failed to configure service"@,
            ScriptOperation::GetStartupApps => "Failed to get startup apps"@,
            ScriptOperation::DisableStartupApp { .. } => "Failed to disable startup app"@,
            ScriptOperation::GetDefenderStatus => "Failed to get Defender status"@,
            ScriptOperation::EnableControlledFolderAccess =>
                "Failed to enable Controlled Folder Access"@,
            ScriptOperation::GetPowerPlan => "Failed to get power plan"@,
            ScriptOperation::DisableTelemetry => "Failed to disable telemetry"@,
            ScriptOperation::GetDnsSettings => "Failed to get DNS settings"@,
            ScriptOperation::SetCloudflareDns => "Failed to set DNS"@,
            ScriptOperation::GetOptionalFeatures => "Failed to get optional features"@,
            ScriptOperation::DisableOptionalFeature { .. } => "Failed to disable feature"@,
            ScriptOperation::OptimizeVisualEffects => "Failed to optimize visual effects"@,
        }
    }

    /// The envelope for what running the script gave: its standard output,
    /// or the text of its failure.
    pub open spec fn reports(&self, outcome: Result<String, String>, r: CommandResult) -> bool {
        match outcome {
            Ok(out) => r.success && r.message@ == self.spec_success_message() && r.output
                == Some(out),
            Err(e) => !r.success && r.message@ == failure_message(
                self.spec_failure_label(),
                e@,
            ) && r.output.is_none(),
        }
    }
}

/// Writes `a` and then `b`.
fn joined2(a: &str, b: &str) -> (r: String)
    ensures
        r@ == a@ + b@,
{
    let mut r = String::from_str(a);
    r.append(b);
    r
}

/// Writes `a`, `b` and `c` one after the other.
fn joined3(a: &str, b: &str, c: &str) -> (r: String)
    ensures
        r@ == a@ + b@ + c@,
{
    let mut r = String::from_str(a);
    r.append(b);
    r.append(c);
    r
}

impl ScriptOperation {
    /// The script to run.
    pub fn script(&self) -> (r: String)
        ensures
            r@ == self.spec_script(),
    {
        match self {
            ScriptOperation::GetSystemInfo => String::from_str(scripts::SYSTEM_INFO_SCRIPT),
            ScriptOperation::GetVirtualMemoryInfo => String::from_str(
                scripts::VIRTUAL_MEMORY_INFO_SCRIPT,
            ),
            ScriptOperation::SetVirtualMemory { initial_size, max_size } => {
                let a = bind_number("initialSize", *initial_size);
                let b = bind_number("maximumSize", *max_size);
                joined3(a.as_str(), b.as_str(), scripts::SET_VIRTUAL_MEMORY_BODY)
            },
            ScriptOperation::GetServicesList => String::from_str(scripts::SERVICES_LIST_SCRIPT),
            ScriptOperation::SetServiceStartup { service_name, startup_type } => {
                let a = bind_text("name", service_name.as_str());
                let b = bind_text("startupType", normalize_startup_type(startup_type.as_str()));
                joined3(a.as_str(), b.as_str(), scripts::SET_SERVICE_STARTUP_BODY)
            },
            ScriptOperation::GetStartupApps => String::from_str(scripts::STARTUP_APPS_SCRIPT),
            ScriptOperation::DisableStartupApp { name, location } => {
                let n = bind_text("name", name.as_str());
                if same_text(location.as_str(), STARTUP_FOLDER) {
                    joined2(n.as_str(), scripts::STARTUP_FOLDER_REMOVAL_BODY)
                } else {
                    let l = bind_text("location", location.as_str());
                    joined3(l.as_str(), n.as_str(), scripts::STARTUP_REGISTRY_REMOVAL_BODY)
                }
            },
            ScriptOperation::GetDefenderStatus => String::from_str(
                scripts::DEFENDER_STATUS_SCRIPT,
            ),
            ScriptOperation::EnableControlledFolderAccess => String::from_str(
                scripts::CONTROLLED_FOLDER_ACCESS_SCRIPT,
            ),
            ScriptOperation::GetPowerPlan => String::from_str(scripts::POWER_PLAN_SCRIPT),
            ScriptOperation::DisableTelemetry => String::from_str(scripts::TELEMETRY_SCRIPT),
            ScriptOperation::GetDnsSettings => String::from_str(scripts::DNS_SETTINGS_SCRIPT),
            ScriptOperation::SetCloudflareDns => String::from_str(
                scripts::CLOUDFLARE_DNS_SCRIPT,
            ),
            ScriptOperation::GetOptionalFeatures => String::from_str(
                scripts::OPTIONAL_FEATURES_SCRIPT,
            ),
            ScriptOperation::DisableOptionalFeature { feature_name } => {
                let a = bind_text("featureName", feature_name.as_str());
                joined2(a.as_str(), scripts::DISABLE_FEATURE_BODY)
            },
            ScriptOperation::OptimizeVisualEffects => String::from_str(
                scripts::VISUAL_EFFECTS_SCRIPT,
            ),
        }
    }

    /// The message of a successful run.
    pub fn success_message(&self) -> (r: String)
        ensures
            r@ == self.spec_success_message(),
    {
        match self {
            ScriptOperation::GetSystemInfo => String::from_str("System info retrieved"),
            ScriptOperation::GetVirtualMemoryInfo => String::from_str(
                "Virtual memory info retrieved",
            ),
            ScriptOperation::SetVirtualMemory { .. } => String::from_str(
                "Virtual memory configured successfully. Please restart your computer.",
            ),
            ScriptOperation::GetServicesList => String::from_str("Services list retrieved"),
            ScriptOperation::SetServiceStartup { service_name, startup_type } => {
                let mut r = joined3("Service ", service_name.as_str(), " set to ");
                r.append(normalize_startup_type(startup_type.as_str()));
                r
            },
            ScriptOperation::GetStartupApps => String::from_str("Startup apps retrieved"),
            ScriptOperation::DisableStartupApp { name, .. } => joined3(
                "Disabled ",
                name.as_str(),
                " from startup",
            ),
            ScriptOperation::GetDefenderStatus => String::from_str("Defender status retrieved"),
            ScriptOperation::EnableControlledFolderAccess => String::from_str(
                "Controlled Folder Access enabled",
            ),
            ScriptOperation::GetPowerPlan => String::from_str("Power plan retrieved"),
            ScriptOperation::DisableTelemetry => String::from_str("Telemetry settings disabled"),
            ScriptOperation::GetDnsSettings => String::from_str("DNS settings retrieved"),
            ScriptOperation::SetCloudflareDns => String::from_str("Cloudflare DNS configured"),
            ScriptOperation::GetOptionalFeatures => String::from_str(
                "Optional features retrieved",
            ),
            ScriptOperation::DisableOptionalFeature { feature_name } => joined3(
                "Feature ",
                feature_name.as_str(),
                " disabled",
            ),
            ScriptOperation::OptimizeVisualEffects => String::from_str("Visual effects optimized"),
        }
    }

    /// What a failure's message starts with.
    pub fn failure_label(&self) -> (r: &'static str)
        ensures
            r@ == self.spec_failure_label(),
    {
        match self {
            ScriptOperation::GetSystemInfo => "Failed to get system info",
            ScriptOperation::GetVirtualMemoryInfo => "Failed to get virtual memory info",
            ScriptOperation::SetVirtualMemory { .. } => "Failed to set virtual memory",
            ScriptOperation::GetServicesList => "Failed to get services",
            ScriptOperation::SetServiceStartup { .. } => "Failed to configure service",
            ScriptOperation::GetStartupApps => "Failed to get startup apps",
            ScriptOperation::DisableStartupApp { .. } => "Failed to disable startup app",
            ScriptOperation::GetDefenderStatus => "Failed to get Defender status",
            ScriptOperation::EnableControlledFolderAccess =>
                "Failed to enable Controlled Folder Access",
            ScriptOperation::GetPowerPlan => "Failed to get power plan",
            ScriptOperation::DisableTelemetry => "Failed to disable telemetry",
            ScriptOperation::GetDnsSettings => "Failed to get DNS settings",
            ScriptOperation::SetCloudflareDns => "Failed to set DNS",
            ScriptOperation::GetOptionalFeatures => "Failed to get optional features",
            ScriptOperation::DisableOptionalFeature { .. } => "Failed to disable feature",
            ScriptOperation::OptimizeVisualEffects => "Failed to optimize visual effects",
        }
    }

    /// Turns what running the script gave into the operation's envelope.
    pub fn finish(&self, outcome: Result<String, String>) -> (r: CommandResult)
        ensures
            self.reports(outcome, r),
            r.output_iff_success(),
    {
        match outcome {
            Ok(out) => CommandResult::succeeded(self.success_message(), out),
            Err(e) => CommandResult::failed(self.failure_label(), e.as_str()),
        }
    }
}

/// A startup type that is none of the known ones is set, and reported, just
/// as an explicit request for "Manual" is.
pub proof fn lemma_unknown_startup_type_is_manual(
    service_name: String,
    startup_type: String,
    manual: String,
)
    requires
        startup_type@ != "Disabled"@,
        startup_type@ != "Manual"@,
        startup_type@ != "Automatic"@,
        manual@ == "Manual"@,
    ensures
        ({
            let asked = ScriptOperation::SetServiceStartup { service_name, startup_type };
            let explicit = ScriptOperation::SetServiceStartup { service_name, startup_type: manual };
            &&& asked.spec_script() == explicit.spec_script()
            &&& asked.spec_success_message() == explicit.spec_success_message()
            &&& asked.spec_failure_label() == explicit.spec_failure_label()
            &&& forall|outcome: Result<String, String>, r: CommandResult|
                asked.reports(outcome, r) == explicit.reports(outcome, r)
        }),
{
    reveal_strlit("Manual");
    reveal_strlit("Disabled");
    reveal_strlit("Automatic");
}

/// An entry tagged as found in the startup folder is removed by its base
/// name there, whatever the registry holds; any other location is taken as
/// the registry key whose value `name` is removed, whether it exists or not.
pub proof fn lemma_startup_removal_follows_location(name: String, location: String)
    ensures
        ({
            let op = ScriptOperation::DisableStartupApp { name, location };
            &&& location@ == STARTUP_FOLDER@ ==> op.spec_script() == text_binding("name"@, name@)
                + scripts::STARTUP_FOLDER_REMOVAL_BODY@
            &&& location@ != STARTUP_FOLDER@ ==> op.spec_script() == text_binding(
                "location"@,
                location@,
            ) + text_binding("name"@, name@) + scripts::STARTUP_REGISTRY_REMOVAL_BODY@
        }),
{
}

} // verus!
