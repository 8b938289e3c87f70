use vstd::prelude::*;

use crate::catalog::ScriptOperation;
use crate::composite::CompositeOperation;
use crate::catalog::same_text;
use crate::shell::Tool;
use crate::text::parse_number;
use crate::text::parsed_number;

verus! {

/// Every operation that can be asked for by name.
pub enum Operation {
    Script(ScriptOperation),
    Composite(CompositeOperation),
    HighPerformancePower,
    Launch(Tool),
}

/// The names of the operations, each once, in a fixed order.
pub open spec fn operation_names() -> Seq<Seq<char>> {
    seq![
        "get_system_info"@,
        "get_virtual_memory_info"@,
        "set_virtual_memory"@,
        "get_services_list"@,
        "set_service_startup"@,
        "disable_unnecessary_services"@,
        "get_startup_apps"@,
        "disable_startup_app"@,
        "get_defender_status"@,
        "enable_controlled_folder_access"@,
        "get_power_plan"@,
        "set_high_performance_power"@,
        "disable_telemetry"@,
        "get_dns_settings"@,
        "set_cloudflare_dns"@,
        "get_optional_features"@,
        "disable_optional_feature"@,
        "optimize_visual_effects"@,
        "quick_optimize"@,
        "open_system_properties"@,
        "open_services"@,
        "open_task_manager"@,
        "open_optional_features"@,
        "open_windows_security"@,
    ]
}

impl Operation {
    /// The position of the operation's name in `operation_names`.
    pub open spec fn spec_index(&self) -> int {
        match self {
            Operation::Script(op) => match op {
                ScriptOperation::GetSystemInfo => 0,
                ScriptOperation::GetVirtualMemoryInfo => 1,
                ScriptOperation::SetVirtualMemory { .. } => 2,
                ScriptOperation::GetServicesList => 3,
                ScriptOperation::SetServiceStartup { .. } => 4,
                ScriptOperation::GetStartupApps => 6,
                ScriptOperation::DisableStartupApp { .. } => 7,
                ScriptOperation::GetDefenderStatus => 8,
                ScriptOperation::EnableControlledFolderAccess => 9,
                ScriptOperation::GetPowerPlan => 10,
                ScriptOperation::DisableTelemetry => 12,
                ScriptOperation::GetDnsSettings => 13,
                ScriptOperation::SetCloudflareDns => 14,
                ScriptOperation::GetOptionalFeatures => 15,
                ScriptOperation::DisableOptionalFeature { .. } => 16,
                ScriptOperation::OptimizeVisualEffects => 17,
            },
            Operation::Composite(CompositeOperation::DisableUnnecessaryServices) => 5,
            Operation::Composite(CompositeOperation::QuickOptimize) => 18,
            Operation::HighPerformancePower => 11,
            Operation::Launch(tool) => match tool {
                Tool::SystemProperties => 19,
                Tool::Services => 20,
                Tool::TaskManager => 21,
                Tool::OptionalFeatures => 22,
                Tool::WindowsSecurity => 23,
            },
        }
    }

    /// The operation's name.
    pub open spec fn spec_name(&self) -> Seq<char> {
        operation_names()[self.spec_index()]
    }

    /// The operation's name.
    pub fn name(&self) -> (r: &'static str)
        ensures
            r@ == self.spec_name(),
    {
        match self {
            Operation::Script(op) => match op {
                ScriptOperation::GetSystemInfo => "get_system_info",
                ScriptOperation::GetVirtualMemoryInfo => "get_virtual_memory_info",
                ScriptOperation::SetVirtualMemory { .. } => "set_virtual_memory",
                ScriptOperation::GetServicesList => "get_services_list",
                ScriptOperation::SetServiceStartup { .. } => "set_service_startup",
                ScriptOperation::GetStartupApps => "get_startup_apps",
                ScriptOperation::DisableStartupApp { .. } => "disable_startup_app",
                ScriptOperation::GetDefenderStatus => "get_defender_status",
                ScriptOperation::EnableControlledFolderAccess => "enable_controlled_folder_access",
                ScriptOperation::GetPowerPlan => "get_power_plan",
                ScriptOperation::DisableTelemetry => "disable_telemetry",
                ScriptOperation::GetDnsSettings => "get_dns_settings",
                ScriptOperation::SetCloudflareDns => "set_cloudflare_dns",
                ScriptOperation::GetOptionalFeatures => "get_optional_features",
                ScriptOperation::DisableOptionalFeature { .. } => "disable_optional_feature",
                ScriptOperation::OptimizeVisualEffects => "optimize_visual_effects",
            },
            Operation::Composite(CompositeOperation::DisableUnnecessaryServices) =>
                "disable_unnecessary_services",
            Operation::Composite(CompositeOperation::QuickOptimize) => "quick_optimize",
            Operation::HighPerformancePower => "set_high_performance_power",
            Operation::Launch(tool) => match tool {
                Tool::SystemProperties => "open_system_properties",
                Tool::Services => "open_services",
                Tool::TaskManager => "open_task_manager",
                Tool::OptionalFeatures => "open_optional_features",
                Tool::WindowsSecurity => "open_windows_security",
            },
        }
    }
}


/// The names are distinct: each names one operation.
pub proof fn lemma_names_distinct()
    ensures
        forall|i: int, j: int|
            0 <= i < j < operation_names().len() ==> operation_names()[i] != operation_names()[j],
{
    reveal_strlit("get_system_info");
    reveal_strlit("get_virtual_memory_info");
    reveal_strlit("set_virtual_memory");
    reveal_strlit("get_services_list");
    reveal_strlit("set_service_startup");
    reveal_strlit("disable_unnecessary_services");
    reveal_strlit("get_startup_apps");
    reveal_strlit("disable_startup_app");
    reveal_strlit("get_defender_status");
    reveal_strlit("enable_controlled_folder_access");
    reveal_strlit("get_power_plan");
    reveal_strlit("set_high_performance_power");
    reveal_strlit("disable_telemetry");
    reveal_strlit("get_dns_settings");
    reveal_strlit("set_cloudflare_dns");
    reveal_strlit("get_optional_features");
    reveal_strlit("disable_optional_feature");
    reveal_strlit("optimize_visual_effects");
    reveal_strlit("quick_optimize");
    reveal_strlit("open_system_properties");
    reveal_strlit("open_services");
    reveal_strlit("open_task_manager");
    reveal_strlit("open_optional_features");
    reveal_strlit("open_windows_security");
    let names = operation_names();
    assert forall|i: int, j: int| 0 <= i < j < names.len() implies names[i] != names[j] by {
        if names[i] == names[j] {
            assert(names[i].len() == names[j].len());
            assert(names[i][0] == names[j][0]);
            assert(names[i][4] == names[j][4]);
            assert(names[i][9] == names[j][9]);
        }
    }
}

/// Two operations of different kinds have different names.
pub proof fn lemma_name_identifies_kind(a: Operation, b: Operation)
    requires
        a.spec_name() == b.spec_name(),
    ensures
        a.spec_index() == b.spec_index(),
{
    lemma_names_distinct();
}


/// Why a request names no operation that can run.
pub enum RequestError {
    /// No operation has the name.
    UnknownOperation,
    /// The operation needs more arguments than were given.
    MissingArgument,
    /// A size is not a decimal number that fits in 32 bits.
    NotANumber,
}

/// How many arguments the operation `name` takes.
pub open spec fn arity(name: Seq<char>) -> nat {
    if name == "set_virtual_memory"@ || name == "set_service_startup"@ || name
        == "disable_startup_app"@ {
        2
    } else if name == "disable_optional_feature"@ {
        1
    } else {
        0
    }
}

impl Operation {
    /// Whether this is the operation that `name` asks for with `args`.
    pub open spec fn answers(&self, name: Seq<char>, args: Seq<Seq<char>>) -> bool {
        &&& self.spec_name() == name
        &&& args.len() >= arity(name)
        &&& match self {
            Operation::Script(ScriptOperation::SetVirtualMemory { initial_size, max_size }) => {
                &&& parsed_number(args[0]) == Some(*initial_size)
                &&& parsed_number(args[1]) == Some(*max_size)
            },
            Operation::Script(ScriptOperation::SetServiceStartup { service_name, startup_type }) => {
                &&& service_name@ == args[0]
                &&& startup_type@ == args[1]
            },
            Operation::Script(ScriptOperation::DisableStartupApp { name, location }) => {
                &&& name@ == args[0]
                &&& location@ == args[1]
            },
            Operation::Script(ScriptOperation::DisableOptionalFeature { feature_name }) => {
                feature_name@ == args[0]
            },
            _ => true,
        }
    }
}

/// The operation that `name` asks for with the arguments `args`; arguments
/// beyond those it takes are ignored.
pub fn from_request(name: &str, args: &Vec<String>) -> (r: Result<Operation, RequestError>)
    ensures
        r matches Ok(op) ==> op.answers(name@, args@.map_values(|a: String| a@)),
        r matches Err(RequestError::UnknownOperation) <==> !operation_names().contains(name@),
        r matches Err(RequestError::MissingArgument) <==> operation_names().contains(name@)
            && args@.len() < arity(name@),
        r matches Err(RequestError::NotANumber) <==> name@ == "set_virtual_memory"@
            && args@.len() >= 2 && (parsed_number(args@[0]@) is None || parsed_number(
            args@[1]@,
        ) is None),
{
    proof {
        lemma_names_distinct();
    }
    let ghost views = args@.map_values(|a: String| a@);
    let ghost names = operation_names();
    if same_text(name, "get_system_info") {
        assert(names[0] == name@);
        return Ok(Operation::Script(ScriptOperation::GetSystemInfo));
    }
    if same_text(name, "get_virtual_memory_info") {
        assert(names[1] == name@);
        return Ok(Operation::Script(ScriptOperation::GetVirtualMemoryInfo));
    }
    if same_text(name, "get_services_list") {
        assert(names[3] == name@);
        return Ok(Operation::Script(ScriptOperation::GetServicesList));
    }
    if same_text(name, "disable_unnecessary_services") {
        assert(names[5] == name@);
        return Ok(Operation::Composite(CompositeOperation::DisableUnnecessaryServices));
    }
    if same_text(name, "get_startup_apps") {
        assert(names[6] == name@);
        return Ok(Operation::Script(ScriptOperation::GetStartupApps));
    }
    if same_text(name, "get_defender_status") {
        assert(names[8] == name@);
        return Ok(Operation::Script(ScriptOperation::GetDefenderStatus));
    }
    if same_text(name, "enable_controlled_folder_access") {
        assert(names[9] == name@);
        return Ok(Operation::Script(ScriptOperation::EnableControlledFolderAccess));
    }
    if same_text(name, "get_power_plan") {
        assert(names[10] == name@);
        return Ok(Operation::Script(ScriptOperation::GetPowerPlan));
    }
    if same_text(name, "set_high_performance_power") {
        assert(names[11] == name@);
        return Ok(Operation::HighPerformancePower);
    }
    if same_text(name, "disable_telemetry") {
        assert(names[12] == name@);
        return Ok(Operation::Script(ScriptOperation::DisableTelemetry));
    }
    if same_text(name, "get_dns_settings") {
        assert(names[13] == name@);
        return Ok(Operation::Script(ScriptOperation::GetDnsSettings));
    }
    if same_text(name, "set_cloudflare_dns") {
        assert(names[14] == name@);
        return Ok(Operation::Script(ScriptOperation::SetCloudflareDns));
    }
    if same_text(name, "get_optional_features") {
        assert(names[15] == name@);
        return Ok(Operation::Script(ScriptOperation::GetOptionalFeatures));
    }
    if same_text(name, "optimize_visual_effects") {
        assert(names[17] == name@);
        return Ok(Operation::Script(ScriptOperation::OptimizeVisualEffects));
    }
    if same_text(name, "quick_optimize") {
        assert(names[18] == name@);
        return Ok(Operation::Composite(CompositeOperation::QuickOptimize));
    }
    if same_text(name, "open_system_properties") {
        assert(names[19] == name@);
        return Ok(Operation::Launch(Tool::SystemProperties));
    }
    if same_text(name, "open_services") {
        assert(names[20] == name@);
        return Ok(Operation::Launch(Tool::Services));
    }
    if same_text(name, "open_task_manager") {
        assert(names[21] == name@);
        return Ok(Operation::Launch(Tool::TaskManager));
    }
    if same_text(name, "open_optional_features") {
        assert(names[22] == name@);
        return Ok(Operation::Launch(Tool::OptionalFeatures));
    }
    if same_text(name, "open_windows_security") {
        assert(names[23] == name@);
        return Ok(Operation::Launch(Tool::WindowsSecurity));
    }
    if same_text(name, "set_virtual_memory") {
        assert(names[2] == name@);
        if args.len() < 2 {
            return Err(RequestError::MissingArgument);
        }
        assert(views[0] == args@[0]@ && views[1] == args@[1]@);
        let initial = parse_number(args[0].as_str());
        let maximum = parse_number(args[1].as_str());
        return match (initial, maximum) {
            (Some(initial_size), Some(max_size)) => Ok(
                Operation::Script(ScriptOperation::SetVirtualMemory { initial_size, max_size }),
            ),
            _ => Err(RequestError::NotANumber),
        };
    }
    if same_text(name, "set_service_startup") {
        assert(names[4] == name@);
        if args.len() < 2 {
            return Err(RequestError::MissingArgument);
        }
        assert(views[0] == args@[0]@ && views[1] == args@[1]@);
        return Ok(
            Operation::Script(
                ScriptOperation::SetServiceStartup {
                    service_name: args[0].clone(),
                    startup_type: args[1].clone(),
                },
            ),
        );
    }
    if same_text(name, "disable_startup_app") {
        assert(names[7] == name@);
        if args.len() < 2 {
            return Err(RequestError::MissingArgument);
        }
        assert(views[0] == args@[0]@ && views[1] == args@[1]@);
        return Ok(
            Operation::Script(
                ScriptOperation::DisableStartupApp { name: args[0].clone(), location: args[1].clone() },
            ),
        );
    }
    if same_text(name, "disable_optional_feature") {
        assert(names[16] == name@);
        if args.len() < 1 {
            return Err(RequestError::MissingArgument);
        }
        assert(views[0] == args@[0]@);
        return Ok(
            Operation::Script(
                ScriptOperation::DisableOptionalFeature { feature_name: args[0].clone() },
            ),
        );
    }
    assert(!names.contains(name@)) by {
        assert forall|i: int| 0 <= i < names.len() implies names[i] != name@ by {}
    }
    Err(RequestError::UnknownOperation)
}

} // verus!
