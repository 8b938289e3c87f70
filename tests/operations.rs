use winoptimizer::catalog::{normalize_startup_type, same_text, ScriptOperation};
use winoptimizer::composite::CompositeOperation;
use winoptimizer::power::PowerStage;
use winoptimizer::registry::{from_request, Operation, RequestError};
use winoptimizer::text::parse_number;
use winoptimizer::scripts;
use winoptimizer::shell::Tool;

fn startup(service: &str, kind: &str) -> ScriptOperation {
    ScriptOperation::SetServiceStartup {
        service_name: service.to_string(),
        startup_type: kind.to_string(),
    }
}

#[test]
fn same_text_compares_whole_texts() {
    assert!(same_text("Manual", "Manual"));
    assert!(!same_text("Manual", "manual"));
    assert!(!same_text("Manual", "Manua"));
}

#[test]
fn startup_types_normalize() {
    assert_eq!(normalize_startup_type("Disabled"), "Disabled");
    assert_eq!(normalize_startup_type("Automatic"), "Automatic");
    assert_eq!(normalize_startup_type("Manual"), "Manual");
    assert_eq!(normalize_startup_type("Boot"), "Manual");
    assert_eq!(normalize_startup_type(""), "Manual");
}

#[test]
fn unknown_startup_type_acts_as_manual() {
    let asked = startup("Spooler", "Sometimes");
    let explicit = startup("Spooler", "Manual");
    assert_eq!(asked.script(), explicit.script());
    let a = asked.finish(Ok("out".to_string()));
    let b = explicit.finish(Ok("out".to_string()));
    assert_eq!(a.message, b.message);
    assert_eq!(a.message, "Service Spooler set to Manual");
    assert_eq!(a.output, b.output);
}

#[test]
fn service_startup_script_binds_its_values() {
    let script = startup("Spooler", "Disabled").script();
    let expected = format!(
        "$name = 'Spooler'\n$startupType = 'Disabled'\n{}",
        scripts::SET_SERVICE_STARTUP_BODY
    );
    assert_eq!(script, expected);
}

#[test]
fn virtual_memory_script_binds_sizes() {
    let op = ScriptOperation::SetVirtualMemory { initial_size: 1024, max_size: 4096 };
    let expected = format!(
        "$initialSize = 1024\n$maximumSize = 4096\n{}",
        scripts::SET_VIRTUAL_MEMORY_BODY
    );
    assert_eq!(op.script(), expected);
}

#[test]
fn startup_folder_entry_is_removed_by_base_name() {
    let op = ScriptOperation::DisableStartupApp {
        name: "Tool".to_string(),
        location: "StartupFolder".to_string(),
    };
    let script = op.script();
    assert_eq!(script, format!("$name = 'Tool'\n{}", scripts::STARTUP_FOLDER_REMOVAL_BODY));
    assert!(!script.contains("Remove-ItemProperty"));
}

#[test]
fn other_locations_are_registry_keys() {
    let key = "HKCU:\\Software\\Nowhere\\Run";
    let op = ScriptOperation::DisableStartupApp {
        name: "Tool".to_string(),
        location: key.to_string(),
    };
    let expected = format!(
        "$location = 'HKCU:\\Software\\Nowhere\\Run'\n$name = 'Tool'\n{}",
        scripts::STARTUP_REGISTRY_REMOVAL_BODY
    );
    assert_eq!(op.script(), expected);
    let r = op.finish(Ok(String::new()));
    assert_eq!(r.message, "Disabled Tool from startup");
}

#[test]
fn feature_name_is_quoted() {
    let op = ScriptOperation::DisableOptionalFeature { feature_name: "SMB1Protocol".to_string() };
    assert_eq!(
        op.script(),
        format!("$featureName = 'SMB1Protocol'\n{}", scripts::DISABLE_FEATURE_BODY)
    );
    assert_eq!(op.finish(Ok(String::new())).message, "Feature SMB1Protocol disabled");
}

#[test]
fn queries_pass_output_through() {
    let op = ScriptOperation::GetSystemInfo;
    assert_eq!(op.script(), scripts::SYSTEM_INFO_SCRIPT);
    let r = op.finish(Ok("{\"has_ssd\": true}".to_string()));
    assert!(r.success);
    assert_eq!(r.message, "System info retrieved");
    assert_eq!(r.output.as_deref(), Some("{\"has_ssd\": true}"));
}

#[test]
fn failures_carry_label_and_no_output() {
    let r = ScriptOperation::GetDnsSettings.finish(Err("boom".to_string()));
    assert!(!r.success);
    assert_eq!(r.message, "Failed to get DNS settings: boom");
    assert!(r.output.is_none());
    let r = ScriptOperation::SetCloudflareDns.finish(Err("denied".to_string()));
    assert_eq!(r.message, "Failed to set DNS: denied");
}

#[test]
fn output_present_exactly_on_success() {
    let ops = vec![
        ScriptOperation::GetSystemInfo,
        ScriptOperation::GetVirtualMemoryInfo,
        ScriptOperation::GetServicesList,
        ScriptOperation::GetStartupApps,
        ScriptOperation::GetDefenderStatus,
        ScriptOperation::EnableControlledFolderAccess,
        ScriptOperation::GetPowerPlan,
        ScriptOperation::DisableTelemetry,
        ScriptOperation::GetDnsSettings,
        ScriptOperation::SetCloudflareDns,
        ScriptOperation::GetOptionalFeatures,
        ScriptOperation::OptimizeVisualEffects,
    ];
    for op in ops {
        let ok = op.finish(Ok("x".to_string()));
        assert!(ok.success && ok.output.is_some());
        let bad = op.finish(Err("y".to_string()));
        assert!(!bad.success && bad.output.is_none());
    }
}

#[test]
fn composite_accounts_every_service_in_order() {
    let op = CompositeOperation::DisableUnnecessaryServices;
    let steps = op.steps();
    assert_eq!(steps.len(), 7);
    let subjects: Vec<&str> = steps.iter().map(|s| s.subject.as_str()).collect();
    assert_eq!(
        subjects,
        vec!["lfsvc", "PhoneSvc", "RemoteRegistry", "RetailDemo", "WerSvc", "DusmSvc", "seclogon"]
    );
    let outcomes = vec![
        Ok(String::new()),
        Err("Cannot find service\r\nat line 2".to_string()),
        Ok(String::new()),
        Err("denied".to_string()),
        Ok(String::new()),
        Ok(String::new()),
        Ok(String::new()),
    ];
    let r = op.report(&outcomes);
    assert!(r.success);
    assert_eq!(r.message, "Unnecessary services configured");
    let text = r.output.unwrap();
    assert_eq!(
        text,
        "lfsvc - Disabled\nPhoneSvc - Failed: Cannot find service\nRemoteRegistry - Disabled\nRetailDemo - Failed: denied\nWerSvc - Disabled\nDusmSvc - Disabled\nseclogon - Set to Manual"
    );
    assert_eq!(text.lines().count(), 7);
}

#[test]
fn composite_succeeds_when_every_step_fails() {
    let op = CompositeOperation::QuickOptimize;
    let steps = op.steps();
    assert_eq!(steps.len(), 9);
    let outcomes: Vec<Result<String, String>> =
        steps.iter().map(|_| Err("line one\nline two".to_string())).collect();
    let r = op.report(&outcomes);
    assert!(r.success);
    assert_eq!(r.message, "Quick optimization completed");
    let text = r.output.unwrap();
    assert_eq!(text.split('\n').count(), 9);
    assert_eq!(
        text,
        "Disabled service: lfsvc\nDisabled service: PhoneSvc\nDisabled service: RemoteRegistry\nDisabled service: RetailDemo\nDisabled service: WerSvc\nDisabled service: DusmSvc\nadvertising ID - Failed: line one\npower plan - Failed: line one\nCleaned temp files"
    );
}

#[test]
fn quick_optimize_service_lines_survive_missing_services() {
    let op = CompositeOperation::QuickOptimize;
    let steps = op.steps();
    let outcomes: Vec<Result<String, String>> = steps
        .iter()
        .enumerate()
        .map(|(i, _)| if i < 6 { Err(String::new()) } else { Ok(String::new()) })
        .collect();
    let text = op.report(&outcomes).output.unwrap();
    let lines: Vec<&str> = text.split('\n').collect();
    let services = ["lfsvc", "PhoneSvc", "RemoteRegistry", "RetailDemo", "WerSvc", "DusmSvc"];
    for (i, name) in services.iter().enumerate() {
        assert_eq!(lines[i], format!("Disabled service: {}", name));
    }
    assert!(steps[0].quiet && steps[8].quiet);
    assert!(!steps[6].quiet && !steps[7].quiet);
    assert!(steps[0].script.ends_with("exit 0\n"));
}

#[test]
fn quick_optimize_reports_done_lines() {
    let op = CompositeOperation::QuickOptimize;
    let outcomes: Vec<Result<String, String>> =
        op.steps().iter().map(|_| Ok(String::new())).collect();
    let text = op.report(&outcomes).output.unwrap();
    assert_eq!(
        text,
        "Disabled service: lfsvc\nDisabled service: PhoneSvc\nDisabled service: RemoteRegistry\nDisabled service: RetailDemo\nDisabled service: WerSvc\nDisabled service: DusmSvc\nDisabled advertising ID\nSet High Performance power plan\nCleaned temp files"
    );
}

#[test]
fn composite_step_scripts_bind_the_service() {
    let steps = CompositeOperation::DisableUnnecessaryServices.steps();
    assert_eq!(steps[0].script, format!("$name = 'lfsvc'\n{}", scripts::DISABLE_SERVICE_BODY));
    assert_eq!(steps[6].script, format!("$name = 'seclogon'\n{}", scripts::MANUAL_SERVICE_BODY));
}

const WITH_HIGH: &str = "Power Scheme GUID: 381b4222-f694-41f0-9685-ff5bb260df2e  (Balanced) *\nPower Scheme GUID: 8c5e7fda-e8bf-4a96-9a85-a6e23a8c635c  (High performance)\n";
const WITHOUT: &str = "Power Scheme GUID: 381b4222-f694-41f0-9685-ff5bb260df2e  (Balanced) *\n";
const WITH_ULTIMATE: &str = "Power Scheme GUID: 381b4222-f694-41f0-9685-ff5bb260df2e  (Balanced) *\nPower Scheme GUID: 11111111-2222-3333-4444-555555555555  (Ultimate Performance)\n";

#[test]
fn high_performance_plan_is_activated_directly() {
    let stage = PowerStage::start();
    assert_eq!(stage.script().as_deref(), Some(scripts::POWER_SCHEMES_SCRIPT));
    let stage = stage.advance(Ok(WITH_HIGH.to_string()));
    match &stage {
        PowerStage::Activate { guid, report } => {
            assert_eq!(guid, "8c5e7fda-e8bf-4a96-9a85-a6e23a8c635c");
            assert_eq!(report, "High Performance power plan activated");
        }
        _ => panic!("expected activation"),
    }
    assert_eq!(
        stage.script().unwrap(),
        "$guid = '8c5e7fda-e8bf-4a96-9a85-a6e23a8c635c'\npowercfg /setactive $guid\n"
    );
    let done = stage.advance(Ok(String::new()));
    let r = done.result().unwrap();
    assert!(r.success);
    assert_eq!(r.message, "High Performance power plan set");
    assert_eq!(r.output.as_deref(), Some("High Performance power plan activated"));
}

#[test]
fn ultimate_plan_is_created_only_when_high_is_missing() {
    let stage = PowerStage::start().advance(Ok(WITHOUT.to_string()));
    assert!(matches!(stage, PowerStage::CreateUltimate));
    assert_eq!(stage.script().as_deref(), Some(scripts::ULTIMATE_DUPLICATE_SCRIPT));
    let stage = stage.advance(Err("ignored".to_string()));
    assert!(matches!(stage, PowerStage::FindUltimate));
    let stage = stage.advance(Ok(WITH_ULTIMATE.to_string()));
    match &stage {
        PowerStage::Activate { guid, report } => {
            assert_eq!(guid, "11111111-2222-3333-4444-555555555555");
            assert_eq!(report, "Ultimate Performance power plan activated");
        }
        _ => panic!("expected activation"),
    }
}

#[test]
fn missing_plans_end_in_an_explained_success() {
    let stage = PowerStage::start()
        .advance(Ok(WITHOUT.to_string()))
        .advance(Ok(String::new()))
        .advance(Ok(WITHOUT.to_string()));
    assert!(stage.script().is_none());
    let r = stage.result().unwrap();
    assert!(r.success);
    assert_eq!(r.output.as_deref(), Some("Could not find High Performance plan"));
}

#[test]
fn power_failure_ends_the_run() {
    let r = PowerStage::start().advance(Err("powercfg missing".to_string())).result().unwrap();
    assert!(!r.success);
    assert_eq!(r.message, "Failed to set power plan: powercfg missing");
    assert!(r.output.is_none());
}

#[test]
fn operation_names_match_the_frontend_surface() {
    assert_eq!(Operation::Script(ScriptOperation::GetSystemInfo).name(), "get_system_info");
    assert_eq!(
        Operation::Composite(CompositeOperation::QuickOptimize).name(),
        "quick_optimize"
    );
    assert_eq!(Operation::HighPerformancePower.name(), "set_high_performance_power");
    assert_eq!(Operation::Launch(Tool::WindowsSecurity).name(), "open_windows_security");
    assert_eq!(
        Operation::Script(startup("a", "b")).name(),
        "set_service_startup"
    );
}

fn strings(items: &[&str]) -> Vec<String> {
    items.iter().map(|s| s.to_string()).collect()
}

#[test]
fn requests_name_their_operation() {
    let op = from_request("get_power_plan", &Vec::new());
    assert!(matches!(op, Ok(Operation::Script(ScriptOperation::GetPowerPlan))));
    let op = from_request("set_high_performance_power", &strings(&["extra"]));
    assert!(matches!(op, Ok(Operation::HighPerformancePower)));
    let op = from_request("open_services", &Vec::new());
    assert!(matches!(op, Ok(Operation::Launch(Tool::Services))));
}

#[test]
fn requests_carry_their_arguments() {
    let op = from_request("set_virtual_memory", &strings(&["1024", "4096"]));
    match op {
        Ok(Operation::Script(ScriptOperation::SetVirtualMemory { initial_size, max_size })) => {
            assert_eq!(initial_size, 1024);
            assert_eq!(max_size, 4096);
        }
        _ => panic!("expected set_virtual_memory"),
    }
    let op = from_request("disable_startup_app", &strings(&["Tool", "StartupFolder"]));
    match op {
        Ok(Operation::Script(ScriptOperation::DisableStartupApp { name, location })) => {
            assert_eq!(name, "Tool");
            assert_eq!(location, "StartupFolder");
        }
        _ => panic!("expected disable_startup_app"),
    }
}

#[test]
fn bad_requests_are_refused() {
    assert!(matches!(from_request("format_disk", &Vec::new()), Err(RequestError::UnknownOperation)));
    assert!(matches!(from_request("", &Vec::new()), Err(RequestError::UnknownOperation)));
    assert!(matches!(
        from_request("set_service_startup", &strings(&["Spooler"])),
        Err(RequestError::MissingArgument)
    ));
    assert!(matches!(
        from_request("disable_optional_feature", &Vec::new()),
        Err(RequestError::MissingArgument)
    ));
    assert!(matches!(
        from_request("set_virtual_memory", &strings(&["1024", "lots"])),
        Err(RequestError::NotANumber)
    ));
    assert!(matches!(
        from_request("set_virtual_memory", &strings(&["4294967296", "1"])),
        Err(RequestError::NotANumber)
    ));
}

#[test]
fn numbers_parse_in_decimal() {
    assert_eq!(parse_number("0"), Some(0));
    assert_eq!(parse_number("007"), Some(7));
    assert_eq!(parse_number("4294967295"), Some(u32::MAX));
    assert_eq!(parse_number("4294967296"), None);
    assert_eq!(parse_number("99999999999"), None);
    assert_eq!(parse_number(""), None);
    assert_eq!(parse_number("-1"), None);
    assert_eq!(parse_number("12a"), None);
}

#[test]
fn feature_name_with_typographic_quote_stays_one_value() {
    let op = ScriptOperation::DisableOptionalFeature {
        feature_name: "x\u{2019}; Remove-Item C:\\Users -Recurse; \u{2019}".to_string(),
    };
    assert_eq!(
        op.script(),
        format!(
            "$featureName = 'x\u{2019}\u{2019}; Remove-Item C:\\Users -Recurse; \u{2019}\u{2019}'\n{}",
            scripts::DISABLE_FEATURE_BODY
        )
    );
}

#[test]
fn service_step_scripts_report_the_exception_message() {
    let steps = CompositeOperation::DisableUnnecessaryServices.steps();
    assert!(steps[0].script.contains("[Console]::Error.WriteLine($_.Exception.Message)"));
    assert!(steps[0].script.contains("exit 1"));
    assert!(!steps[0].quiet);
}
