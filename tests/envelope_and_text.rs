use winoptimizer::envelope::CommandResult;
use winoptimizer::listing::{find_scheme_guid, mentions_exec, split_fields, split_lines};
use winoptimizer::quoting::{bind_number, bind_text, quote};
use winoptimizer::shell::{interpreter_args, run_outcome, spawn_failure, Tool, INTERPRETER, LAUNCHER};
use winoptimizer::text::{decimal_string, first_line_of, join_with_newlines};

#[test]
fn failed_envelope_joins_label_and_detail() {
    let r = CommandResult::failed("Failed to get power plan", "access denied");
    assert!(!r.success);
    assert_eq!(r.message, "Failed to get power plan: access denied");
    assert!(r.output.is_none());
}

#[test]
fn succeeded_envelope_carries_output() {
    let r = CommandResult::succeeded("done".to_string(), "text".to_string());
    assert!(r.success);
    assert_eq!(r.message, "done");
    assert_eq!(r.output.as_deref(), Some("text"));
}

#[test]
fn launched_envelope_has_no_output() {
    let r = CommandResult::launched("opened".to_string());
    assert!(r.success);
    assert!(r.output.is_none());
}

#[test]
fn decimal_of_small_and_large_numbers() {
    assert_eq!(decimal_string(0), "0");
    assert_eq!(decimal_string(7), "7");
    assert_eq!(decimal_string(10), "10");
    assert_eq!(decimal_string(4096), "4096");
    assert_eq!(decimal_string(u32::MAX), "4294967295");
}

#[test]
fn quote_doubles_single_quotes() {
    assert_eq!(quote(""), "''");
    assert_eq!(quote("Spooler"), "'Spooler'");
    assert_eq!(quote("it's"), "'it''s'");
    assert_eq!(quote("$(evil)"), "'$(evil)'");
}

#[test]
fn quote_doubles_typographic_single_quotes() {
    assert_eq!(quote("it\u{2019}s"), "'it\u{2019}\u{2019}s'");
    assert_eq!(
        quote("\u{2018}\u{201A}\u{201B}"),
        "'\u{2018}\u{2018}\u{201A}\u{201A}\u{201B}\u{201B}'"
    );
    assert_eq!(
        quote("x\u{2019}; Remove-Item C:\\Users -Recurse; \u{2019}"),
        "'x\u{2019}\u{2019}; Remove-Item C:\\Users -Recurse; \u{2019}\u{2019}'"
    );
    assert_eq!(quote("\u{201C}double\u{201D}"), "'\u{201C}double\u{201D}'");
}

#[test]
fn bindings_write_one_line() {
    assert_eq!(bind_text("name", "O'Brien"), "$name = 'O''Brien'\n");
    assert_eq!(bind_number("initialSize", 1024), "$initialSize = 1024\n");
}

#[test]
fn first_line_stops_at_any_break() {
    assert_eq!(first_line_of("one\ntwo"), "one");
    assert_eq!(first_line_of("one\r\ntwo"), "one");
    assert_eq!(first_line_of("single"), "single");
    assert_eq!(first_line_of(""), "");
    assert_eq!(first_line_of("\nrest"), "");
}

#[test]
fn join_puts_feeds_between_lines() {
    let lines = vec!["a".to_string(), "b".to_string(), "c".to_string()];
    assert_eq!(join_with_newlines(&lines), "a\nb\nc");
    assert_eq!(join_with_newlines(&vec!["x".to_string()]), "x");
    assert_eq!(join_with_newlines(&Vec::new()), "");
}

#[test]
fn lines_keep_empty_pieces() {
    assert_eq!(split_lines("a\n\nb\n"), vec!["a", "", "b", ""]);
    assert_eq!(split_lines(""), vec![""]);
}

#[test]
fn fields_split_at_runs_of_space() {
    assert_eq!(split_fields("a  b\tc"), vec!["a", "b", "c"]);
    assert_eq!(split_fields(" a"), vec!["", "a"]);
    assert_eq!(split_fields("a "), vec!["a", ""]);
    assert_eq!(split_fields(""), vec![""]);
}

#[test]
fn mentions_ignores_ascii_case() {
    assert!(mentions_exec("(High Performance)", "High performance"));
    assert!(mentions_exec("x high PERFORMANCE y", "High performance"));
    assert!(!mentions_exec("(Balanced)", "High performance"));
    assert!(mentions_exec("anything", ""));
}

const LISTING: &str = "Existing Power Schemes (* Active)\r\n-----------------------------------\r\nPower Scheme GUID: 381b4222-f694-41f0-9685-ff5bb260df2e  (Balanced) *\r\nPower Scheme GUID: 8c5e7fda-e8bf-4a96-9a85-a6e23a8c635c  (High performance)\r\nPower Scheme GUID: a1841308-3541-4fab-bc81-f71556f20b4a  (Power saver)\r\n";

#[test]
fn scheme_guid_is_the_fourth_field_of_the_first_mention() {
    assert_eq!(
        find_scheme_guid(LISTING, "High performance").as_deref(),
        Some("8c5e7fda-e8bf-4a96-9a85-a6e23a8c635c")
    );
    assert_eq!(find_scheme_guid(LISTING, "Ultimate Performance"), None);
    assert_eq!(find_scheme_guid("High performance", "High performance").as_deref(), Some(""));
}

#[test]
fn interpreter_runs_the_script_once() {
    assert_eq!(INTERPRETER, "powershell");
    assert_eq!(
        interpreter_args("Get-Date".to_string()),
        vec!["-NoProfile", "-ExecutionPolicy", "Bypass", "-Command", "Get-Date"]
    );
}

#[test]
fn run_outcome_picks_the_stream() {
    let ok = run_outcome(true, "out".to_string(), "err".to_string());
    assert_eq!(ok, Ok("out".to_string()));
    let bad = run_outcome(false, "out".to_string(), "err".to_string());
    assert_eq!(bad, Err("err".to_string()));
}

#[test]
fn spawn_failure_names_the_interpreter() {
    assert_eq!(spawn_failure("not found"), "Failed to execute PowerShell: not found");
}

#[test]
fn tools_open_through_the_launcher() {
    assert_eq!(LAUNCHER, "cmd");
    assert_eq!(Tool::SystemProperties.args(), vec!["/C", "sysdm.cpl"]);
    assert_eq!(Tool::Services.args(), vec!["/C", "services.msc"]);
    assert_eq!(Tool::TaskManager.args(), vec!["/C", "taskmgr"]);
    assert_eq!(Tool::OptionalFeatures.args(), vec!["/C", "optionalfeatures"]);
    assert_eq!(Tool::WindowsSecurity.args(), vec!["/C", "start", "windowsdefender:"]);
}

#[test]
fn launch_success_has_no_output() {
    let r = Tool::TaskManager.finish(Ok(()));
    assert!(r.success);
    assert_eq!(r.message, "Task Manager opened");
    assert!(r.output.is_none());
}

#[test]
fn launch_failure_names_the_tool() {
    let r = Tool::WindowsSecurity.finish(Err("no such program".to_string()));
    assert!(!r.success);
    assert_eq!(r.message, "Failed to open Windows Security: no such program");
    assert!(r.output.is_none());
}
