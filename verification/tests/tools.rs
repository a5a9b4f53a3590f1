use bobibot::tools::{chrono_lite, timestamp_line, u64_to_dec, EchoTool, TimeTool, Tool, ToolBox, ToolRegistry};

#[test]
fn test_echo_tool() {
    let tool = EchoTool;
    assert_eq!(tool.execute("hello").unwrap(), "hello");
}

#[test]
fn test_tool_registry() {
    let mut registry = ToolRegistry::new();
    registry.register(ToolBox::Echo(EchoTool));
    assert_eq!(registry.list(), vec!["echo".to_string()]);
}

#[test]
fn echo_returns_arbitrary_input_unchanged() {
    let tool = EchoTool;
    assert_eq!(tool.execute("").unwrap(), "");
    assert_eq!(tool.execute("two words").unwrap(), "two words");
    assert_eq!(tool.execute("punctuation: !?#").unwrap(), "punctuation: !?#");
}

#[test]
fn tool_names_and_descriptions() {
    assert_eq!(EchoTool.name(), "echo");
    assert_eq!(EchoTool.description(), "Echoes back the input text");
    assert_eq!(TimeTool.name(), "time");
    assert_eq!(TimeTool.description(), "Returns the current date and time");
}

#[test]
fn registry_get_missing_is_absent() {
    let mut registry = ToolRegistry::new();
    assert!(registry.get("missing").is_none());
    registry.register(ToolBox::Echo(EchoTool));
    registry.register(ToolBox::Time(TimeTool));
    assert!(registry.get("missing").is_none());
    assert!(registry.get("").is_none());
}

#[test]
fn registry_get_finds_registered_tools() {
    let mut registry = ToolRegistry::new();
    registry.register(ToolBox::Echo(EchoTool));
    registry.register(ToolBox::Time(TimeTool));
    let echo = registry.get("echo").expect("echo should be registered");
    assert_eq!(echo.name(), "echo");
    let time = registry.get("time").expect("time should be registered");
    assert_eq!(time.name(), "time");
}

#[test]
fn registry_list_keeps_registration_order() {
    let mut registry = ToolRegistry::new();
    assert_eq!(registry.list(), Vec::<String>::new());
    registry.register(ToolBox::Time(TimeTool));
    registry.register(ToolBox::Echo(EchoTool));
    assert_eq!(registry.list(), vec!["time".to_string(), "echo".to_string()]);
}

#[test]
fn decimal_rendering_exact_values() {
    assert_eq!(u64_to_dec(0), "0");
    assert_eq!(u64_to_dec(7), "7");
    assert_eq!(u64_to_dec(10), "10");
    assert_eq!(u64_to_dec(1234567890), "1234567890");
    assert_eq!(u64_to_dec(u64::MAX), "18446744073709551615");
}

#[test]
fn timestamp_line_exact_values() {
    assert_eq!(timestamp_line(0), "Unix timestamp: 0 seconds since epoch");
    assert_eq!(
        timestamp_line(1234567890),
        "Unix timestamp: 1234567890 seconds since epoch"
    );
}

fn parse_timestamp(line: &str) -> u64 {
    let rest = line
        .strip_prefix("Unix timestamp: ")
        .expect("line should start with the fixed prefix");
    let digits = rest
        .strip_suffix(" seconds since epoch")
        .expect("line should end with the fixed suffix");
    digits
        .parse::<u64>()
        .expect("the middle of the line should be a decimal integer")
}

#[test]
fn time_tool_reports_nondecreasing_timestamps() {
    let tool = TimeTool;
    let first = parse_timestamp(&tool.execute("ignored").unwrap());
    let second = parse_timestamp(&chrono_lite());
    assert!(second >= first);
}
