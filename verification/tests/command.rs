use lab_tools_client::command::{Command, ToolCommand, ToolboxCommand};

#[test]
fn run_script_wraps_script_and_flag() {
    let command = Command::run_script("print(1+1)", false);
    assert_eq!(
        command,
        Command {
            tool_command: ToolCommand::Toolbox(ToolboxCommand::RunScript {
                script_content: "print(1+1)".to_string(),
                blocking: false,
            }),
        }
    );
}

#[test]
fn run_script_is_addressed_to_the_toolbox() {
    let command = Command::run_script("x = 1", true);
    assert!(matches!(command.tool_command, ToolCommand::Toolbox(ToolboxCommand::RunScript { .. })));
}

#[test]
fn command_construction_is_deterministic() {
    let first = Command::run_script("print(1)", true);
    let second = Command::run_script("print(1)", true);
    assert_eq!(first, second);
    assert_eq!(first.script(), "print(1)");
    assert!(first.blocking());
}

#[test]
fn different_inputs_give_different_envelopes() {
    let base = Command::run_script("print(1)", true);
    assert_ne!(base, Command::run_script("print(1)", false));
    assert_ne!(base, Command::run_script("print(2)", true));
    assert_ne!(base, Command::run_script("print(1) ", true));
}

#[test]
fn run_script_keeps_the_script_as_it_is() {
    let script = "\nimport sys\nprint(f\"Python {sys.version.split()[0]}\")\n";
    let command = Command::run_script(script, true);
    assert_eq!(command.script(), script);
    let empty = Command::run_script("", false);
    assert_eq!(empty.script(), "");
    assert!(!empty.blocking());
}
