use dbms_upended::repl::{repl_action, ReplAction};

#[test]
fn backslash_commands() {
    assert_eq!(repl_action("\\q".to_string()), ReplAction::Quit);
    assert_eq!(repl_action("\\ddm".to_string()), ReplAction::DebugPrintDbms);
    assert_eq!(repl_action("\\ss".to_string()), ReplAction::SaveSchemas);
}

#[test]
fn unknown_command_keeps_its_name() {
    assert_eq!(repl_action("\\help".to_string()), ReplAction::UnknownCommand("help".to_string()));
    assert_eq!(repl_action("\\".to_string()), ReplAction::UnknownCommand(String::new()));
    assert_eq!(repl_action("\\q ".to_string()), ReplAction::UnknownCommand("q ".to_string()));
}

#[test]
fn other_lines_are_queries() {
    assert_eq!(repl_action("SELECT * FROM t;".to_string()), ReplAction::Query("SELECT * FROM t;".to_string()));
    assert_eq!(repl_action(String::new()), ReplAction::Query(String::new()));
    assert_eq!(repl_action(" \\q".to_string()), ReplAction::Query(" \\q".to_string()));
}
