use completion_chat::command::{interpret, is_command, Command, Input};

#[test]
fn show_parameters_command() {
    assert_eq!(interpret("> p".to_string()), Input::Command(Command::ShowParameters));
    assert_eq!(interpret(">   p  extra".to_string()), Input::Command(Command::ShowParameters));
}

#[test]
fn list_models_command() {
    assert_eq!(interpret("> md".to_string()), Input::Command(Command::ListModels));
}

#[test]
fn unknown_command_is_ignored() {
    assert_eq!(interpret("> zz".to_string()), Input::Command(Command::Other));
    assert_eq!(interpret(">  ".to_string()), Input::Command(Command::Other));
    assert_eq!(interpret("> P".to_string()), Input::Command(Command::Other));
}

#[test]
fn plain_line_is_a_prompt() {
    assert_eq!(interpret("hello".to_string()), Input::Prompt("hello".to_string()));
    assert_eq!(interpret(">p".to_string()), Input::Prompt(">p".to_string()));
    assert_eq!(interpret(">".to_string()), Input::Prompt(">".to_string()));
    assert_eq!(interpret(" > p".to_string()), Input::Prompt(" > p".to_string()));
    assert_eq!(interpret("".to_string()), Input::Prompt("".to_string()));
}

#[test]
fn command_marker() {
    assert!(is_command("> "));
    assert!(!is_command(">"));
    assert!(!is_command(">\tp"));
}
