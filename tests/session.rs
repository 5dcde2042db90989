use completion_chat::client::{check_status, ClientError, CompletionRequest};
use completion_chat::session::{label, parameter_lines, Config, Phase, Session, Step};

fn config() -> Config {
    Config {
        model: "text-davinci-003".to_string(),
        max_tokens: 5,
        temperature: "0.9".to_string(),
    }
}

fn request(prompt: &str) -> CompletionRequest {
    CompletionRequest::new(prompt.to_string(), "text-davinci-003".to_string(), "0.9".to_string(), 5)
}

/// A session that has shown the reply " there!" to the prompt "Hi".
fn reading_session() -> Session {
    let mut s = Session::new(config(), "Hi".to_string());
    s.on_reply(" there!".to_string());
    s
}

#[test]
fn first_exchange_records_and_shows_the_reply() {
    let mut s = Session::new(config(), "Hi".to_string());
    assert_eq!(s.phase, Phase::AwaitingReply);
    assert_eq!(
        s.start(),
        Step::Send { remember: None, record: "Q: Hi\n".to_string(), request: request("Hi") }
    );
    let step = s.on_reply(" there!".to_string());
    assert_eq!(
        step,
        Step::Show {
            record: "A: there!\n".to_string(),
            lines: vec!["there!".to_string()],
            label: "1> ".to_string()
        }
    );
    assert_eq!(s.phase, Phase::ReadingInput);
    assert_eq!(s.prompt, "Hi");
    assert_eq!(s.count, 2);
}

#[test]
fn empty_reply_ends_the_conversation() {
    let mut s = Session::new(config(), "Hi".to_string());
    let step = s.on_reply(String::new());
    assert_eq!(step, Step::Finish);
    assert_eq!(s.phase, Phase::Terminated);
    assert_eq!(s.prompt, "");
    assert_eq!(s.count, 1);
}

#[test]
fn empty_reply_after_an_exchange_ends_without_more_records() {
    let mut s = reading_session();
    let step = s.on_line(Some("Tell me more".to_string()));
    assert_eq!(
        step,
        Step::Send {
            remember: Some("Tell me more".to_string()),
            record: "Q: Tell me more\n".to_string(),
            request: request("Tell me more")
        }
    );
    assert_eq!(s.on_reply(String::new()), Step::Finish);
    assert_eq!(s.phase, Phase::Terminated);
}

#[test]
fn show_parameters_keeps_the_state() {
    let mut s = reading_session();
    let step = s.on_line(Some("> p".to_string()));
    assert_eq!(
        step,
        Step::Report {
            lines: vec![
                "Temperature: 0.9".to_string(),
                "Model: text-davinci-003".to_string(),
                "Tokens: 5".to_string()
            ],
            label: "2> ".to_string()
        }
    );
    assert_eq!(s.phase, Phase::ReadingInput);
    assert_eq!(s.prompt, "Hi");
    assert_eq!(s.reply, " there!");
    assert_eq!(s.count, 2);
    assert_eq!(s.config, config());
}

#[test]
fn unknown_command_reads_another_line() {
    let mut s = reading_session();
    assert_eq!(s.on_line(Some("> zz".to_string())), Step::Read { label: "2> ".to_string() });
    assert_eq!(s.phase, Phase::ReadingInput);
    assert_eq!(s.prompt, "Hi");
    assert_eq!(s.count, 2);
}

#[test]
fn list_models_command_reads_another_line() {
    let mut s = reading_session();
    assert_eq!(s.on_line(Some("> md".to_string())), Step::ListModels { label: "2> ".to_string() });
    assert_eq!(s.prompt, "Hi");
    assert_eq!(s.on_line(Some("> p".to_string())).clone_label(), Some("2> ".to_string()));
    assert_eq!(s.count, 2);
}

trait LabelOf {
    fn clone_label(&self) -> Option<String>;
}

impl LabelOf for Step {
    fn clone_label(&self) -> Option<String> {
        match self {
            Step::Show { label, .. }
            | Step::Report { label, .. }
            | Step::ListModels { label }
            | Step::Read { label } => Some(label.clone()),
            _ => None,
        }
    }
}

#[test]
fn plain_line_becomes_the_next_prompt() {
    let mut s = reading_session();
    let step = s.on_line(Some("hello".to_string()));
    assert_eq!(
        step,
        Step::Send {
            remember: Some("hello".to_string()),
            record: "Q: hello\n".to_string(),
            request: request("hello")
        }
    );
    assert_eq!(s.prompt, "hello");
    assert_eq!(s.phase, Phase::AwaitingReply);
}

#[test]
fn end_of_input_keeps_the_last_reply() {
    let mut s = reading_session();
    assert_eq!(s.on_line(None), Step::Finish);
    assert_eq!(s.phase, Phase::Terminated);
    assert_eq!(s.prompt, " there!");
}

#[test]
fn failed_request_leaves_only_the_question() {
    let s = Session::new(config(), "Hi".to_string());
    let mut transcript = String::new();
    if let Step::Send { record, .. } = s.start() {
        transcript.push_str(&record);
    }
    let outcome = check_status(401, "/v1/completions");
    assert!(matches!(outcome, Err(ClientError::Status { code: 401, .. })));
    assert_eq!(transcript, "Q: Hi\n");
    assert_eq!(s.phase, Phase::AwaitingReply);
}

#[test]
fn labels_count_replies_not_commands() {
    let mut s = reading_session();
    s.on_line(Some("> zz".to_string()));
    s.on_line(Some("> p".to_string()));
    assert_eq!(s.on_line(Some("> zz".to_string())), Step::Read { label: "2> ".to_string() });
    s.on_line(Some("next".to_string()));
    match s.on_reply("again".to_string()) {
        Step::Show { label, .. } => assert_eq!(label, "2> "),
        other => panic!("{:?}", other),
    }
    assert_eq!(s.on_line(Some("> zz".to_string())), Step::Read { label: "3> ".to_string() });
    assert_eq!(label(12), "12> ");
}

#[test]
fn line_count_saturates() {
    let mut s = Session::new(config(), "Hi".to_string());
    s.count = u64::MAX;
    match s.on_reply("x".to_string()) {
        Step::Show { label, .. } => assert_eq!(label, format!("{}> ", u64::MAX)),
        other => panic!("{:?}", other),
    }
    assert_eq!(s.count, u64::MAX);
}

#[test]
fn long_reply_is_wrapped_for_display() {
    let mut s = Session::new(config(), "Hi".to_string());
    let reply = format!("\n\n{}\nBye.", "lorem ipsum ".repeat(10));
    match s.on_reply(reply) {
        Step::Show { record, lines, .. } => {
            assert!(record.starts_with("A: lorem ipsum"));
            assert_eq!(lines.len(), 4);
            assert_eq!(lines[0], "");
            assert_eq!(lines[1], "");
            assert_eq!(
                lines[2],
                "lorem ipsum lorem ipsum lorem ipsum lorem ipsum lorem ipsum lorem ipsum lorem\n\
                 ipsum lorem ipsum lorem ipsum lorem ipsum"
            );
            assert_eq!(lines[3], "Bye.");
        }
        other => panic!("{:?}", other),
    }
}

#[test]
fn parameter_lines_show_the_config() {
    let mut c = config();
    c.max_tokens = 2000;
    assert_eq!(parameter_lines(&c)[2], "Tokens: 2000");
}
