use vstd::prelude::*;

use crate::client::{option_view, CompletionRequest};
use crate::command::{command_of, interpret, is_command_spec, Command, Input};
use crate::format::{decimal, decimal_spec, render_reply, render_spec, views};
use crate::transcript::{answer_record, answer_record_spec, question_record, question_record_spec};

verus! {

/// The settings of a session, fixed for its lifetime.
#[derive(Debug, PartialEq, Eq)]
pub struct Config {
    /// The model that completes the prompts.
    pub model: String,
    /// The most tokens that a completion may hold.
    pub max_tokens: u32,
    /// The sampling temperature, in the decimal form in which it is shown and
    /// sent.
    pub temperature: String,
}

/// Where a session stands.
#[derive(Debug, PartialEq, Eq, Structural, Clone, Copy)]
pub enum Phase {
    /// The current prompt is sent; its reply is awaited.
    AwaitingReply,
    /// A reply was shown; a line of input is awaited.
    ReadingInput,
    /// The conversation is over.
    Terminated,
}

/// The state of a conversation.
#[derive(Debug, PartialEq, Eq)]
pub struct Session {
    pub config: Config,
    /// The next text to send or, once the session has ended, the last reply.
    pub prompt: String,
    /// The last reply received.
    pub reply: String,
    /// The number shown in the label of the next line of input: it goes up
    /// with each reply shown.
    pub count: u64,
    pub phase: Phase,
}

/// What the session asks of its driver next.
#[derive(Debug, PartialEq, Eq)]
pub enum Step {
    /// Add `remember` (where there is one) to the line history, append
    /// `record` to the transcript, then send `request` and hand back the text
    /// of the reply's first choice.
    Send { remember: Option<String>, record: String, request: CompletionRequest },
    /// Append `record` to the transcript, display `lines`, then read a line of
    /// input under `label`.
    Show { record: String, lines: Vec<String>, label: String },
    /// Display `lines`, then read a line of input under `label`.
    Report { lines: Vec<String>, label: String },
    /// Fetch and display the list of models, then read a line of input under
    /// `label`.
    ListModels { label: String },
    /// Read a line of input under `label`.
    Read { label: String },
    /// The conversation is over.
    Finish,
}

/// The label of line `count` of input: its number, `>` and a space.
pub open spec fn label_spec(count: u64) -> Seq<char> {
    decimal_spec(count as nat) + seq!['>', ' ']
}

/// The line count after one more line: one more, up to the largest `u64`.
pub open spec fn next_count(count: u64) -> u64 {
    if count < u64::MAX {
        (count + 1) as u64
    } else {
        count
    }
}

/// The lines that show the settings of a session.
pub open spec fn parameter_lines_spec(config: Config) -> Seq<Seq<char>> {
    seq![
        "Temperature: "@ + config.temperature@,
        "Model: "@ + config.model@,
        "Tokens: "@ + decimal_spec(config.max_tokens as nat),
    ]
}

/// `step` sends `prompt` under `config`, and adds `remember` to the history.
pub open spec fn is_send(
    step: Step,
    prompt: Seq<char>,
    config: Config,
    remember: Option<Seq<char>>,
) -> bool {
    step matches Step::Send { remember: m, record, request } && option_view(m) == remember
        && record@ == question_record_spec(prompt) && request.prompt@ == prompt
        && request.model == config.model && request.temperature == config.temperature
        && request.max_tokens == config.max_tokens
}

/// A prompt `line` taken from `before` to `after` gives `step`: the line is
/// sent, and remembered in the history.
pub open spec fn takes_prompt(before: Session, after: Session, line: String, step: Step) -> bool {
    &&& is_send(step, line@, before.config, Some(line@))
    &&& after.phase == Phase::AwaitingReply
    &&& after.prompt@ == line@
    &&& after.count == before.count
}

/// The command `line` carried out from `before` to `after` gives `step`: its
/// action, then another line of input under the same label; the session
/// state stays as it was.
pub open spec fn runs_command(before: Session, after: Session, line: Seq<char>, step: Step) -> bool {
    &&& after == before
    &&& match command_of(line) {
        Command::ShowParameters => step matches Step::Report { lines, label } && views(lines@)
            == parameter_lines_spec(before.config) && label@ == label_spec(before.count),
        Command::ListModels => step matches Step::ListModels { label } && label@ == label_spec(
            before.count,
        ),
        Command::Other => step matches Step::Read { label } && label@ == label_spec(before.count),
    }
}

/// The label of line `count` of input.
pub fn label(count: u64) -> (r: String)
    ensures
        r@ == label_spec(count),
{
    let mut r = decimal(count);
    proof {
        reveal_strlit("> ");
    }
    r.append("> ");
    assert(r@ =~= label_spec(count));
    r
}

/// The lines that show the settings of a session.
pub fn parameter_lines(config: &Config) -> (r: Vec<String>)
    ensures
        views(r@) == parameter_lines_spec(*config),
{
    let mut t = String::from_str("Temperature: ");
    t.append(config.temperature.as_str());
    let mut m = String::from_str("Model: ");
    m.append(config.model.as_str());
    let mut k = String::from_str("Tokens: ");
    let n = decimal(config.max_tokens as u64);
    k.append(n.as_str());
    let r = vec![t, m, k];
    assert(views(r@) =~= parameter_lines_spec(*config));
    r
}

fn clone_config(config: &Config) -> (r: Config)
    ensures
        r == *config,
{
    Config {
        model: config.model.clone(),
        max_tokens: config.max_tokens,
        temperature: config.temperature.clone(),
    }
}

impl Session {
    /// A session that is to send `initial_prompt` first.
    pub fn new(config: Config, initial_prompt: String) -> (r: Session)
        ensures
            r.config == config,
            r.prompt == initial_prompt,
            r.reply@ == Seq::<char>::empty(),
            r.count == 1,
            r.phase == Phase::AwaitingReply,
    {
        Session { config, prompt: initial_prompt, reply: String::new(), count: 1, phase: Phase::AwaitingReply }
    }

    fn send_step(&self, remember: Option<String>) -> (r: Step)
        ensures
            is_send(r, self.prompt@, self.config, option_view(remember)),
    {
        let record = question_record(self.prompt.as_str());
        let config = clone_config(&self.config);
        let request = CompletionRequest::new(
            self.prompt.clone(),
            config.model,
            config.temperature,
            config.max_tokens,
        );
        Step::Send { remember, record, request }
    }

    /// The step that sends the current prompt.
    pub fn start(&self) -> (r: Step)
        ensures
            is_send(r, self.prompt@, self.config, None),
    {
        self.send_step(None)
    }

    /// Issues the label of the next line of input.
    fn next_label(&mut self) -> (r: String)
        ensures
            r@ == label_spec(old(self).count),
            final(self).count == next_count(old(self).count),
            final(self).config == old(self).config,
            final(self).prompt == old(self).prompt,
            final(self).reply == old(self).reply,
            final(self).phase == old(self).phase,
    {
        let r = label(self.count);
        self.count = self.count.saturating_add(1);
        r
    }

    /// Takes the text of the first choice of the reply to the current prompt.
    /// An empty text ends the conversation; any other is recorded, shown, and
    /// followed by a line of input.
    pub fn on_reply(&mut self, text: String) -> (r: Step)
        requires
            old(self).phase == Phase::AwaitingReply,
        ensures
            final(self).config == old(self).config,
            final(self).reply == text,
            text@.len() == 0 ==> {
                &&& r is Finish
                &&& final(self).phase == Phase::Terminated
                &&& final(self).prompt == text
                &&& final(self).count == old(self).count
            },
            text@.len() > 0 ==> {
                &&& r matches Step::Show { record, lines, label }
                &&& record@ == answer_record_spec(text@)
                &&& views(lines@) == render_spec(text@)
                &&& label@ == label_spec(old(self).count)
                &&& final(self).phase == Phase::ReadingInput
                &&& final(self).prompt == old(self).prompt
                &&& final(self).count == next_count(old(self).count)
            },
    {
        if text.as_str().is_empty() {
            self.prompt = text.clone();
            self.reply = text;
            self.phase = Phase::Terminated;
            return Step::Finish;
        }
        let record = answer_record(text.as_str());
        let lines = render_reply(text.as_str());
        let label = self.next_label();
        self.reply = text;
        self.phase = Phase::ReadingInput;
        Step::Show { record, lines, label }
    }

    /// Takes a line of input, or `None` at the end of input or on an
    /// interrupt. The end of input ends the conversation, with the last reply
    /// as its final prompt; a command is carried out and another line read; any
    /// other line becomes the next prompt.
    pub fn on_line(&mut self, line: Option<String>) -> (r: Step)
        requires
            old(self).phase == Phase::ReadingInput,
        ensures
            final(self).config == old(self).config,
            final(self).reply == old(self).reply,
            line is None ==> {
                &&& r is Finish
                &&& final(self).phase == Phase::Terminated
                &&& final(self).prompt == old(self).reply
                &&& final(self).count == old(self).count
            },
            line is Some && !is_command_spec(line->0@) ==> takes_prompt(
                *old(self),
                *final(self),
                line->0,
                r,
            ),
            line is Some && is_command_spec(line->0@) ==> runs_command(
                *old(self),
                *final(self),
                line->0@,
                r,
            ),
    {
        match line {
            None => {
                self.prompt = self.reply.clone();
                self.phase = Phase::Terminated;
                Step::Finish
            },
            Some(l) => match interpret(l) {
                Input::Prompt(p) => {
                    self.prompt = p.clone();
                    self.phase = Phase::AwaitingReply;
                    self.send_step(Some(p))
                },
                Input::Command(Command::ShowParameters) => {
                    let lines = parameter_lines(&self.config);
                    let label = label(self.count);
                    Step::Report { lines, label }
                },
                Input::Command(Command::ListModels) => {
                    let label = label(self.count);
                    Step::ListModels { label }
                },
                Input::Command(Command::Other) => {
                    let label = label(self.count);
                    Step::Read { label }
                },
            },
        }
    }
}

} // verus!
