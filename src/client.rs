use vstd::prelude::*;

verus! {

/// A request to the completion service.
#[derive(Debug, Clone, PartialEq, Eq)]
pub struct CompletionRequest {
    pub prompt: String,
    pub model: String,
    /// The sampling temperature, in the decimal form in which it is sent.
    pub temperature: String,
    pub max_tokens: u32,
}

impl CompletionRequest {
    /// A request for a completion of `prompt`.
    pub fn new(prompt: String, model: String, temperature: String, max_tokens: u32) -> (r: Self)
        ensures
            r.prompt == prompt,
            r.model == model,
            r.temperature == temperature,
            r.max_tokens == max_tokens,
    {
        CompletionRequest { prompt, model, temperature, max_tokens }
    }
}

/// One candidate completion of a response.
#[derive(Debug, Clone, PartialEq, Eq)]
pub struct Choice {
    pub text: String,
    pub finish_reason: String,
    pub index: i32,
}

/// A response of the completion service.
#[derive(Debug, Clone, PartialEq, Eq)]
pub struct CompletionResponse {
    pub id: String,
    pub object: String,
    pub choices: Vec<Choice>,
}

/// Why an exchange with the service failed.
#[derive(Debug, Clone, PartialEq, Eq)]
pub enum ClientError {
    /// The service answered with a status other than success.
    Status { code: u16, reason: String, path: String },
    /// The response holds no choice.
    NoChoices,
}

/// The message that reports `e`.
pub open spec fn message_spec(e: ClientError) -> Seq<char> {
    match e {
        ClientError::Status { reason, path, .. } => "Failed: Status: "@ + reason@
            + ". Response.path("@ + path@ + ")"@,
        ClientError::NoChoices => "Failed: the response holds no choice"@,
    }
}

impl ClientError {
    /// The message that reports the error.
    pub fn message(&self) -> (r: String)
        ensures
            r@ == message_spec(*self),
    {
        match self {
            ClientError::Status { reason, path, .. } => {
                let mut r = String::from_str("Failed: Status: ");
                r.append(reason.as_str());
                r.append(". Response.path(");
                r.append(path.as_str());
                r.append(")");
                r
            },
            ClientError::NoChoices => String::from_str("Failed: the response holds no choice"),
        }
    }
}

/// Whether `code` is a success status: one of the 200 class.
pub open spec fn is_success(code: u16) -> bool {
    200 <= code <= 299
}

/// The reason phrase that the HTTP standard gives status `code`, where it
/// names one.
pub uninterp spec fn canonical_reason(code: u16) -> Option<Seq<char>>;

/// Relies on `reqwest::StatusCode` (the `StatusCode` of the http crate):
/// `from_u16` refuses codes outside 100..=999, and `canonical_reason` looks up
/// the standard reason phrase of a code.
#[verifier::external_body]
fn reason_phrase(code: u16) -> (r: Option<String>)
    ensures
        match r {
            Some(p) => canonical_reason(code) == Some(p@),
            None => canonical_reason(code) is None,
        },
        code < 100 || code > 999 ==> r is None,
{
    match reqwest::StatusCode::from_u16(code) {
        Ok(status) => match status.canonical_reason() {
            Some(p) => Some(p.to_string()),
            None => None,
        },
        Err(_) => None,
    }
}

/// The reason shown for a status: its phrase, or `Unknown Reason`.
pub open spec fn reason_text(phrase: Option<Seq<char>>) -> Seq<char> {
    match phrase {
        Some(p) => p,
        None => "Unknown Reason"@,
    }
}

/// The view of an optional string.
pub open spec fn option_view(o: Option<String>) -> Option<Seq<char>> {
    match o {
        Some(s) => Some(s@),
        None => None,
    }
}

/// What an answer with status `code`, whose reason phrase is `phrase`, means
/// for a request to `path`: success for the 200 class, else the error that
/// carries the reason and the path.
pub fn status_outcome(code: u16, phrase: Option<String>, path: &str) -> (r: Result<(), ClientError>)
    ensures
        is_success(code) <==> r is Ok,
        !is_success(code) ==> (r matches Err(ClientError::Status { code: c, reason, path: p })
            && c == code && reason@ == reason_text(option_view(phrase)) && p@ == path@),
{
    if 200 <= code && code <= 299 {
        Ok(())
    } else {
        let reason = match phrase {
            Some(p) => p,
            None => String::from_str("Unknown Reason"),
        };
        Err(ClientError::Status { code, reason, path: path.to_owned() })
    }
}

/// Checks the status of an answer to a request to `path`.
pub fn check_status(code: u16, path: &str) -> (r: Result<(), ClientError>)
    ensures
        is_success(code) <==> r is Ok,
        !is_success(code) ==> (r matches Err(ClientError::Status { code: c, reason, path: p })
            && c == code && reason@ == reason_text(canonical_reason(code)) && p@ == path@),
{
    let phrase = reason_phrase(code);
    status_outcome(code, phrase, path)
}

/// The text of the first choice of a response.
pub fn first_choice_text(response: &CompletionResponse) -> (r: Result<String, ClientError>)
    ensures
        response.choices@.len() > 0 <==> r is Ok,
        r matches Ok(t) ==> t == response.choices@[0].text,
        r matches Err(e) ==> e is NoChoices,
{
    if response.choices.len() > 0 {
        Ok(response.choices[0].text.clone())
    } else {
        Err(ClientError::NoChoices)
    }
}

/// The value of the `Authorization` header that carries `credential`.
pub fn authorization_value(credential: &str) -> (r: String)
    ensures
        r@ == seq!['B', 'e', 'a', 'r', 'e', 'r', ' '] + credential@,
{
    proof {
        reveal_strlit("Bearer ");
    }
    let mut r = String::from_str("Bearer ");
    r.append(credential);
    r
}

} // verus!
