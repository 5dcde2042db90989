use completion_chat::client::{
    authorization_value, check_status, first_choice_text, status_outcome, Choice, ClientError,
    CompletionRequest, CompletionResponse,
};

fn choice(text: &str) -> Choice {
    Choice { text: text.to_string(), finish_reason: "stop".to_string(), index: 0 }
}

#[test]
fn success_statuses() {
    assert_eq!(check_status(200, "/v1/completions"), Ok(()));
    assert_eq!(check_status(204, "/v1/completions"), Ok(()));
    assert_eq!(check_status(299, "/v1/completions"), Ok(()));
}

#[test]
fn unauthorized_status_is_an_error() {
    let r = check_status(401, "/v1/completions");
    assert_eq!(
        r,
        Err(ClientError::Status {
            code: 401,
            reason: "Unauthorized".to_string(),
            path: "/v1/completions".to_string()
        })
    );
    assert_eq!(
        r.unwrap_err().message(),
        "Failed: Status: Unauthorized. Response.path(/v1/completions)"
    );
}

#[test]
fn other_failure_statuses() {
    match check_status(404, "/v1/models") {
        Err(ClientError::Status { reason, .. }) => assert_eq!(reason, "Not Found"),
        other => panic!("{:?}", other),
    }
    match check_status(500, "/") {
        Err(ClientError::Status { reason, .. }) => assert_eq!(reason, "Internal Server Error"),
        other => panic!("{:?}", other),
    }
    match check_status(199, "/") {
        Err(ClientError::Status { code, .. }) => assert_eq!(code, 199),
        other => panic!("{:?}", other),
    }
}

#[test]
fn unknown_reason() {
    match check_status(42, "/x") {
        Err(ClientError::Status { reason, .. }) => assert_eq!(reason, "Unknown Reason"),
        other => panic!("{:?}", other),
    }
    match check_status(599, "/x") {
        Err(ClientError::Status { reason, .. }) => assert_eq!(reason, "Unknown Reason"),
        other => panic!("{:?}", other),
    }
}

#[test]
fn status_outcome_uses_the_given_phrase() {
    assert_eq!(status_outcome(250, None, "/p"), Ok(()));
    assert_eq!(
        status_outcome(418, Some("Teapot".to_string()), "/p"),
        Err(ClientError::Status { code: 418, reason: "Teapot".to_string(), path: "/p".to_string() })
    );
    assert_eq!(
        status_outcome(300, None, "/p"),
        Err(ClientError::Status {
            code: 300,
            reason: "Unknown Reason".to_string(),
            path: "/p".to_string()
        })
    );
}

#[test]
fn first_choice() {
    let response = CompletionResponse {
        id: "cmpl-1".to_string(),
        object: "text_completion".to_string(),
        choices: vec![choice(" there!"), choice("other")],
    };
    assert_eq!(first_choice_text(&response), Ok(" there!".to_string()));
    let empty = CompletionResponse { id: String::new(), object: String::new(), choices: vec![] };
    assert_eq!(first_choice_text(&empty), Err(ClientError::NoChoices));
    assert_eq!(
        ClientError::NoChoices.message(),
        "Failed: the response holds no choice"
    );
}

#[test]
fn bearer_header() {
    assert_eq!(authorization_value("key-123"), "Bearer key-123");
}

#[test]
fn request_fields() {
    let r = CompletionRequest::new("Hi".to_string(), "m".to_string(), "0.9".to_string(), 5);
    assert_eq!(r.prompt, "Hi");
    assert_eq!(r.model, "m");
    assert_eq!(r.temperature, "0.9");
    assert_eq!(r.max_tokens, 5);
}
