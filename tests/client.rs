use aido::exchange::{
    explain_command, get_command, login, register, Action, Operation, Phase,
};
use aido::intro::{registration_intro, welcome_text, WRAP_WIDTH};
use aido::model::{ApiError, ApiResult, Payload, PayloadKind, RegistrationFieldErrors, Success};
use aido::report::{
    clipboard_text, report, CONFIRM_TEXT, LOGGED_IN_TEXT, QUOTA_TEXT, REGISTERED_TEXT,
    REGISTRATION_PROBLEMS_TEXT,
};
use aido::request::{explain_request, login_request, lookup_request, register_request};
use aido::session::{logout, on_token_removed, token_file_text, LogoutStep};

fn answer(result: &str, message: &str) -> ApiResult {
    ApiResult { result: result.to_string(), message: message.to_string() }
}

#[test]
fn register_request_has_password_twice() {
    let r = register_request("http://127.0.0.1:8000", "a@b.c", "pw");
    assert_eq!(r.url, "http://127.0.0.1:8000/auth/users/");
    assert_eq!(r.body, r#"{"email":"a@b.c","password":"pw","password_re":"pw"}"#);
    assert_eq!(r.authorization, None);
}

#[test]
fn login_request_body_and_url() {
    let r = login_request("https://getaido.app", "a@b.c", "p\"w");
    assert_eq!(r.url, "https://getaido.app/auth/token/login/");
    assert_eq!(r.body, r#"{"email":"a@b.c","password":"p\"w"}"#);
    assert_eq!(r.authorization, None);
}

#[test]
fn lookup_request_carries_token() {
    let r = lookup_request("http://h", "list files", "0.1.0", Some("abc123"));
    assert_eq!(r.url, "http://h/api/1/command/");
    assert_eq!(r.body, r#"{"description":"list files","version":"0.1.0"}"#);
    assert_eq!(r.authorization, Some("Token abc123".to_string()));
}

#[test]
fn explain_request_without_token() {
    let r = explain_request("http://h", "ls -la", "0.1.0", None);
    assert_eq!(r.url, "http://h/api/1/explain/");
    assert_eq!(r.body, r#"{"command":"ls -la","version":"0.1.0"}"#);
    assert_eq!(r.authorization, None);
}

#[test]
fn login_with_token_stores_exactly_it() {
    let mut x = login("a@b.c", "pw", "http://h");
    assert_eq!(x.phase(), Phase::Requesting);
    assert_eq!(x.on_status(200), Action::ReadBody(PayloadKind::Token));
    assert_eq!(x.phase(), Phase::ReadingBody);
    let token = "9944b09199c62bcf9418ad846dd0e4bbdfc6ee4b".to_string();
    assert_eq!(x.on_body(Some(Payload::Token(token.clone()))), Action::SaveToken(token.clone()));
    assert_eq!(x.phase(), Phase::Saving);
    let text = token_file_text(&token);
    assert_eq!(text.as_bytes(), token.as_bytes());
    assert_eq!(x.on_saved(true), Action::Finish(Ok(Success::LoggedIn)));
    assert_eq!(x.phase(), Phase::Done);
    assert_eq!(report(Operation::Login, &Ok(Success::LoggedIn)), vec![LOGGED_IN_TEXT]);
}

#[test]
fn login_save_failure_is_storage_error() {
    let mut x = login("a@b.c", "pw", "http://h");
    x.on_status(200);
    x.on_body(Some(Payload::Token("abc".to_string())));
    assert_eq!(x.on_saved(false), Action::Finish(Err(ApiError::StorageError)));
}

#[test]
fn login_bad_request_is_auth_failure() {
    let mut x = login("a@b.c", "wrong", "http://h");
    assert_eq!(x.on_status(400), Action::Finish(Err(ApiError::AuthFailure)));
    assert_eq!(
        report(Operation::Login, &Err(ApiError::AuthFailure)),
        vec!["Email and/or password incorrect."]
    );
}

#[test]
fn login_stores_any_issued_token() {
    for token in ["two words", "", "clé"] {
        let mut x = login("a@b.c", "pw", "http://h");
        x.on_status(200);
        assert_eq!(
            x.on_body(Some(Payload::Token(token.to_string()))),
            Action::SaveToken(token.to_string())
        );
        assert_eq!(x.on_saved(false), Action::Finish(Err(ApiError::StorageError)));
    }
}

#[test]
fn login_wrong_body_is_unexpected_shape() {
    let mut y = login("a@b.c", "pw", "http://h");
    y.on_status(200);
    assert_eq!(y.on_body(None), Action::Finish(Err(ApiError::UnexpectedResponseShape)));
}

#[test]
fn login_other_status_is_server_error() {
    let mut x = login("a@b.c", "pw", "http://h");
    assert_eq!(x.on_status(500), Action::Finish(Err(ApiError::ServerError(500))));
    assert_eq!(report(Operation::Login, &Err(ApiError::ServerError(500))), vec!["Unexpected error."]);
}

#[test]
fn logout_without_file_succeeds() {
    assert_eq!(logout(false), LogoutStep::Finished(Ok(())));
    assert_eq!(logout(true), LogoutStep::RemoveFile);
    assert_eq!(on_token_removed(true), Ok(()));
    assert_eq!(logout(false), LogoutStep::Finished(Ok(())));
}

#[test]
fn logout_removal_failure_is_storage_error() {
    assert_eq!(on_token_removed(false), Err(ApiError::StorageError));
}

#[test]
fn registration_email_taken() {
    let mut x = register("a@b.c", "pw", "http://h");
    assert_eq!(x.on_status(400), Action::ReadBody(PayloadKind::FieldErrors));
    let errors = RegistrationFieldErrors {
        email: Some(vec!["already taken".to_string()]),
        password: None,
    };
    let action = x.on_body(Some(Payload::FieldErrors(errors)));
    let outcome = match action {
        Action::Finish(o) => o,
        other => panic!("unexpected action {:?}", other),
    };
    match &outcome {
        Err(ApiError::ValidationFailure(e)) => {
            assert_eq!(e.email.as_ref().map(|v| v.len()), Some(1));
            assert_eq!(e.email.as_ref().unwrap()[0], "already taken");
            assert!(e.password.is_none());
        }
        other => panic!("unexpected outcome {:?}", other),
    }
    assert_eq!(
        report(Operation::Register, &outcome),
        vec!["", REGISTRATION_PROBLEMS_TEXT, "- already taken", ""]
    );
}

#[test]
fn registration_reports_all_messages_in_order() {
    let errors = RegistrationFieldErrors {
        email: Some(vec!["invalid".to_string(), "too long".to_string()]),
        password: Some(vec!["too short".to_string()]),
    };
    assert_eq!(
        report(Operation::Register, &Err(ApiError::ValidationFailure(errors))),
        vec!["", REGISTRATION_PROBLEMS_TEXT, "- invalid", "", "- too long", "", "- too short", ""]
    );
}

#[test]
fn registration_created_and_other() {
    let mut x = register("a@b.c", "pw", "http://h");
    assert_eq!(x.on_status(201), Action::Finish(Ok(Success::Registered)));
    assert_eq!(
        report(Operation::Register, &Ok(Success::Registered)),
        vec![REGISTERED_TEXT, CONFIRM_TEXT]
    );
    let mut y = register("a@b.c", "pw", "http://h");
    assert_eq!(y.on_status(200), Action::Finish(Err(ApiError::ServerError(200))));
    let mut z = register("a@b.c", "pw", "http://h");
    z.on_status(400);
    assert_eq!(z.on_body(None), Action::Finish(Err(ApiError::UnexpectedResponseShape)));
}

#[test]
fn lookup_answer_with_empty_message() {
    let mut x = get_command("list files", "http://h", "0.1.0", Some("abc"));
    assert_eq!(x.on_status(200), Action::ReadBody(PayloadKind::Answer));
    let action = x.on_body(Some(Payload::Answer(answer("ls -la", ""))));
    assert_eq!(action, Action::Finish(Ok(Success::Answer(answer("ls -la", "")))));
    assert_eq!(report(Operation::Lookup, &Ok(Success::Answer(answer("ls -la", "")))), vec!["ls -la"]);
}

#[test]
fn lookup_answer_with_message() {
    let outcome = Ok(Success::Answer(answer("ls -la", "3 requests left")));
    assert_eq!(report(Operation::Lookup, &outcome), vec!["ls -la", "3 requests left"]);
}

#[test]
fn lookup_unauthorized_ignores_body() {
    let mut x = get_command("list files", "http://h", "0.1.0", None);
    assert_eq!(x.on_status(401), Action::Finish(Err(ApiError::AuthFailure)));
    assert_eq!(x.phase(), Phase::Done);
    assert_eq!(
        report(Operation::Lookup, &Err(ApiError::AuthFailure)),
        vec!["Unauthorized request, please visit http://getaido.app for more info."]
    );
}

#[test]
fn lookup_too_many_requests_is_quota() {
    let mut x = get_command("list files", "http://h", "0.1.0", None);
    assert_eq!(x.on_status(429), Action::Finish(Err(ApiError::QuotaExceeded)));
    assert_eq!(x.phase(), Phase::Done);
    assert_eq!(report(Operation::Lookup, &Err(ApiError::QuotaExceeded)), vec!["", "", QUOTA_TEXT, ""]);
    let printed: String = report(Operation::Lookup, &Err(ApiError::QuotaExceeded))
        .iter()
        .map(|l| format!("{}\n", l))
        .collect();
    assert_eq!(
        printed,
        "\n\nNo free requests left! Please visit http://getaido.app for more info.\n\n"
    );
}

#[test]
fn lookup_server_error_reports_status() {
    let mut x = get_command("list files", "http://h", "0.1.0", None);
    assert_eq!(x.on_status(503), Action::Finish(Err(ApiError::ServerError(503))));
    assert_eq!(
        report(Operation::Lookup, &Err(ApiError::ServerError(503))),
        vec!["Uh oh! Looks like we have problems with our server: 503"]
    );
}

#[test]
fn lookup_wrong_shape() {
    let mut x = get_command("list files", "http://h", "0.1.0", None);
    x.on_status(200);
    assert_eq!(x.on_body(None), Action::Finish(Err(ApiError::UnexpectedResponseShape)));
    assert_eq!(
        report(Operation::Lookup, &Err(ApiError::UnexpectedResponseShape)),
        vec!["Hm, the response didn't match the shape we expected."]
    );
}

#[test]
fn explain_flow() {
    let mut x = explain_command("ls -la", "http://h", "0.1.0", None);
    assert_eq!(x.operation(), Operation::Explain);
    assert_eq!(x.request().url, "http://h/api/1/explain/");
    assert_eq!(x.on_status(200), Action::ReadBody(PayloadKind::Answer));
    assert_eq!(
        x.on_body(Some(Payload::Answer(answer("lists all files", "")))),
        Action::Finish(Ok(Success::Answer(answer("lists all files", ""))))
    );
    let mut y = explain_command("ls -la", "http://h", "0.1.0", None);
    assert_eq!(y.on_status(401), Action::Finish(Err(ApiError::AuthFailure)));
    let mut z = explain_command("ls -la", "http://h", "0.1.0", None);
    assert_eq!(z.on_status(429), Action::Finish(Err(ApiError::QuotaExceeded)));
}

#[test]
fn transport_failure_is_distinct() {
    let mut x = get_command("list files", "http://h", "0.1.0", None);
    assert_eq!(x.on_transport_failure(), Action::Finish(Err(ApiError::TransportFailure)));
    assert_eq!(x.phase(), Phase::Done);
}

#[test]
fn token_file_round_trip() {
    let token = "0123456789abcdef";
    let text = token_file_text(token);
    assert_eq!(text.as_bytes(), token.as_bytes());
}

#[test]
fn server_error_status_digits() {
    for (status, digits) in [(0u16, "0"), (7, "7"), (404, "404"), (65535, "65535")] {
        assert_eq!(
            report(Operation::Explain, &Err(ApiError::ServerError(status))),
            vec![format!("Uh oh! Looks like we have problems with our server: {}", digits)]
        );
    }
}

#[test]
fn clipboard_only_for_requested_lookup_answers() {
    let ok = Ok(Success::Answer(answer("ls -la", "")));
    assert_eq!(clipboard_text(Operation::Lookup, true, &ok), Some("ls -la".to_string()));
    assert_eq!(clipboard_text(Operation::Lookup, false, &ok), None);
    assert_eq!(clipboard_text(Operation::Explain, true, &ok), None);
    assert_eq!(clipboard_text(Operation::Lookup, true, &Err(ApiError::QuotaExceeded)), None);
}

#[test]
fn welcome_text_is_dedented_and_wrapped() {
    let text = welcome_text();
    assert!(text.contains("Welcome to aido!"));
    assert!(!text.lines().any(|l| l.starts_with("    ")));
    assert!(text.lines().all(|l| l.chars().count() <= WRAP_WIDTH));
    assert!(text.lines().count() > 10);
}

#[test]
fn registration_intro_is_wrapped() {
    let lines = registration_intro();
    assert_eq!(lines.len(), 2);
    assert!(lines[1].contains('\n'));
    assert!(lines.iter().all(|p| p.lines().all(|l| l.chars().count() <= WRAP_WIDTH)));
}
