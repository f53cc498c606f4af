//! The lines shown to the user at the end of an operation.
use vstd::prelude::*;
use crate::exchange::Operation;
use crate::model::{ApiError, ApiResult, Outcome, Success};

verus! {

pub const REGISTERED_TEXT: &'static str =
    "Successfully registered, please check your inbox to confirm your email!";

pub const CONFIRM_TEXT: &'static str =
    "After confirming your email address you can login to your account by typing `aido login` and you'll get 20 free requests per day.";

pub const REGISTRATION_PROBLEMS_TEXT: &'static str =
    "There were some problems with the registration:";

pub const LOGGED_IN_TEXT: &'static str = "Successfully authenticated!";

pub const BAD_CREDENTIALS_TEXT: &'static str = "Email and/or password incorrect.";

pub const UNAUTHORIZED_TEXT: &'static str =
    "Unauthorized request, please visit http://getaido.app for more info.";

pub const QUOTA_TEXT: &'static str =
    "No free requests left! Please visit http://getaido.app for more info.";

pub const SERVER_PROBLEM_TEXT: &'static str =
    "Uh oh! Looks like we have problems with our server: ";

pub const UNEXPECTED_ERROR_TEXT: &'static str = "Unexpected error.";

pub const UPDATE_HINT_TEXT: &'static str =
    "There was an unexpected error, maybe you need to update aido.";

pub const SHAPE_TEXT: &'static str = "Hm, the response didn't match the shape we expected.";

pub const TRANSPORT_TEXT: &'static str =
    "Could not reach the server, please check your connection.";

pub const STORAGE_TEXT: &'static str =
    "The credential could not be stored or removed, please check the permissions of ~/.aido.";

/// Prefix of each listed registration problem.
pub const BULLET: &'static str = "- ";

/// The character of the decimal digit `d`.
pub open spec fn digit_char(d: int) -> char {
    seq!['0', '1', '2', '3', '4', '5', '6', '7', '8', '9'][d]
}

/// The decimal digits of `n`, without sign or padding.
pub open spec fn decimal(n: nat) -> Seq<char>
    decreases n,
{
    if n < 10 {
        seq![digit_char(n as int)]
    } else {
        decimal(n / 10).push(digit_char((n % 10) as int))
    }
}

/// The text of the decimal digit `d`.
fn digit_str(d: u16) -> (r: &'static str)
    requires
        d < 10,
    ensures
        r@ == seq![digit_char(d as int)],
{
    proof {
        reveal_strlit("0");
        reveal_strlit("1");
        reveal_strlit("2");
        reveal_strlit("3");
        reveal_strlit("4");
        reveal_strlit("5");
        reveal_strlit("6");
        reveal_strlit("7");
        reveal_strlit("8");
        reveal_strlit("9");
    }
    if d == 0 {
        "0"
    } else if d == 1 {
        "1"
    } else if d == 2 {
        "2"
    } else if d == 3 {
        "3"
    } else if d == 4 {
        "4"
    } else if d == 5 {
        "5"
    } else if d == 6 {
        "6"
    } else if d == 7 {
        "7"
    } else if d == 8 {
        "8"
    } else {
        "9"
    }
}

/// The decimal digits of `n`.
fn decimal_text(n: u16) -> (r: String)
    ensures
        r@ == decimal(n as nat),
    decreases n,
{
    if n < 10 {
        String::from_str(digit_str(n))
    } else {
        let r = decimal_text(n / 10).concat(digit_str(n % 10));
        assert(r@ =~= decimal(n as nat));
        r
    }
}

/// The texts of a list of lines.
pub open spec fn lines_view(lines: Seq<String>) -> Seq<Seq<char>> {
    lines.map_values(|s: String| s@)
}

/// For each message in order, a bulleted line and an empty line.
pub open spec fn bullet_lines(messages: Seq<String>) -> Seq<Seq<char>>
    decreases messages.len(),
{
    if messages.len() == 0 {
        seq![]
    } else {
        bullet_lines(messages.drop_last()) + seq![BULLET@ + messages.last()@, seq![]]
    }
}

/// The bulleted lines of an optional list of messages.
pub open spec fn bullets(messages: Option<Vec<String>>) -> Seq<Seq<char>> {
    match messages {
        Some(v) => bullet_lines(v@),
        None => seq![],
    }
}

/// An answer: its result, then its advisory message unless that is empty.
pub open spec fn answer_lines(a: ApiResult) -> Seq<Seq<char>> {
    if a.message@.len() == 0 {
        seq![a.result@]
    } else {
        seq![a.result@, a.message@]
    }
}

/// What to show at the end of `op` for `outcome`.
pub open spec fn report_lines(op: Operation, outcome: Outcome) -> Seq<Seq<char>> {
    match outcome {
        Ok(Success::Registered) => seq![REGISTERED_TEXT@, CONFIRM_TEXT@],
        Ok(Success::LoggedIn) => seq![LOGGED_IN_TEXT@],
        Ok(Success::Answer(a)) => answer_lines(a),
        Err(ApiError::TransportFailure) => seq![TRANSPORT_TEXT@],
        Err(ApiError::ValidationFailure(e)) => seq![seq![], REGISTRATION_PROBLEMS_TEXT@] + bullets(
            e.email,
        ) + bullets(e.password),
        Err(ApiError::AuthFailure) => if op == Operation::Login {
            seq![BAD_CREDENTIALS_TEXT@]
        } else {
            seq![UNAUTHORIZED_TEXT@]
        },
        Err(ApiError::QuotaExceeded) => seq![seq![], seq![], QUOTA_TEXT@, seq![]],
        Err(ApiError::UnexpectedResponseShape) => if op == Operation::Lookup {
            seq![SHAPE_TEXT@]
        } else {
            seq![UPDATE_HINT_TEXT@]
        },
        Err(ApiError::ServerError(status)) => if op == Operation::Lookup || op
            == Operation::Explain {
            seq![SERVER_PROBLEM_TEXT@ + decimal(status as nat)]
        } else {
            seq![UNEXPECTED_ERROR_TEXT@]
        },
        Err(ApiError::StorageError) => seq![STORAGE_TEXT@],
    }
}

fn push_bullets(lines: &mut Vec<String>, messages: &Option<Vec<String>>)
    ensures
        lines_view(final(lines)@) == lines_view(old(lines)@) + bullets(*messages),
{
    match messages {
        Some(v) => {
            let ghost start = lines@;
            let mut i: usize = 0;
            while i < v.len()
                invariant
                    i <= v@.len(),
                    lines_view(lines@) == lines_view(start) + bullet_lines(v@.take(i as int)),
                decreases v@.len() - i,
            {
                let line = String::from_str(BULLET).concat(v[i].as_str());
                let ghost prev = lines@;
                let ghost text = line@;
                lines.push(line);
                lines.push(String::new());
                proof {
                    assert(v@.take(i + 1).drop_last() =~= v@.take(i as int));
                    assert(lines_view(lines@) =~= lines_view(prev) + seq![text, seq![]]);
                    assert(lines_view(lines@) =~= lines_view(start) + bullet_lines(
                        v@.take(i + 1),
                    ));
                }
                i = i + 1;
            }
            proof {
                assert(v@.take(v@.len() as int) =~= v@);
            }
        },
        None => {
            assert(lines_view(lines@) + bullets(*messages) =~= lines_view(lines@));
        },
    }
}

fn single(text: &str) -> (r: Vec<String>)
    ensures
        lines_view(r@) == seq![text@],
{
    let r = vec![String::from_str(text)];
    assert(lines_view(r@) =~= seq![text@]);
    r
}

/// The lines to show at the end of `op` for `outcome`.
pub fn report(op: Operation, outcome: &Outcome) -> (r: Vec<String>)
    ensures
        lines_view(r@) == report_lines(op, *outcome),
{
    match outcome {
        Ok(Success::Registered) => {
            let r = vec![String::from_str(REGISTERED_TEXT), String::from_str(CONFIRM_TEXT)];
            assert(lines_view(r@) =~= report_lines(op, *outcome));
            r
        },
        Ok(Success::LoggedIn) => single(LOGGED_IN_TEXT),
        Ok(Success::Answer(a)) => {
            let mut r = vec![a.result.clone()];
            if a.message.as_str().is_empty() {
                assert(lines_view(r@) =~= answer_lines(*a));
            } else {
                r.push(a.message.clone());
                assert(lines_view(r@) =~= answer_lines(*a));
            }
            r
        },
        Err(ApiError::TransportFailure) => single(TRANSPORT_TEXT),
        Err(ApiError::ValidationFailure(e)) => {
            let mut r = vec![String::new(), String::from_str(REGISTRATION_PROBLEMS_TEXT)];
            assert(lines_view(r@) =~= seq![seq![], REGISTRATION_PROBLEMS_TEXT@]);
            push_bullets(&mut r, &e.email);
            push_bullets(&mut r, &e.password);
            r
        },
        Err(ApiError::AuthFailure) => if op == Operation::Login {
            single(BAD_CREDENTIALS_TEXT)
        } else {
            single(UNAUTHORIZED_TEXT)
        },
        Err(ApiError::QuotaExceeded) => {
            let r = vec![String::new(), String::new(), String::from_str(QUOTA_TEXT), String::new()];
            assert(lines_view(r@) =~= report_lines(op, *outcome));
            r
        },
        Err(ApiError::UnexpectedResponseShape) => if op == Operation::Lookup {
            single(SHAPE_TEXT)
        } else {
            single(UPDATE_HINT_TEXT)
        },
        Err(ApiError::ServerError(status)) => if op == Operation::Lookup || op
            == Operation::Explain {
            let r = vec![String::from_str(SERVER_PROBLEM_TEXT).concat(decimal_text(*status).as_str())];
            assert(lines_view(r@) =~= report_lines(op, *outcome));
            r
        } else {
            single(UNEXPECTED_ERROR_TEXT)
        },
        Err(ApiError::StorageError) => single(STORAGE_TEXT),
    }
}

/// The view of an optional text.
pub open spec fn text_view(t: Option<String>) -> Option<Seq<char>> {
    match t {
        Some(s) => Some(s@),
        None => None,
    }
}

/// What to copy to the clipboard at the end of `op`: the command that a
/// lookup found, when copying was `requested`; nothing otherwise.
pub open spec fn clipboard_choice(op: Operation, requested: bool, outcome: Outcome) -> Option<
    Seq<char>,
> {
    match outcome {
        Ok(Success::Answer(a)) => if requested && op == Operation::Lookup {
            Some(a.result@)
        } else {
            None
        },
        _ => None,
    }
}

/// The text to copy to the clipboard at the end of `op`, if any.
pub fn clipboard_text(op: Operation, requested: bool, outcome: &Outcome) -> (r: Option<String>)
    ensures
        text_view(r) == clipboard_choice(op, requested, *outcome),
{
    match outcome {
        Ok(Success::Answer(a)) => if requested && op == Operation::Lookup {
            Some(a.result.clone())
        } else {
            None
        },
        _ => None,
    }
}

/// An empty advisory message is never shown: an answer with one reports its
/// result alone.
pub proof fn lemma_empty_message_not_shown(op: Operation, a: ApiResult)
    requires
        a.message@.len() == 0,
    ensures
        report_lines(op, Ok(Success::Answer(a))) == seq![a.result@],
{
}

} // verus!
