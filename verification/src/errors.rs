//! What is told of a command that failed.

use vstd::prelude::*;

use crate::session::{BackendError, CommandError, ErrorData, FaultData};
use crate::text::{cat2, cat3, chars_of, contains, contains_text, decimal, decimal_usize, is_digit};

verus! {

/// Why a call failed, in words.
pub open spec fn fault_words(e: FaultData) -> Seq<char> {
    match e {
        FaultData::Http(s) => s,
        FaultData::MissingCredentials => "No active credentials; run `x authorize` first"@,
        FaultData::Other(s) => s,
    }
}

/// Why a command failed, in words.
pub open spec fn error_words(e: ErrorData) -> Seq<char> {
    match e {
        ErrorData::RcFile(s) => s,
        ErrorData::Backend(f) => fault_words(f),
        ErrorData::Io(s) => "I/O error: "@ + s,
        ErrorData::MissingArguments { command, expected } => {
            "Missing required argument for command "@ + command + ": expected at least "@ + decimal(
                expected,
            ) + " arguments"@
        },
        ErrorData::Other(s) => s,
    }
}

impl BackendError {
    pub fn to_text(&self) -> (r: String)
        ensures
            r@ == fault_words(self.deep_view()),
    {
        match self {
            BackendError::Http(s) => s.clone(),
            BackendError::MissingCredentials => {
                "No active credentials; run `x authorize` first".to_owned()
            },
            BackendError::Other(s) => s.clone(),
        }
    }
}

impl CommandError {
    pub fn to_text(&self) -> (r: String)
        ensures
            r@ == error_words(self.deep_view()),
    {
        match self {
            CommandError::RcFile(s) => s.clone(),
            CommandError::Backend(e) => e.to_text(),
            CommandError::Io(s) => cat2("I/O error: ", s.as_str()),
            CommandError::MissingArguments { command, expected } => {
                cat3(
                    "Missing required argument for command ",
                    command.as_str(),
                    ": expected at least ",
                ).concat(decimal_usize(*expected).as_str()).concat(" arguments")
            },
            CommandError::Other(s) => s.clone(),
        }
    }
}

/// What stands behind a status of three digits and a colon, where a message starts so.
pub open spec fn behind_status(message: Seq<char>) -> Option<Seq<char>> {
    if message.len() >= 5 && is_digit(message[0]) && is_digit(message[1]) && is_digit(message[2])
        && message[3] == ':' && message[4] == ' ' {
        Some(message.skip(5))
    } else {
        None
    }
}

fn skip_status(message: &str) -> (r: Option<String>)
    ensures
        r.deep_view() == behind_status(message@),
{
    let v = chars_of(message);
    if v.len() >= 5 && '0' <= v[0] && v[0] <= '9' && '0' <= v[1] && v[1] <= '9' && '0' <= v[2]
        && v[2] <= '9' && v[3] == ':' && v[4] == ' ' {
        let mut rest = String::new();
        let mut i: usize = 5;
        assert(rest@ =~= message@.skip(5).take(0));
        while i < v.len()
            invariant
                5 <= i <= v.len(),
                v@ == message@,
                rest@ == message@.skip(5).take(i - 5),
            decreases v.len() - i,
        {
            rest.push(v[i]);
            i += 1;
            assert(rest@ =~= message@.skip(5).take(i - 5));
        }
        assert(rest@ =~= message@.skip(5));
        Some(rest)
    } else {
        None
    }
}

/// The words that the user is told. The status of an answer of the API is left out.
pub open spec fn displayed(e: ErrorData) -> Seq<char> {
    match e {
        ErrorData::Backend(FaultData::Http(message)) => match behind_status(message) {
            Some(rest) => rest,
            None => message,
        },
        _ => error_words(e),
    }
}

pub fn format_error_for_display(error: &CommandError) -> (r: String)
    ensures
        r@ == displayed(error.deep_view()),
{
    if let CommandError::Backend(BackendError::Http(message)) = error {
        if let Some(rest) = skip_status(message.as_str()) {
            return rest;
        }
    }
    error.to_text()
}

/// What may help, where the API refuses for the number of calls.
pub open spec fn hint(e: ErrorData) -> Option<Seq<char>> {
    match e {
        ErrorData::Backend(FaultData::Http(message)) => if contains_text(message, "429:"@) {
            if contains_text(message, "403:"@) {
                Some(
                    "Hint: X API access appears limited by both permissions and rate limits. Confirm endpoint access for this account/app and retry after the rate-limit window resets."@,
                )
            } else {
                Some(
                    "Hint: X API rate limit reached. Wait for the limit window to reset and retry."@,
                )
            }
        } else {
            None
        },
        _ => None,
    }
}

pub fn backend_error_hint(error: &CommandError) -> (r: Option<String>)
    ensures
        r.deep_view() == hint(error.deep_view()),
{
    if let CommandError::Backend(BackendError::Http(message)) = error {
        if contains(message.as_str(), "429:") {
            if contains(message.as_str(), "403:") {
                return Some(
                    "Hint: X API access appears limited by both permissions and rate limits. Confirm endpoint access for this account/app and retry after the rate-limit window resets.".to_owned(),
                );
            }
            return Some(
                "Hint: X API rate limit reached. Wait for the limit window to reset and retry.".to_owned(),
            );
        }
    }
    None
}

/// The lines on the standard error for a command that failed.
pub open spec fn failure(program: Seq<char>, e: ErrorData) -> Seq<Seq<char>> {
    let first = program + ": "@ + displayed(e);
    match hint(e) {
        Some(text) => seq![first, text],
        None => seq![first],
    }
}

pub fn failure_lines(program: &str, error: &CommandError) -> (r: Vec<String>)
    ensures
        r.deep_view() == failure(program@, error.deep_view()),
{
    let first = cat3(program, ": ", format_error_for_display(error).as_str());
    match backend_error_hint(error) {
        Some(text) => {
            let lines: Vec<String> = vec![first, text];
            assert(lines.deep_view() =~= failure(program@, error.deep_view()));
            lines
        },
        None => {
            let lines: Vec<String> = vec![first];
            assert(lines.deep_view() =~= failure(program@, error.deep_view()));
            lines
        },
    }
}

/// A message that names a status is told without it.
pub proof fn law_status_is_left_out(a: char, b: char, c: char, rest: Seq<char>)
    requires
        is_digit(a),
        is_digit(b),
        is_digit(c),
    ensures
        displayed(
            ErrorData::Backend(FaultData::Http(seq![a, b, c, ':', ' '] + rest)),
        ) == rest,
{
    let message = seq![a, b, c, ':', ' '] + rest;
    assert(message.skip(5) =~= rest);
}

} // verus!
