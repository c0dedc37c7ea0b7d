//! The line protocol: what each request line asks for, the line written back,
//! and the state of one connection.

use vstd::prelude::*;
use crate::claims::{
    Claims, ClaimsView, claims_of, claims_text, decode_claims, encode_claims,
    lemma_claims_text_single_line, lemma_join_single_line, single_line,
};
use crate::json::{Json, json_parse, member, member_text, parse_json, get_member, get_member_text};
use crate::signer::{Signer, SignerError, sign_outcome, validate_outcome};
use crate::text::{trim, trim_spec, same_text};

verus! {

/// The reply to a line that is not JSON.
pub open spec fn invalid_json_line() -> Seq<char> {
    "ERROR Invalid JSON\n"@
}

/// The reply to a sign request whose claims do not decode.
pub open spec fn invalid_claims_line() -> Seq<char> {
    "ERROR Invalid claims\n"@
}

/// The reply to a request with a missing or unknown command.
pub open spec fn unknown_command_line() -> Seq<char> {
    "ERROR Unknown command\n"@
}

/// What a request line asks the connection to do.
#[derive(Debug)]
pub enum Action {
    /// Write nothing.
    Skip,
    /// Write this line.
    Reply(String),
    /// Sign these claims and write the outcome.
    Sign(Claims),
    /// Validate this token and write the outcome.
    Validate(String),
}

/// An action as plain values.
pub ghost enum ActionView {
    Skip,
    Reply(Seq<char>),
    Sign(ClaimsView),
    Validate(Seq<char>),
}

impl View for Action {
    type V = ActionView;

    open spec fn view(&self) -> ActionView {
        match self {
            Action::Skip => ActionView::Skip,
            Action::Reply(s) => ActionView::Reply(s@),
            Action::Sign(c) => ActionView::Sign(c@),
            Action::Validate(t) => ActionView::Validate(t@),
        }
    }
}

/// What a parsed request asks for: by its string member `cmd`, `"sign"` with
/// the claims under `claims`, or `"validate"` with the string under `token`
/// (the empty token where there is none).
pub open spec fn request_action(req: Json) -> ActionView {
    match member_text(req, "cmd"@) {
        Some(cmd) => if cmd == "sign"@ {
            match member(req, "claims"@) {
                Some(j) => match claims_of(j) {
                    Some(c) => ActionView::Sign(c),
                    None => ActionView::Reply(invalid_claims_line()),
                },
                None => ActionView::Reply(invalid_claims_line()),
            }
        } else if cmd == "validate"@ {
            match member_text(req, "token"@) {
                Some(t) => ActionView::Validate(t),
                None => ActionView::Validate(Seq::empty()),
            }
        } else {
            ActionView::Reply(unknown_command_line())
        },
        None => ActionView::Reply(unknown_command_line()),
    }
}

/// What a line read from a connection asks for: nothing where it is blank,
/// else what it asks once trimmed and parsed as JSON.
pub open spec fn line_action(line: Seq<char>) -> ActionView {
    let t = trim_spec(line);
    if t.len() == 0 {
        ActionView::Skip
    } else {
        match json_parse(t) {
            Some(req) => request_action(req),
            None => ActionView::Reply(invalid_json_line()),
        }
    }
}

/// Decides what a parsed request asks for.
pub fn request_action_of(req: &Json) -> (r: Action)
    ensures
        r@ == request_action(*req),
{
    let unknown = Action::Reply(String::from_str("ERROR Unknown command\n"));
    match get_member_text(req, "cmd") {
        Some(cmd) => {
            if same_text(cmd.as_str(), "sign") {
                let decoded = match get_member(req, "claims") {
                    Some(j) => decode_claims(j),
                    None => None,
                };
                match decoded {
                    Some(c) => Action::Sign(c),
                    None => Action::Reply(String::from_str("ERROR Invalid claims\n")),
                }
            } else if same_text(cmd.as_str(), "validate") {
                match get_member_text(req, "token") {
                    Some(t) => Action::Validate(t),
                    None => Action::Validate(String::new()),
                }
            } else {
                unknown
            }
        },
        None => unknown,
    }
}

/// Decides what a line read from a connection asks for.
pub fn line_action_of(line: &str) -> (r: Action)
    ensures
        r@ == line_action(line@),
{
    let t = trim(line);
    if t.unicode_len() == 0 {
        return Action::Skip;
    }
    match parse_json(t) {
        Some(req) => request_action_of(&req),
        None => Action::Reply(String::from_str("ERROR Invalid JSON\n")),
    }
}

/// The line written for the outcome of signing: the token, or the error's
/// message.
pub open spec fn sign_reply(outcome: Result<Seq<char>, Seq<char>>) -> Seq<char> {
    match outcome {
        Ok(token) => "TOKEN "@ + token + "\n"@,
        Err(message) => "ERROR "@ + message + "\n"@,
    }
}

/// The line written for the outcome of validating: the claims as JSON text,
/// or the error's message.
pub open spec fn validate_reply(outcome: Result<ClaimsView, Seq<char>>) -> Seq<char> {
    match outcome {
        Ok(c) => "VALID "@ + claims_text(c) + "\n"@,
        Err(message) => "ERROR "@ + message + "\n"@,
    }
}

/// The error line for `e`.
fn error_line(e: &SignerError) -> (r: String)
    ensures
        r@ == "ERROR "@ + e.message@ + "\n"@,
{
    let mut out = String::from_str("ERROR ");
    out.append(e.message.as_str());
    out.append("\n");
    out
}

/// The line written for the outcome of signing.
pub fn sign_reply_of(outcome: &Result<String, SignerError>) -> (r: String)
    ensures
        r@ == sign_reply(sign_outcome(*outcome)),
{
    match outcome {
        Ok(token) => {
            let mut out = String::from_str("TOKEN ");
            out.append(token.as_str());
            out.append("\n");
            out
        },
        Err(e) => error_line(e),
    }
}

/// The line written for the outcome of validating.
pub fn validate_reply_of(outcome: &Result<Claims, SignerError>) -> (r: String)
    ensures
        r@ == validate_reply(validate_outcome(*outcome)),
{
    match outcome {
        Ok(c) => {
            let mut out = String::from_str("VALID ");
            let text = encode_claims(c);
            out.append(text.as_str());
            out.append("\n");
            out
        },
        Err(e) => error_line(e),
    }
}

/// Whether `reply` is what a line asking for `action` may be answered with,
/// whatever the signer made of it.
pub open spec fn answers(action: ActionView, reply: Option<Seq<char>>) -> bool {
    match action {
        ActionView::Skip => reply is None,
        ActionView::Reply(text) => reply == Some(text),
        ActionView::Sign(_) => exists|o: Result<Seq<char>, Seq<char>>| reply == Some(sign_reply(o)),
        ActionView::Validate(_) => exists|o: Result<ClaimsView, Seq<char>>| reply == Some(validate_reply(o)),
    }
}

/// Answers one line read from a connection: `None` where nothing is to be
/// written, else the line to write.
pub fn handle_line<S: Signer>(signer: &S, line: &str) -> (r: Option<String>)
    ensures
        answers(line_action(line@), match r {
            Some(s) => Some(s@),
            None => None,
        }),
{
    match line_action_of(line) {
        Action::Skip => None,
        Action::Reply(text) => Some(text),
        Action::Sign(c) => {
            let outcome = signer.sign(&c);
            let reply = sign_reply_of(&outcome);
            assert(Some(reply@) == Some(sign_reply(sign_outcome(outcome))));
            Some(reply)
        },
        Action::Validate(token) => {
            let outcome = signer.validate(token.as_str());
            let reply = validate_reply_of(&outcome);
            assert(Some(reply@) == Some(validate_reply(validate_outcome(outcome))));
            Some(reply)
        },
    }
}

/// The state of one connection: reading lines, or closed for good.
#[derive(PartialEq, Eq, Structural, Clone, Copy, Debug)]
pub enum ConnectionState {
    Reading,
    Closed,
}

/// What one read from a connection brought.
pub enum ReadEvent {
    /// A line, up to and including its newline where there is one.
    Line(String),
    /// The peer closed the stream.
    EndOfStream,
    /// The read failed.
    Failed,
}

/// One step of a connection: a line is answered and reading goes on, while
/// the end of the stream or a failed read closes it; a closed connection
/// stays closed and writes nothing.
pub fn step<S: Signer>(signer: &S, state: ConnectionState, event: ReadEvent) -> (r: (
    ConnectionState,
    Option<String>,
))
    ensures
        state == ConnectionState::Closed ==> r.0 == ConnectionState::Closed && r.1 is None,
        state == ConnectionState::Reading ==> match event {
            ReadEvent::Line(line) => r.0 == ConnectionState::Reading && answers(
                line_action(line@),
                match r.1 {
                    Some(s) => Some(s@),
                    None => None,
                },
            ),
            _ => r.0 == ConnectionState::Closed && r.1 is None,
        },
{
    match state {
        ConnectionState::Closed => (ConnectionState::Closed, None),
        ConnectionState::Reading => match event {
            ReadEvent::Line(line) => (ConnectionState::Reading, handle_line(signer, line.as_str())),
            _ => (ConnectionState::Closed, None),
        },
    }
}

/// A non-blank line that is not JSON is answered with exactly
/// `ERROR Invalid JSON`, and nothing else.
pub proof fn lemma_invalid_json_reply(line: Seq<char>, reply: Option<Seq<char>>)
    requires
        trim_spec(line).len() > 0,
        json_parse(trim_spec(line)) is None,
    ensures
        answers(line_action(line), reply) <==> reply == Some(invalid_json_line()),
{
}

/// A request whose `cmd` is missing, is no string, or is neither `"sign"` nor
/// `"validate"` is answered with exactly `ERROR Unknown command`.
pub proof fn lemma_unknown_command_reply(line: Seq<char>, req: Json, reply: Option<Seq<char>>)
    requires
        trim_spec(line).len() > 0,
        json_parse(trim_spec(line)) == Some(req),
        member_text(req, "cmd"@) matches Some(cmd) ==> cmd != "sign"@ && cmd != "validate"@,
    ensures
        answers(line_action(line), reply) <==> reply == Some(unknown_command_line()),
{
}

/// A blank line is answered with nothing.
pub proof fn lemma_blank_line_silent(line: Seq<char>, reply: Option<Seq<char>>)
    requires
        trim_spec(line).len() == 0,
    ensures
        answers(line_action(line), reply) <==> reply is None,
{
}

/// Every non-blank line is answered with one reply, and that reply ends
/// with a newline.
pub proof fn lemma_one_reply_per_request(line: Seq<char>, reply: Option<Seq<char>>)
    requires
        trim_spec(line).len() > 0,
        answers(line_action(line), reply),
    ensures
        reply matches Some(text) && text.len() > 0 && text.last() == '\n',
{
    reveal_strlit("\n");
    reveal_strlit("ERROR Invalid JSON\n");
    reveal_strlit("ERROR Invalid claims\n");
    reveal_strlit("ERROR Unknown command\n");
    match line_action(line) {
        ActionView::Sign(_) => {
            let o = choose|o: Result<Seq<char>, Seq<char>>| reply == Some(sign_reply(o));
            assert(reply == Some(sign_reply(o)));
        },
        ActionView::Validate(_) => {
            let o = choose|o: Result<ClaimsView, Seq<char>>| reply == Some(validate_reply(o));
            assert(reply == Some(validate_reply(o)));
        },
        _ => {},
    }
}

/// A `VALID` reply is one line: its only line feed is its last character,
/// whatever the claims hold.
pub proof fn lemma_valid_reply_single_line(c: ClaimsView)
    ensures
        validate_reply(Ok(c)).len() > 0,
        validate_reply(Ok(c)).last() == '\n',
        single_line(validate_reply(Ok(c)).drop_last()),
{
    reveal_strlit("VALID ");
    reveal_strlit("\n");
    lemma_claims_text_single_line(c);
    lemma_join_single_line("VALID "@, claims_text(c));
    assert(validate_reply(Ok(c)).drop_last() =~= "VALID "@ + claims_text(c));
}

} // verus!
