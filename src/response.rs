//! Reading the upstream answer into the rewritten text or an error.
use vstd::prelude::*;
use crate::error::{ErrorKind, RewriteError};
use crate::json::{field, parse_json, parsed_json, JsonValue};
use crate::text::{decimal, is_blank, lemma_trimmed_empty_iff_blank, push_decimal, trim_text, trimmed};

verus! {

/// The rewritten text handed back to the caller.
#[derive(Debug)]
pub struct RewriteResponse {
    pub rewritten: String,
}

/// How the outbound call ended.
#[derive(Debug)]
pub enum UpstreamOutcome {
    /// The call did not complete; the transport's description of why.
    TransportFailed(String),
    /// The upstream answered: its status code, and its body where it could be read.
    Responded { status: u16, body: Option<String> },
}

/// Which link of `candidates[0].content.parts[0].text` is missing from a document.
#[derive(Clone, Copy, Debug, PartialEq, Eq, Structural)]
pub enum ShapeGap {
    /// `candidates` is absent or not an array.
    NoCandidateList,
    /// `candidates` is empty.
    NoFirstCandidate,
    /// `content.parts` of the first candidate is absent or not an array.
    NoPartList,
    /// `parts` is empty.
    NoFirstPart,
    /// `text` of the first part is absent or not a string.
    NoText,
}

/// The text at `parts[0].text` below a candidate's `content`.
pub open spec fn part_text(candidate: JsonValue) -> Result<Seq<char>, ShapeGap> {
    let parts = match field(candidate, "content"@) {
        Some(content) => field(content, "parts"@),
        None => None,
    };
    match parts {
        Some(JsonValue::Array(items)) => if items@.len() == 0 {
            Err(ShapeGap::NoFirstPart)
        } else {
            match field(items@[0], "text"@) {
                Some(JsonValue::Str(t)) => Ok(t@),
                _ => Err(ShapeGap::NoText),
            }
        },
        _ => Err(ShapeGap::NoPartList),
    }
}

/// The generated text at `candidates[0].content.parts[0].text`, or the first missing link.
pub open spec fn candidate_text(doc: JsonValue) -> Result<Seq<char>, ShapeGap> {
    match field(doc, "candidates"@) {
        Some(JsonValue::Array(items)) => if items@.len() == 0 {
            Err(ShapeGap::NoFirstCandidate)
        } else {
            part_text(items@[0])
        },
        _ => Err(ShapeGap::NoCandidateList),
    }
}

/// The string at `error.message` of a document, where there is one.
pub open spec fn error_message(doc: JsonValue) -> Option<Seq<char>> {
    match field(doc, "error"@) {
        Some(e) => match field(e, "message"@) {
            Some(JsonValue::Str(m)) => Some(m@),
            _ => None,
        },
        None => None,
    }
}

/// Whether a status code reports success.
pub open spec fn is_success_status(status: u16) -> bool {
    200 <= status < 300
}

/// The body used when the upstream's body cannot be read.
pub open spec fn unreadable_body() -> Seq<char> {
    "Failed to get response text"@
}

/// What the caller gets: the rewritten text, or the error's kind and message.
pub type Reply = Result<Seq<char>, (ErrorKind, Seq<char>)>;

/// The view of a result handed to the caller.
pub open spec fn reply_of(r: &Result<RewriteResponse, RewriteError>) -> Reply {
    match r {
        Ok(resp) => Ok(resp.rewritten@),
        Err(e) => Err(e@),
    }
}

/// The view of a parse result.
pub open spec fn parse_view(p: &Result<JsonValue, String>) -> Result<JsonValue, Seq<char>> {
    match p {
        Ok(doc) => Ok(*doc),
        Err(e) => Err(e@),
    }
}

/// The answer to a rejected call: the status, then the upstream's own message
/// where the body carries one, else the whole body.
pub open spec fn rejected_reply(status: u16, body: Seq<char>, parsed: Result<JsonValue, Seq<char>>) -> Reply {
    let detail = match parsed {
        Ok(doc) => match error_message(doc) {
            Some(m) => m,
            None => body,
        },
        Err(_) => body,
    };
    Err((ErrorKind::UpstreamRejected, "Gemini API error: "@ + decimal(status as nat) + " - "@ + detail))
}

/// The answer to a successful call: the trimmed generated text, or `original`
/// where that text is blank; an error where the body is not the expected document.
pub open spec fn accepted_reply(body: Seq<char>, parsed: Result<JsonValue, Seq<char>>, original: Seq<char>) -> Reply {
    match parsed {
        Err(e) => Err(
            (
                ErrorKind::MalformedUpstreamResponse,
                "Failed to parse Gemini response JSON: "@ + e + " - "@ + body,
            ),
        ),
        Ok(doc) => match candidate_text(doc) {
            Ok(t) => if is_blank(t) {
                Ok(original)
            } else {
                Ok(trimmed(t))
            },
            Err(_) => Err((ErrorKind::MalformedUpstreamResponse, "Failed to parse Gemini response: "@ + body)),
        },
    }
}

/// The answer to a call that came back with `status` and `body`, where
/// `parsed` is what the JSON parser made of `body`.
pub open spec fn body_reply(status: u16, body: Seq<char>, parsed: Result<JsonValue, Seq<char>>, original: Seq<char>) -> Reply {
    if is_success_status(status) {
        accepted_reply(body, parsed, original)
    } else {
        rejected_reply(status, body, parsed)
    }
}

/// The body as read, with the fixed text in place of one that could not be read.
pub open spec fn body_text(body: Option<String>) -> Seq<char> {
    match body {
        Some(b) => b@,
        None => unreadable_body(),
    }
}

/// The answer to an outbound call that ended with `outcome`.
pub open spec fn outcome_reply(outcome: UpstreamOutcome, original: Seq<char>) -> Reply {
    match outcome {
        UpstreamOutcome::TransportFailed(e) => Err((ErrorKind::UpstreamUnreachable, "Failed to call Gemini API: "@ + e@)),
        UpstreamOutcome::Responded { status, body } => body_reply(
            status,
            body_text(body),
            parsed_json(body_text(body)),
            original,
        ),
    }
}

/// Where a successful answer carries generated text that is not blank, the
/// caller gets exactly that text, trimmed.
pub proof fn lemma_generated_text_returned_trimmed(
    status: u16,
    body: Seq<char>,
    doc: JsonValue,
    original: Seq<char>,
)
    requires
        is_success_status(status),
        candidate_text(doc) is Ok,
        trimmed(candidate_text(doc)->Ok_0).len() > 0,
    ensures
        body_reply(status, body, Ok(doc), original) == Ok::<Seq<char>, (ErrorKind, Seq<char>)>(
            trimmed(candidate_text(doc)->Ok_0),
        ),
{
    lemma_trimmed_empty_iff_blank(candidate_text(doc)->Ok_0);
}

/// Where a successful answer carries generated text that trims to nothing,
/// the caller gets its own text back unchanged.
pub proof fn lemma_blank_text_falls_back(status: u16, body: Seq<char>, doc: JsonValue, original: Seq<char>)
    requires
        is_success_status(status),
        candidate_text(doc) is Ok,
        trimmed(candidate_text(doc)->Ok_0).len() == 0,
    ensures
        body_reply(status, body, Ok(doc), original) == Ok::<Seq<char>, (ErrorKind, Seq<char>)>(original),
{
    lemma_trimmed_empty_iff_blank(candidate_text(doc)->Ok_0);
}

/// A body that is not JSON never gives a rewrite: it is a rejection under a
/// failure status and a malformed answer under a success status.
pub proof fn lemma_unparsable_body_fails(status: u16, body: Seq<char>, error: Seq<char>, original: Seq<char>)
    ensures
        body_reply(status, body, Err(error), original) is Err,
        body_reply(status, body, Err(error), original)->Err_0.0 == if is_success_status(status) {
            ErrorKind::MalformedUpstreamResponse
        } else {
            ErrorKind::UpstreamRejected
        },
{
}

/// Follows `candidates[0].content.parts[0].text` through a document.
pub fn extract_candidate_text(doc: &JsonValue) -> (r: Result<&str, ShapeGap>)
    ensures
        match r {
            Ok(t) => candidate_text(*doc) == Ok::<Seq<char>, ShapeGap>(t@),
            Err(g) => candidate_text(*doc) == Err::<Seq<char>, ShapeGap>(g),
        },
{
    let candidate = match doc.get("candidates") {
        Some(list) => match list {
            JsonValue::Array(items) => if items.len() > 0 {
                &items[0]
            } else {
                return Err(ShapeGap::NoFirstCandidate);
            },
            _ => return Err(ShapeGap::NoCandidateList),
        },
        None => return Err(ShapeGap::NoCandidateList),
    };
    let parts = match candidate.get("content") {
        Some(content) => content.get("parts"),
        None => None,
    };
    match parts {
        Some(JsonValue::Array(items)) => if items.len() > 0 {
            match items[0].get("text") {
                Some(JsonValue::Str(t)) => Ok(t.as_str()),
                _ => Err(ShapeGap::NoText),
            }
        } else {
            Err(ShapeGap::NoFirstPart)
        },
        _ => Err(ShapeGap::NoPartList),
    }
}

/// The string at `error.message` of a document, where there is one.
pub fn upstream_error_message(doc: &JsonValue) -> (r: Option<&str>)
    ensures
        match r {
            Some(m) => error_message(*doc) == Some(m@),
            None => error_message(*doc) is None,
        },
{
    match doc.get("error") {
        Some(e) => match e.get("message") {
            Some(JsonValue::Str(m)) => Some(m.as_str()),
            _ => None,
        },
        None => None,
    }
}

/// Whether a status code reports success.
pub fn is_success(status: u16) -> (r: bool)
    ensures
        r == is_success_status(status),
{
    200 <= status && status < 300
}

/// Reads a call that came back with `status` and `body`, given what the JSON
/// parser made of `body`, into the caller's answer.
pub fn interpret_body(status: u16, body: &str, parsed: &Result<JsonValue, String>, original: &str) -> (r: Result<
    RewriteResponse,
    RewriteError,
>)
    ensures
        reply_of(&r) == body_reply(status, body@, parse_view(parsed), original@),
{
    if !is_success(status) {
        let detail: &str = match parsed {
            Ok(doc) => match upstream_error_message(doc) {
                Some(m) => m,
                None => body,
            },
            Err(_) => body,
        };
        let mut message = String::from_str("Gemini API error: ");
        push_decimal(&mut message, status);
        message.append(" - ");
        message.append(detail);
        return Err(RewriteError::new(ErrorKind::UpstreamRejected, message));
    }
    match parsed {
        Err(e) => {
            let mut message = String::from_str("Failed to parse Gemini response JSON: ");
            message.append(e.as_str());
            message.append(" - ");
            message.append(body);
            Err(RewriteError::new(ErrorKind::MalformedUpstreamResponse, message))
        },
        Ok(doc) => match extract_candidate_text(doc) {
            Ok(t) => {
                let kept = trim_text(t);
                if kept.unicode_len() == 0 {
                    Ok(RewriteResponse { rewritten: String::from_str(original) })
                } else {
                    Ok(RewriteResponse { rewritten: String::from_str(kept) })
                }
            },
            Err(_) => {
                let mut message = String::from_str("Failed to parse Gemini response: ");
                message.append(body);
                Err(RewriteError::new(ErrorKind::MalformedUpstreamResponse, message))
            },
        },
    }
}

/// Reads the end of an outbound call into the caller's answer; `original` is
/// the caller's text.
pub fn interpret_outcome(outcome: UpstreamOutcome, original: &str) -> (r: Result<RewriteResponse, RewriteError>)
    ensures
        reply_of(&r) == outcome_reply(outcome, original@),
{
    match outcome {
        UpstreamOutcome::TransportFailed(e) => {
            let mut message = String::from_str("Failed to call Gemini API: ");
            message.append(e.as_str());
            Err(RewriteError::new(ErrorKind::UpstreamUnreachable, message))
        },
        UpstreamOutcome::Responded { status, body } => {
            let text = match body {
                Some(b) => b,
                None => String::from_str("Failed to get response text"),
            };
            let parsed = parse_json(text.as_str());
            interpret_body(status, text.as_str(), &parsed, original)
        },
    }
}

} // verus!
