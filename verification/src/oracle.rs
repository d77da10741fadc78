//! Reading the replies of the service that assigns the target quadrant, and
//! keeping the assignment between its replies.

use vstd::prelude::*;
use crate::json::{
    json_document, json_member, json_string, json_text, member, read_document, read_string, text,
};
use crate::quadrant::Quadrant;
use crate::text::{trim, trimmed};

verus! {

/// The time from one poll of the service to the next, in milliseconds.
pub const POLL_PERIOD_MS: u64 = 2_000;

/// Whether the service is to be polled: when it has never been polled, and
/// when `POLL_PERIOD_MS` milliseconds or more have passed since it last was.
pub open spec fn is_due(since_last_poll: Option<u64>) -> bool {
    match since_last_poll {
        Some(elapsed_ms) => elapsed_ms >= POLL_PERIOD_MS,
        None => true,
    }
}

/// Whether the service is to be polled now. `since_last_poll` is the time
/// in milliseconds since the last poll, whether it failed or not, and
/// `None` before the first one.
pub fn poll_due(since_last_poll: Option<u64>) -> (due: bool)
    ensures
        due == is_due(since_last_poll),
{
    match since_last_poll {
        Some(elapsed_ms) => elapsed_ms >= POLL_PERIOD_MS,
        None => true,
    }
}

/// The code that a JSON document carries: the string under its key
/// `quadrant`, or, where it has no such key, the string under its key
/// `target`. A member that is no string carries no code.
pub open spec fn document_code(doc: serde_json::Value) -> Option<Seq<char>> {
    match json_member(doc, "quadrant"@) {
        Some(found) => json_text(found),
        None => match json_member(doc, "target"@) {
            Some(found) => json_text(found),
            None => None,
        },
    }
}

/// The code that a reply carries in a JSON document, if it is one.
pub open spec fn reply_field(body: Seq<char>) -> Option<Seq<char>> {
    match json_document(body) {
        Some(doc) => document_code(doc),
        None => None,
    }
}

/// The code of a reply, given what the JSON reader made of it: the string
/// that the reply is as a whole, else the string that it holds as a
/// document, else the reply itself without the white space around it.
pub open spec fn chosen_code(
    string: Option<Seq<char>>,
    field: Option<Seq<char>>,
    body: Seq<char>,
) -> Seq<char> {
    match string {
        Some(code) => code,
        None => match field {
            Some(code) => code,
            None => trimmed(body),
        },
    }
}

/// The code of a reply.
pub open spec fn reply_code(body: Seq<char>) -> Seq<char> {
    chosen_code(json_string(body), reply_field(body), body)
}

/// The quadrant that a reply assigns, if its code names one.
pub open spec fn reply_quadrant(body: Seq<char>) -> Option<Quadrant> {
    Quadrant::parsed(reply_code(body))
}

/// The target after a poll: the quadrant that the poll gave, and the
/// target as it was where the poll failed.
pub open spec fn target_after(target: Option<Quadrant>, poll: Option<Quadrant>) -> Option<
    Quadrant,
> {
    match poll {
        Some(quadrant) => Some(quadrant),
        None => target,
    }
}

/// Whether a poll brings a new target: whether it gave a quadrant that is
/// not the target already.
pub open spec fn is_news(target: Option<Quadrant>, poll: Option<Quadrant>) -> bool {
    poll.is_some() && poll != target
}

/// The code that a JSON document carries under its key `quadrant` or,
/// failing that, under its key `target`.
pub fn code_in(doc: &serde_json::Value) -> (code: Option<&str>)
    ensures
        match code {
            Some(found) => document_code(*doc) == Some(found@),
            None => document_code(*doc).is_none(),
        },
{
    match member(doc, "quadrant") {
        Some(found) => text(found),
        None => match member(doc, "target") {
            Some(found) => text(found),
            None => None,
        },
    }
}

/// The code of a reply, given what the JSON reader made of it: `string` if
/// the reply as a whole is a JSON string, `field` if it is a document that
/// holds a code, and the reply itself otherwise.
pub fn choose_code(string: Option<String>, field: Option<&str>, body: &str) -> (code: String)
    ensures
        code@ == chosen_code(
            match string {
                Some(s) => Some(s@),
                None => None,
            },
            match field {
                Some(s) => Some(s@),
                None => None,
            },
            body@,
        ),
{
    match string {
        Some(code) => code,
        None => match field {
            Some(code) => code.to_owned(),
            None => trim(body).to_owned(),
        },
    }
}

/// The code of a reply: the reply may be a JSON string, a JSON document
/// with the code under `quadrant` or `target`, or the bare code.
pub fn code_of_reply(body: &str) -> (code: String)
    ensures
        code@ == reply_code(body@),
{
    match read_string(body) {
        Ok(code) => choose_code(Some(code), None, body),
        Err(_) => match read_document(body) {
            Ok(doc) => choose_code(None, code_in(&doc), body),
            Err(_) => choose_code(None, None, body),
        },
    }
}

/// The quadrant that a reply assigns. A reply whose code names no
/// quadrant assigns none: the poll has failed.
pub fn read_reply(body: &str) -> (quadrant: Option<Quadrant>)
    ensures
        quadrant == reply_quadrant(body@),
{
    let code: String = code_of_reply(body);
    Quadrant::parse(code.as_str())
}

/// Takes a poll's result into the target. A failed poll leaves the target
/// as it was. Returns whether the target is a new one.
pub fn update_target(target: &mut Option<Quadrant>, poll: Option<Quadrant>) -> (news: bool)
    ensures
        *final(target) == target_after(*old(target), poll),
        news == is_news(*old(target), poll),
{
    match poll {
        Some(quadrant) => {
            let news: bool = match *target {
                Some(current) => current != quadrant,
                None => true,
            };
            *target = Some(quadrant);
            news
        },
        None => false,
    }
}

/// A poll that gives the quadrant of the poll before it brings no news and
/// changes nothing: of two such polls in a row, only the first can bring
/// news, and it does unless the target was that quadrant already.
pub proof fn lemma_repeated_poll_is_silent(target: Option<Quadrant>, quadrant: Quadrant)
    ensures
        is_news(target, Some(quadrant)) <==> target != Some(quadrant),
        !is_news(target_after(target, Some(quadrant)), Some(quadrant)),
        target_after(target_after(target, Some(quadrant)), Some(quadrant)) == target_after(
            target,
            Some(quadrant),
        ),
{
}

/// A failed poll brings no news and leaves the target as it was.
pub proof fn lemma_failed_poll_keeps_target(target: Option<Quadrant>)
    ensures
        !is_news(target, None),
        target_after(target, None) == target,
{
}

} // verus!
