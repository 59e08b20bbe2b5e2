//! One readable message out of whatever a server sent to say that a request
//! failed.

use crate::json::{doc_view, parse, parsed_json, Json, JsonView};
use crate::status::{status_display, status_text, HttpStatus};
use crate::text::{blank, concat2, concat3, is_blank};
use vstd::prelude::*;

verus! {

/// The error that a document states at its top: the member `error`, where
/// it is a text that is not blank.
pub open spec fn stated_error(doc: JsonView) -> Option<Seq<char>> {
    match doc.get_str("error"@) {
        Some(message) => if is_blank(message) {
            None
        } else {
            Some(message)
        },
        None => None,
    }
}

/// The error that a document states: at its top, or else in its member
/// `shutdown_room`.
pub open spec fn nested_error(doc: JsonView) -> Option<Seq<char>> {
    if stated_error(doc) is Some {
        stated_error(doc)
    } else {
        match doc.get("shutdown_room"@) {
            Some(inner) => stated_error(inner),
            None => None,
        }
    }
}

/// The message for a response that reports a failure by its status.
/// `status` is the status as printed, `body` what the server sent and
/// `parsed` the document in `body`, where it holds one.
pub open spec fn error_message(status: Seq<char>, body: Seq<char>, parsed: Option<JsonView>) -> Seq<
    char,
> {
    if body.len() == 0 {
        "HTTP "@ + status
    } else if parsed is Some && stated_error(parsed->0) is Some {
        status + ": "@ + stated_error(parsed->0)->0
    } else {
        status + ": "@ + body
    }
}

fn stated_error_of(doc: &Json) -> (found: Option<&str>)
    ensures
        found is Some <==> stated_error(doc@) is Some,
        found matches Some(message) ==> stated_error(doc@) == Some(message@),
{
    match doc.get_str("error") {
        Some(message) => if blank(message) {
            None
        } else {
            Some(message)
        },
        None => None,
    }
}

/// The error that a payload states although the response that carried it
/// reported success.
pub fn extract_nested_error(value: &Json) -> (found: Option<String>)
    ensures
        found.deep_view() == nested_error(value@),
{
    match stated_error_of(value) {
        Some(message) => Some(message.to_owned()),
        None => match value.get("shutdown_room") {
            Some(inner) => match stated_error_of(inner) {
                Some(message) => Some(message.to_owned()),
                None => None,
            },
            None => None,
        },
    }
}

/// The message for a failed response whose body has been parsed already.
pub fn format_error_body(status: &str, body: &str, parsed: Option<&Json>) -> (message: String)
    ensures
        message@ == error_message(status@, body@, doc_view(parsed)),
{
    if body.is_empty() {
        return concat2("HTTP ", status);
    }
    if let Some(doc) = parsed {
        if let Some(stated) = stated_error_of(doc) {
            return concat3(status, ": ", stated);
        }
    }
    concat3(status, ": ", body)
}

/// The message for a failed response: `HTTP` and the status where the body
/// is empty, else the status and the error that the body states, else the
/// status and the body as it came.
pub fn read_error_body(status: HttpStatus, body: &str) -> (message: String)
    ensures
        message@ == error_message(status_display(status.code()), body@, parsed_json(body@)),
{
    let printed = status_text(status.as_u16());
    let parsed = parse(body);
    format_error_body(printed.as_str(), body, parsed.as_ref())
}

} // verus!
