//! What one response means for the operation, phase by phase.

use crate::delete_status::{deletion_status, job_report, DeletionStatus, DeletionStatusView};
use crate::errors::{error_message, format_error_body};
use crate::json::{doc_view, Json, JsonView};
use crate::request::ApiVariant;
use crate::status::HttpStatus;
use vstd::prelude::*;

verus! {

/// What the answer to an initiating request means.
#[derive(Debug, PartialEq, Eq)]
pub enum Initiation {
    /// The server does not know the variant: try this one next.
    Fallback(ApiVariant),
    /// The server refused, with the message.
    Refused(String),
    /// The server took the request and named no job.
    Completed,
    /// The server took the request and runs the job named.
    JobStarted(String),
}

/// What an `Initiation` stands for.
pub enum InitiationView {
    Fallback(ApiVariant),
    Refused(Seq<char>),
    Completed,
    JobStarted(Seq<char>),
}

impl View for Initiation {
    type V = InitiationView;

    open spec fn view(&self) -> InitiationView {
        match self {
            Initiation::Fallback(next) => InitiationView::Fallback(*next),
            Initiation::Refused(message) => InitiationView::Refused(message@),
            Initiation::Completed => InitiationView::Completed,
            Initiation::JobStarted(delete_id) => InitiationView::JobStarted(delete_id@),
        }
    }
}

/// What is being waited for after a deletion has started.
#[derive(Debug, PartialEq, Eq)]
pub enum Watch {
    /// The job `delete_id`, asked for by its identifier or by the room.
    Job { delete_id: String, by_delete_id: bool },
    /// The room's removal.
    Room,
}

/// What a `Watch` stands for.
pub enum WatchView {
    Job { delete_id: Seq<char>, by_delete_id: bool },
    Room,
}

impl View for Watch {
    type V = WatchView;

    open spec fn view(&self) -> WatchView {
        match self {
            Watch::Job { delete_id, by_delete_id } => WatchView::Job {
                delete_id: delete_id@,
                by_delete_id: *by_delete_id,
            },
            Watch::Room => WatchView::Room,
        }
    }
}

/// What one answer means while the caller waits for something to finish.
#[derive(Debug, PartialEq, Eq)]
pub enum Progress {
    /// It has finished.
    Done,
    /// It has failed, with the message.
    Failed(String),
    /// The server does not know the route: ask at once in the way given.
    Retry(Watch),
    /// Not yet: ask again after a pause.
    Pending,
}

/// What a `Progress` stands for.
pub enum ProgressView {
    Done,
    Failed(Seq<char>),
    Retry(WatchView),
    Pending,
}

impl View for Progress {
    type V = ProgressView;

    open spec fn view(&self) -> ProgressView {
        match self {
            Progress::Done => ProgressView::Done,
            Progress::Failed(message) => ProgressView::Failed(message@),
            Progress::Retry(watch) => ProgressView::Retry(watch@),
            Progress::Pending => ProgressView::Pending,
        }
    }
}

/// The job that a successful answer to `variant` names: only version 2
/// starts jobs, and names one in the member `delete_id`.
pub open spec fn started_job(variant: ApiVariant, parsed: Option<JsonView>) -> Option<Seq<char>> {
    if variant == ApiVariant::V2 && parsed is Some {
        parsed->0.get_str("delete_id"@)
    } else {
        None
    }
}

/// What the answer to the initiating request of `variant` means. A 404 or
/// 405 sends on to the next variant while there is one; any other status
/// outside 2xx is a refusal; a 2xx has started the deletion.
pub open spec fn initiation(
    variant: ApiVariant,
    status: HttpStatus,
    printed: Seq<char>,
    body: Seq<char>,
    parsed: Option<JsonView>,
) -> InitiationView {
    if status.route_unsupported() && variant.successor() is Some {
        InitiationView::Fallback(variant.successor()->0)
    } else if !status.success() {
        InitiationView::Refused(error_message(printed, body, parsed))
    } else {
        match started_job(variant, parsed) {
            Some(delete_id) => InitiationView::JobStarted(delete_id),
            None => InitiationView::Completed,
        }
    }
}

/// The payload of a successful answer: the document in its body, or an
/// empty object where the body holds none.
pub open spec fn payload_of(parsed: Option<JsonView>) -> JsonView {
    match parsed {
        Some(doc) => doc,
        None => JsonView::Object(Seq::empty()),
    }
}

/// What the answer to a request for the job `delete_id` means. A 404 or
/// 405 on the route by job sends on to the route by room, and on that
/// route ends the polling in success; any other status outside 2xx is a
/// failure; a 2xx is read for the job's status.
pub open spec fn job_progress(
    by_delete_id: bool,
    delete_id: Seq<char>,
    status: HttpStatus,
    printed: Seq<char>,
    body: Seq<char>,
    parsed: Option<JsonView>,
) -> ProgressView {
    if status.route_unsupported() {
        if by_delete_id {
            ProgressView::Retry(WatchView::Job { delete_id, by_delete_id: false })
        } else {
            ProgressView::Done
        }
    } else if !status.success() {
        ProgressView::Failed(error_message(printed, body, parsed))
    } else {
        match deletion_status(job_report(payload_of(parsed), delete_id)) {
            DeletionStatusView::Complete => ProgressView::Done,
            DeletionStatusView::Failed(message) => ProgressView::Failed(message),
            DeletionStatusView::InProgress => ProgressView::Pending,
            DeletionStatusView::Unknown => ProgressView::Pending,
        }
    }
}

/// What the answer to a lookup of the room means: 404 says that the room
/// is gone, any other status outside 2xx is a failure, and a 2xx says that
/// the room is still there.
pub open spec fn removal_progress(
    status: HttpStatus,
    printed: Seq<char>,
    body: Seq<char>,
    parsed: Option<JsonView>,
) -> ProgressView {
    if status.not_found() {
        ProgressView::Done
    } else if !status.success() {
        ProgressView::Failed(error_message(printed, body, parsed))
    } else {
        ProgressView::Pending
    }
}

/// What the answer to the initiating request of `variant` means. `printed`
/// is the status as it stands in a message and `parsed` the document in
/// `body`, if it holds one.
pub fn interpret_initiation(
    variant: ApiVariant,
    status: HttpStatus,
    printed: &str,
    body: &str,
    parsed: Option<&Json>,
) -> (verdict: Initiation)
    ensures
        verdict@ == initiation(variant, status, printed@, body@, doc_view(parsed)),
{
    if status.is_route_unsupported() {
        if let Some(next) = variant.next() {
            return Initiation::Fallback(next);
        }
    }
    if !status.is_success() {
        return Initiation::Refused(format_error_body(printed, body, parsed));
    }
    match variant {
        ApiVariant::V2 => match parsed {
            Some(doc) => match doc.get_str("delete_id") {
                Some(delete_id) => Initiation::JobStarted(delete_id.to_owned()),
                None => Initiation::Completed,
            },
            None => Initiation::Completed,
        },
        _ => Initiation::Completed,
    }
}

/// What the answer to a request for the job `delete_id` means.
pub fn interpret_job_status(
    by_delete_id: bool,
    delete_id: &str,
    status: HttpStatus,
    printed: &str,
    body: &str,
    parsed: Option<&Json>,
) -> (verdict: Progress)
    ensures
        verdict@ == job_progress(by_delete_id, delete_id@, status, printed@, body@, doc_view(parsed)),
{
    if status.is_route_unsupported() {
        return if by_delete_id {
            Progress::Retry(Watch::Job { delete_id: delete_id.to_owned(), by_delete_id: false })
        } else {
            Progress::Done
        };
    }
    if !status.is_success() {
        return Progress::Failed(format_error_body(printed, body, parsed));
    }
    let state = match parsed {
        Some(doc) => DeletionStatus::read(doc, delete_id),
        None => DeletionStatus::Unknown,
    };
    match state {
        DeletionStatus::Complete => Progress::Done,
        DeletionStatus::Failed(message) => Progress::Failed(message),
        DeletionStatus::InProgress => Progress::Pending,
        DeletionStatus::Unknown => Progress::Pending,
    }
}

/// What the answer to a lookup of the room means.
pub fn interpret_room_lookup(status: HttpStatus, printed: &str, body: &str, parsed: Option<&Json>) -> (verdict:
    Progress)
    ensures
        verdict@ == removal_progress(status, printed@, body@, doc_view(parsed)),
{
    if status.is_not_found() {
        Progress::Done
    } else if !status.is_success() {
        Progress::Failed(format_error_body(printed, body, parsed))
    } else {
        Progress::Pending
    }
}

} // verus!
