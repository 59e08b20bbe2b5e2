//! What a deletion job's status payload says.

use crate::errors::{extract_nested_error, nested_error};
use crate::json::{Json, JsonView};
use crate::text::{eq_ignore_ascii_case, same_ignoring_ascii_case, same_text};
use vstd::prelude::*;

verus! {

/// The message of a job that failed without saying why.
pub const GENERIC_FAILURE: &'static str = "Synapse room deletion failed.";

/// Where a deletion job stands, as one poll shows it.
#[derive(Debug, PartialEq, Eq)]
pub enum DeletionStatus {
    /// The job has finished.
    Complete,
    /// The job has failed, with the reason.
    Failed(String),
    /// The job reports a status that is neither of the two above.
    InProgress,
    /// The payload names no status.
    Unknown,
}

/// What a `DeletionStatus` stands for.
pub enum DeletionStatusView {
    Complete,
    Failed(Seq<char>),
    InProgress,
    Unknown,
}

impl View for DeletionStatus {
    type V = DeletionStatusView;

    open spec fn view(&self) -> DeletionStatusView {
        match self {
            DeletionStatus::Complete => DeletionStatusView::Complete,
            DeletionStatus::Failed(message) => DeletionStatusView::Failed(message@),
            DeletionStatus::InProgress => DeletionStatusView::InProgress,
            DeletionStatus::Unknown => DeletionStatusView::Unknown,
        }
    }
}

/// Where the job stands, given the status and the error of a report:
/// `complete` and `failed` are read in any case of their letters, and a
/// failure without an error gets the generic message.
pub open spec fn deletion_status(report: (Option<Seq<char>>, Option<Seq<char>>)) -> DeletionStatusView {
    match report.0 {
        None => DeletionStatusView::Unknown,
        Some(status) => if same_ignoring_ascii_case(status, "complete"@) {
            DeletionStatusView::Complete
        } else if same_ignoring_ascii_case(status, "failed"@) {
            DeletionStatusView::Failed(
                match report.1 {
                    Some(message) => message,
                    None => GENERIC_FAILURE@,
                },
            )
        } else {
            DeletionStatusView::InProgress
        },
    }
}

/// Whether an entry of `results` reports on the job `delete_id`.
pub open spec fn names_job(entry: JsonView, delete_id: Seq<char>) -> bool {
    entry.get_str("delete_id"@) == Some(delete_id)
}

/// The place of the first entry that reports on the job `delete_id`; the
/// number of entries where none does.
pub open spec fn first_match(entries: Seq<JsonView>, delete_id: Seq<char>) -> int
    decreases entries.len(),
{
    if entries.len() == 0 {
        0
    } else if names_job(entries[0], delete_id) {
        0
    } else {
        1 + first_match(entries.drop_first(), delete_id)
    }
}

/// The entry to read: the first that reports on the job, else the first of
/// all.
pub open spec fn selected_entry(entries: Seq<JsonView>, delete_id: Seq<char>) -> Option<JsonView> {
    if entries.len() == 0 {
        None
    } else if first_match(entries, delete_id) < entries.len() {
        Some(entries[first_match(entries, delete_id)])
    } else {
        Some(entries[0])
    }
}

/// The status and the error that a payload reports for the job
/// `delete_id`: those at its top where it has a `status` there, else those
/// of the selected entry of `results`.
pub open spec fn job_report(payload: JsonView, delete_id: Seq<char>) -> (
    Option<Seq<char>>,
    Option<Seq<char>>,
) {
    if payload.get_str("status"@) is Some {
        (payload.get_str("status"@), nested_error(payload))
    } else {
        match payload.get("results"@) {
            Some(JsonView::Array(entries)) => match selected_entry(entries, delete_id) {
                Some(entry) => (entry.get_str("status"@), nested_error(entry)),
                None => (None, None),
            },
            _ => (None, None),
        }
    }
}

/// `first_match` is the least place of an entry that reports on the job.
pub proof fn lemma_first_match(entries: Seq<JsonView>, delete_id: Seq<char>)
    ensures
        0 <= first_match(entries, delete_id) <= entries.len(),
        first_match(entries, delete_id) < entries.len() ==> names_job(
            entries[first_match(entries, delete_id)],
            delete_id,
        ),
        forall|i: int|
            0 <= i < first_match(entries, delete_id) ==> !names_job(#[trigger] entries[i], delete_id),
    decreases entries.len(),
{
    if entries.len() > 0 && !names_job(entries[0], delete_id) {
        let rest = entries.drop_first();
        lemma_first_match(rest, delete_id);
        assert forall|i: int| 0 <= i < first_match(entries, delete_id) implies !names_job(
            #[trigger] entries[i],
            delete_id,
        ) by {
            if i > 0 {
                assert(entries[i] == rest[i - 1]);
            }
        }
    }
}

fn entry_names_job(entry: &Json, delete_id: &str) -> (yes: bool)
    ensures
        yes == names_job(entry@, delete_id@),
{
    match entry.get_str("delete_id") {
        Some(named) => same_text(named, delete_id),
        None => false,
    }
}

fn select_entry<'a>(entries: &'a Vec<Json>, delete_id: &str) -> (chosen: Option<&'a Json>)
    ensures
        chosen is Some <==> entries@.len() > 0,
        chosen matches Some(entry) ==> selected_entry(
            Seq::new(entries@.len(), |i: int| entries@[i]@),
            delete_id@,
        ) == Some(entry@),
{
    let ghost views = Seq::new(entries@.len(), |i: int| entries@[i]@);
    if entries.len() == 0 {
        return None;
    }
    let mut i: usize = 0;
    assert(views.subrange(0, views.len() as int) == views);
    while i < entries.len()
        invariant
            i <= entries@.len(),
            views == Seq::new(entries@.len(), |i: int| entries@[i]@),
            first_match(views, delete_id@) == i + first_match(
                views.subrange(i as int, views.len() as int),
                delete_id@,
            ),
        decreases entries@.len() - i,
    {
        let ghost rest = views.subrange(i as int, views.len() as int);
        assert(rest.drop_first() == views.subrange(i + 1, views.len() as int));
        assert(rest[0] == entries@[i as int]@);
        if entry_names_job(&entries[i], delete_id) {
            return Some(&entries[i]);
        }
        i = i + 1;
    }
    Some(&entries[0])
}

/// The status and the error that a payload reports for the job
/// `delete_id`.
pub fn parse_delete_status(payload: &Json, delete_id: &str) -> (report: (
    Option<String>,
    Option<String>,
))
    ensures
        (report.0.deep_view(), report.1.deep_view()) == job_report(payload@, delete_id@),
{
    if let Some(status) = payload.get_str("status") {
        return (Some(status.to_owned()), extract_nested_error(payload));
    }
    if let Some(results) = payload.get("results") {
        if let Some(entries) = results.as_array() {
            assert(results@->Array_0 == Seq::new(entries@.len(), |i: int| entries@[i]@));
            if let Some(entry) = select_entry(entries, delete_id) {
                let status = match entry.get_str("status") {
                    Some(status) => Some(status.to_owned()),
                    None => None,
                };
                return (status, extract_nested_error(entry));
            }
        }
    }
    (None, None)
}

impl DeletionStatus {
    /// Where the job stands, given the status and the error of a report.
    pub fn of_report(status: Option<String>, error: Option<String>) -> (state: DeletionStatus)
        ensures
            state@ == deletion_status((status.deep_view(), error.deep_view())),
    {
        match status {
            None => DeletionStatus::Unknown,
            Some(status) => if eq_ignore_ascii_case(status.as_str(), "complete") {
                DeletionStatus::Complete
            } else if eq_ignore_ascii_case(status.as_str(), "failed") {
                DeletionStatus::Failed(
                    match error {
                        Some(message) => message,
                        None => GENERIC_FAILURE.to_owned(),
                    },
                )
            } else {
                DeletionStatus::InProgress
            },
        }
    }

    /// Where the job `delete_id` stands according to `payload`.
    pub fn read(payload: &Json, delete_id: &str) -> (state: DeletionStatus)
        ensures
            state@ == deletion_status(job_report(payload@, delete_id@)),
    {
        let (status, error) = parse_delete_status(payload, delete_id);
        DeletionStatus::of_report(status, error)
    }
}

} // verus!
