//! The operation as a whole: a deletion is requested, its job is followed
//! where the server started one, and the room is looked up until it is gone.
//!
//! The library sends nothing and never waits. Each function here returns an
//! `Action` that says what the caller is to do next, and with it the state
//! to hand the result back to. Time is what the caller reads from a clock
//! of its own, in milliseconds; only differences between two readings
//! count.

use crate::json::{doc_view, parse, parsed_json, Json, JsonView};
use crate::request::{
    initiating_request,
    job_request,
    room_request,
    target_for,
    ApiVariant,
    Request,
    RequestView,
    Target,
    TargetView,
};
use crate::status::{status_display, status_text, HttpStatus};
use crate::text::concat2;
use crate::verdict::{
    initiation,
    interpret_initiation,
    interpret_job_status,
    interpret_room_lookup,
    job_progress,
    removal_progress,
    Initiation,
    InitiationView,
    Progress,
    ProgressView,
    Watch,
    WatchView,
};
use vstd::prelude::*;

verus! {

/// How long a job is followed, and how long a room is looked up, in
/// milliseconds.
pub const TIME_BUDGET_MS: u64 = 90_000;

/// The pause between two polls, in milliseconds.
pub const POLL_INTERVAL_MS: u64 = 1_500;

/// The message when a job has not finished in time.
pub const PURGE_TIMED_OUT: &'static str = "Timed out waiting for Synapse room purge completion.";

/// The message when the room is still there in the end.
pub const ROOM_STILL_PRESENT: &'static str =
    "Synapse still reports this room after deletion. Purge did not complete.";

/// How the operation ended.
#[derive(Debug, PartialEq, Eq)]
pub enum OperationOutcome {
    /// The room is confirmed gone.
    Success,
    /// The operation did not complete, with the reason.
    Failure(String),
}

/// What an `OperationOutcome` stands for.
pub enum OutcomeView {
    Success,
    Failure(Seq<char>),
}

impl View for OperationOutcome {
    type V = OutcomeView;

    open spec fn view(&self) -> OutcomeView {
        match self {
            OperationOutcome::Success => OutcomeView::Success,
            OperationOutcome::Failure(message) => OutcomeView::Failure(message@),
        }
    }
}

/// What the request in flight was sent for.
#[derive(Debug, PartialEq, Eq)]
pub enum Awaited {
    /// The answer to the initiating request of a variant.
    Initiation(ApiVariant),
    /// The answer to a poll that belongs to a watch begun at `started`.
    Poll { watch: Watch, started: u64 },
}

/// What an `Awaited` stands for.
pub enum AwaitedView {
    Initiation(ApiVariant),
    Poll { watch: WatchView, started: u64 },
}

impl View for Awaited {
    type V = AwaitedView;

    open spec fn view(&self) -> AwaitedView {
        match self {
            Awaited::Initiation(variant) => AwaitedView::Initiation(*variant),
            Awaited::Poll { watch, started } => AwaitedView::Poll { watch: watch@, started: *started },
        }
    }
}

/// The operation while one of its requests is in flight.
#[derive(PartialEq, Eq)]
pub struct InFlight {
    pub target: Target,
    pub awaited: Awaited,
}

/// What an `InFlight` stands for.
pub struct InFlightView {
    pub target: TargetView,
    pub awaited: AwaitedView,
}

impl View for InFlight {
    type V = InFlightView;

    open spec fn view(&self) -> InFlightView {
        InFlightView { target: self.target@, awaited: self.awaited@ }
    }
}

/// The operation while it pauses between two polls of a watch begun at
/// `started`.
#[derive(PartialEq, Eq)]
pub struct Paused {
    pub target: Target,
    pub watch: Watch,
    pub started: u64,
}

/// What a `Paused` stands for.
pub struct PausedView {
    pub target: TargetView,
    pub watch: WatchView,
    pub started: u64,
}

impl View for Paused {
    type V = PausedView;

    open spec fn view(&self) -> PausedView {
        PausedView { target: self.target@, watch: self.watch@, started: self.started }
    }
}

/// What the caller is to do next.
#[derive(PartialEq, Eq)]
pub enum Action {
    /// Send the request; hand the answer, or the reason why none came, to
    /// the state.
    Send(Request, InFlight),
    /// Pause for so many milliseconds, then wake the state.
    Sleep(u64, Paused),
    /// Nothing: the operation has ended.
    Finish(OperationOutcome),
}

/// What an `Action` stands for.
pub enum ActionView {
    Send(RequestView, InFlightView),
    Sleep(u64, PausedView),
    Finish(OutcomeView),
}

impl View for Action {
    type V = ActionView;

    open spec fn view(&self) -> ActionView {
        match self {
            Action::Send(request, state) => ActionView::Send(request@, state@),
            Action::Sleep(millis, state) => ActionView::Sleep(*millis, state@),
            Action::Finish(outcome) => ActionView::Finish(outcome@),
        }
    }
}

/// Whether a watch begun at `started` may still poll at `now`.
pub open spec fn within_budget(started: u64, now: u64) -> bool {
    now < started + TIME_BUDGET_MS
}

/// The request of one poll.
pub open spec fn poll_request(target: TargetView, watch: WatchView) -> RequestView {
    match watch {
        WatchView::Job { delete_id, by_delete_id } => job_request(target, delete_id, by_delete_id),
        WatchView::Room => room_request(target),
    }
}

/// The message when a watch runs out of time.
pub open spec fn timeout_message(watch: WatchView) -> Seq<char> {
    match watch {
        WatchView::Job { .. } => PURGE_TIMED_OUT@,
        WatchView::Room => ROOM_STILL_PRESENT@,
    }
}

/// The head of the polling loop, shared by both watches: poll while the
/// time budget lasts, else fail with the watch's timeout message.
pub open spec fn poll(target: TargetView, watch: WatchView, started: u64, now: u64) -> ActionView {
    if within_budget(started, now) {
        ActionView::Send(
            poll_request(target, watch),
            InFlightView { target, awaited: AwaitedView::Poll { watch, started } },
        )
    } else {
        ActionView::Finish(OutcomeView::Failure(timeout_message(watch)))
    }
}

/// The first action of the operation: the initiating request of the
/// newest variant.
pub open spec fn begin(target: TargetView) -> ActionView {
    ActionView::Send(
        initiating_request(target, ApiVariant::V2),
        InFlightView { target, awaited: AwaitedView::Initiation(ApiVariant::V2) },
    )
}

/// What follows the answer to an initiating request.
pub open spec fn after_initiation(target: TargetView, verdict: InitiationView, now: u64) -> ActionView {
    match verdict {
        InitiationView::Fallback(next) => ActionView::Send(
            initiating_request(target, next),
            InFlightView { target, awaited: AwaitedView::Initiation(next) },
        ),
        InitiationView::Refused(message) => ActionView::Finish(OutcomeView::Failure(message)),
        InitiationView::Completed => poll(target, WatchView::Room, now, now),
        InitiationView::JobStarted(delete_id) => poll(
            target,
            WatchView::Job { delete_id, by_delete_id: true },
            now,
            now,
        ),
    }
}

/// What follows the answer to a poll. A job that is done hands over to the
/// lookup of the room, which starts with a budget of its own; a retry goes
/// out at once, within the budget of the watch that it belongs to.
pub open spec fn after_poll(
    target: TargetView,
    watch: WatchView,
    started: u64,
    verdict: ProgressView,
    now: u64,
) -> ActionView {
    match verdict {
        ProgressView::Done => match watch {
            WatchView::Job { .. } => poll(target, WatchView::Room, now, now),
            WatchView::Room => ActionView::Finish(OutcomeView::Success),
        },
        ProgressView::Failed(message) => ActionView::Finish(OutcomeView::Failure(message)),
        ProgressView::Retry(other) => poll(target, other, started, now),
        ProgressView::Pending => ActionView::Sleep(
            POLL_INTERVAL_MS,
            PausedView { target, watch, started },
        ),
    }
}

/// What one answer to a poll means for its watch.
pub open spec fn progress(
    watch: WatchView,
    status: HttpStatus,
    printed: Seq<char>,
    body: Seq<char>,
    parsed: Option<JsonView>,
) -> ProgressView {
    match watch {
        WatchView::Job { delete_id, by_delete_id } => job_progress(
            by_delete_id,
            delete_id,
            status,
            printed,
            body,
            parsed,
        ),
        WatchView::Room => removal_progress(status, printed, body, parsed),
    }
}

/// What follows an answer that came at `now`, given the status as printed
/// and the document in the body.
pub open spec fn after_reply(
    state: InFlightView,
    status: HttpStatus,
    printed: Seq<char>,
    body: Seq<char>,
    parsed: Option<JsonView>,
    now: u64,
) -> ActionView {
    match state.awaited {
        AwaitedView::Initiation(variant) => after_initiation(
            state.target,
            initiation(variant, status, printed, body, parsed),
            now,
        ),
        AwaitedView::Poll { watch, started } => after_poll(
            state.target,
            watch,
            started,
            progress(watch, status, printed, body, parsed),
            now,
        ),
    }
}

/// How the message about a request that got no answer begins.
pub open spec fn network_error_prefix(awaited: AwaitedView) -> Seq<char> {
    match awaited {
        AwaitedView::Initiation(ApiVariant::V2) => "Network error while deleting room: "@,
        AwaitedView::Initiation(ApiVariant::V1) => "Network error while deleting room (v1): "@,
        AwaitedView::Initiation(ApiVariant::Legacy) => "Network error while deleting room (legacy): "@,
        AwaitedView::Poll { watch: WatchView::Job { .. }, .. } =>
            "Network error while polling delete status: "@,
        AwaitedView::Poll { watch: WatchView::Room, .. } => "Network error while verifying room purge: "@,
    }
}

/// What follows a request that got no answer: the operation fails, and
/// says in which phase and for what cause.
pub open spec fn after_network_error(state: InFlightView, cause: Seq<char>) -> ActionView {
    ActionView::Finish(OutcomeView::Failure(network_error_prefix(state.awaited) + cause))
}

/// What follows a pause that ended at `now`.
pub open spec fn after_wake(state: PausedView, now: u64) -> ActionView {
    poll(state.target, state.watch, state.started, now)
}

fn poll_for(target: Target, watch: Watch, started: u64, now: u64) -> (action: Action)
    ensures
        action@ == poll(target@, watch@, started, now),
{
    if now < started || now - started < TIME_BUDGET_MS {
        let request = match &watch {
            Watch::Job { delete_id, by_delete_id } => target.job_request(
                delete_id.as_str(),
                *by_delete_id,
            ),
            Watch::Room => target.room_request(),
        };
        Action::Send(request, InFlight { target, awaited: Awaited::Poll { watch, started } })
    } else {
        let message = match &watch {
            Watch::Job { .. } => PURGE_TIMED_OUT,
            Watch::Room => ROOM_STILL_PRESENT,
        };
        Action::Finish(OperationOutcome::Failure(message.to_owned()))
    }
}

/// Starts the hard deletion of `room_id` on the server at `base_url`: the
/// first action is the initiating request of the newest variant.
pub fn request_synapse_hard_delete(
    base_url: &str,
    access_token: &str,
    room_id: &str,
    requester_user_id: &str,
) -> (action: Action)
    ensures
        action@ == begin(target_for(base_url@, access_token@, room_id@, requester_user_id@)),
{
    let target = Target::new(base_url, access_token, room_id, requester_user_id);
    let request = target.initiating_request(ApiVariant::V2);
    Action::Send(request, InFlight { target, awaited: Awaited::Initiation(ApiVariant::V2) })
}

/// Starts to follow the job `delete_id` at `now`: the first poll asks for
/// the job by its identifier.
pub fn poll_delete_status(target: Target, delete_id: &str, now: u64) -> (action: Action)
    ensures
        action@ == poll(
            target@,
            WatchView::Job { delete_id: delete_id@, by_delete_id: true },
            now,
            now,
        ),
{
    poll_for(target, Watch::Job { delete_id: delete_id.to_owned(), by_delete_id: true }, now, now)
}

/// Starts to look the room up at `now`, until it is gone.
pub fn wait_for_room_removal(target: Target, now: u64) -> (action: Action)
    ensures
        action@ == poll(target@, WatchView::Room, now, now),
{
    poll_for(target, Watch::Room, now, now)
}

impl InFlight {
    /// What follows an answer that came at `now`, where the caller has
    /// printed the status and parsed the body.
    pub fn on_reply(
        self,
        status: HttpStatus,
        printed: &str,
        body: &str,
        parsed: Option<&Json>,
        now: u64,
    ) -> (action: Action)
        ensures
            action@ == after_reply(self@, status, printed@, body@, doc_view(parsed), now),
    {
        let InFlight { target, awaited } = self;
        match awaited {
            Awaited::Initiation(variant) => {
                match interpret_initiation(variant, status, printed, body, parsed) {
                    Initiation::Fallback(next) => {
                        let request = target.initiating_request(next);
                        Action::Send(request, InFlight { target, awaited: Awaited::Initiation(next) })
                    },
                    Initiation::Refused(message) => Action::Finish(
                        OperationOutcome::Failure(message),
                    ),
                    Initiation::Completed => poll_for(target, Watch::Room, now, now),
                    Initiation::JobStarted(delete_id) => poll_for(
                        target,
                        Watch::Job { delete_id, by_delete_id: true },
                        now,
                        now,
                    ),
                }
            },
            Awaited::Poll { watch, started } => {
                let verdict = match &watch {
                    Watch::Job { delete_id, by_delete_id } => interpret_job_status(
                        *by_delete_id,
                        delete_id.as_str(),
                        status,
                        printed,
                        body,
                        parsed,
                    ),
                    Watch::Room => interpret_room_lookup(status, printed, body, parsed),
                };
                match verdict {
                    Progress::Done => match watch {
                        Watch::Job { .. } => poll_for(target, Watch::Room, now, now),
                        Watch::Room => Action::Finish(OperationOutcome::Success),
                    },
                    Progress::Failed(message) => Action::Finish(OperationOutcome::Failure(message)),
                    Progress::Retry(other) => poll_for(target, other, started, now),
                    Progress::Pending => Action::Sleep(
                        POLL_INTERVAL_MS,
                        Paused { target, watch, started },
                    ),
                }
            },
        }
    }

    /// What follows an answer with the status `status` and the body `body`
    /// that came at `now`.
    pub fn on_response(self, status: HttpStatus, body: &str, now: u64) -> (action: Action)
        ensures
            action@ == after_reply(
                self@,
                status,
                status_display(status.code()),
                body@,
                parsed_json(body@),
                now,
            ),
    {
        let printed = status_text(status.as_u16());
        let parsed = parse(body);
        self.on_reply(status, printed.as_str(), body, parsed.as_ref(), now)
    }

    /// What follows when the request got no answer, for the cause given.
    pub fn on_network_error(self, cause: &str) -> (action: Action)
        ensures
            action@ == after_network_error(self@, cause@),
    {
        let prefix = match &self.awaited {
            Awaited::Initiation(ApiVariant::V2) => "Network error while deleting room: ",
            Awaited::Initiation(ApiVariant::V1) => "Network error while deleting room (v1): ",
            Awaited::Initiation(ApiVariant::Legacy) => "Network error while deleting room (legacy): ",
            Awaited::Poll { watch: Watch::Job { .. }, .. } => "Network error while polling delete status: ",
            Awaited::Poll { watch: Watch::Room, .. } => "Network error while verifying room purge: ",
        };
        Action::Finish(OperationOutcome::Failure(concat2(prefix, cause)))
    }
}

impl Paused {
    /// What follows a pause that ended at `now`.
    pub fn on_wake(self, now: u64) -> (action: Action)
        ensures
            action@ == after_wake(self@, now),
    {
        let Paused { target, watch, started } = self;
        poll_for(target, watch, started, now)
    }
}

} // verus!
