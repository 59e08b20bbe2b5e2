//! What holds of the operation whatever the server answers.

use crate::errors::{error_message, stated_error};
use crate::json::JsonView;
use crate::orchestrator::{
    after_reply,
    after_wake,
    begin,
    poll,
    ActionView,
    AwaitedView,
    InFlightView,
    OutcomeView,
    PausedView,
    POLL_INTERVAL_MS,
    ROOM_STILL_PRESENT,
    PURGE_TIMED_OUT,
    within_budget,
};
use crate::request::{
    deletion_body,
    initiating_request,
    job_request,
    room_request,
    ApiVariant,
    RequestView,
    TargetView,
};
use crate::status::HttpStatus;
use crate::text::{is_blank, strip_trailing};
use crate::verdict::{job_progress, ProgressView, WatchView};
use vstd::prelude::*;

verus! {

/// The place of a variant in the order of preference.
pub open spec fn rank(variant: ApiVariant) -> int {
    match variant {
        ApiVariant::V2 => 0,
        ApiVariant::V1 => 1,
        ApiVariant::Legacy => 2,
    }
}

/// The initiating variant that an action asks for, if it asks for one.
pub open spec fn initiates(action: ActionView) -> Option<ApiVariant> {
    match action {
        ActionView::Send(_, InFlightView { awaited: AwaitedView::Initiation(variant), .. }) => Some(
            variant,
        ),
        _ => None,
    }
}

/// Whether an action asks for a job by the job's identifier, now or after
/// a pause.
pub open spec fn asks_by_delete_id(action: ActionView) -> bool {
    match action {
        ActionView::Send(
            _,
            InFlightView { awaited: AwaitedView::Poll { watch: WatchView::Job { by_delete_id, .. }, .. }, .. },
        ) => by_delete_id,
        ActionView::Sleep(_, PausedView { watch: WatchView::Job { by_delete_id, .. }, .. }) => by_delete_id,
        _ => false,
    }
}

/// Whether a request goes to the server of `target`, with its credential.
pub open spec fn directed_at(request: RequestView, target: TargetView) -> bool {
    &&& request.authorization == target.authorization
    &&& request.url.len() >= target.base_url.len()
    &&& request.url.subrange(0, target.base_url.len() as int) == target.base_url
}

/// Whether an action belongs to the operation on `target`: what it sends
/// goes to that server with its credential, a body goes out with the
/// initiating requests and with no other, and the state that it holds is
/// still about `target`.
pub open spec fn belongs_to(action: ActionView, target: TargetView) -> bool {
    match action {
        ActionView::Send(request, state) => {
            &&& state.target == target
            &&& directed_at(request, target)
            &&& match state.awaited {
                AwaitedView::Initiation(_) => request.body == Some(
                    deletion_body(target.requester_user_id),
                ),
                AwaitedView::Poll { .. } => request.body is None,
            }
        },
        ActionView::Sleep(millis, state) => state.target == target && millis == 1_500,
        ActionView::Finish(_) => true,
    }
}

/// Every action of an operation belongs to it: the first, and whatever
/// follows an answer or a pause.
pub proof fn law_actions_belong_to_the_operation(
    state: InFlightView,
    paused: PausedView,
    status: HttpStatus,
    printed: Seq<char>,
    body: Seq<char>,
    parsed: Option<JsonView>,
    now: u64,
)
    ensures
        belongs_to(begin(state.target), state.target),
        belongs_to(after_reply(state, status, printed, body, parsed, now), state.target),
        belongs_to(after_wake(paused, now), paused.target),
{
    let target = state.target;
    let base = target.base_url;
    assert forall|path: Seq<char>| (#[trigger] (base + path)).subrange(0, base.len() as int) == base by {
        assert((base + path).subrange(0, base.len() as int) =~= base);
    }
    let base = paused.target.base_url;
    assert forall|path: Seq<char>| (#[trigger] (base + path)).subrange(0, base.len() as int) == base by {
        assert((base + path).subrange(0, base.len() as int) =~= base);
    }
}

/// The operation starts with the newest variant, and the variant that
/// follows one is the next in the order of preference: none is skipped and
/// none comes back.
pub proof fn law_variants_in_order(target: TargetView, variant: ApiVariant)
    ensures
        initiates(begin(target)) == Some(ApiVariant::V2),
        rank(ApiVariant::V2) == 0,
        variant.successor() matches Some(next) ==> rank(next) == rank(variant) + 1,
        variant.successor() is None <==> variant == ApiVariant::Legacy,
{
}

/// A 404 or 405 in answer to a variant that has a successor makes the
/// initiating request of that successor the next action.
pub proof fn law_unsupported_variant_falls_back(
    target: TargetView,
    variant: ApiVariant,
    status: HttpStatus,
    printed: Seq<char>,
    body: Seq<char>,
    parsed: Option<JsonView>,
    now: u64,
)
    requires
        status.route_unsupported(),
        variant.successor() is Some,
    ensures
        after_reply(
            InFlightView { target, awaited: AwaitedView::Initiation(variant) },
            status,
            printed,
            body,
            parsed,
            now,
        ) == ActionView::Send(
            initiating_request(target, variant.successor()->0),
            InFlightView { target, awaited: AwaitedView::Initiation(variant.successor()->0) },
        ),
{
}

/// An initiating request is only ever the answer to a 404 or 405 on the
/// variant before it: once a server has answered a variant in any other
/// way, no further variant is tried, and none is tried after a pause.
pub proof fn law_only_unsupported_falls_back(
    state: InFlightView,
    paused: PausedView,
    status: HttpStatus,
    printed: Seq<char>,
    body: Seq<char>,
    parsed: Option<JsonView>,
    now: u64,
)
    ensures
        initiates(after_reply(state, status, printed, body, parsed, now)) matches Some(next) ==> {
            &&& status.route_unsupported()
            &&& state.awaited matches AwaitedView::Initiation(variant)
            &&& variant.successor() == Some(next)
        },
        initiates(after_wake(paused, now)) is None,
{
}

/// A 404 or 405 in answer to the last variant fails the operation with the
/// message made from that response.
pub proof fn law_last_variant_unsupported_fails(
    target: TargetView,
    status: HttpStatus,
    printed: Seq<char>,
    body: Seq<char>,
    parsed: Option<JsonView>,
    now: u64,
)
    requires
        status.route_unsupported(),
    ensures
        after_reply(
            InFlightView { target, awaited: AwaitedView::Initiation(ApiVariant::Legacy) },
            status,
            printed,
            body,
            parsed,
            now,
        ) == ActionView::Finish(OutcomeView::Failure(error_message(printed, body, parsed))),
{
}

/// When version 2 answers with a 2xx and names a job, the next action asks
/// for that job by the job's identifier, and the job's time starts then.
pub proof fn law_job_is_polled_by_delete_id_first(
    target: TargetView,
    status: HttpStatus,
    printed: Seq<char>,
    body: Seq<char>,
    doc: JsonView,
    delete_id: Seq<char>,
    now: u64,
)
    requires
        status.success(),
        doc.get_str("delete_id"@) == Some(delete_id),
    ensures
        after_reply(
            InFlightView { target, awaited: AwaitedView::Initiation(ApiVariant::V2) },
            status,
            printed,
            body,
            Some(doc),
            now,
        ) == ActionView::Send(
            job_request(target, delete_id, true),
            InFlightView {
                target,
                awaited: AwaitedView::Poll {
                    watch: WatchView::Job { delete_id, by_delete_id: true },
                    started: now,
                },
            },
        ),
{
}

/// A 404 or 405 on the route by job makes the request on the route by
/// room the next action, with no pause between, while the job's time
/// lasts.
pub proof fn law_route_switch_takes_no_pause(
    target: TargetView,
    delete_id: Seq<char>,
    started: u64,
    status: HttpStatus,
    printed: Seq<char>,
    body: Seq<char>,
    parsed: Option<JsonView>,
    now: u64,
)
    requires
        status.route_unsupported(),
        within_budget(started, now),
    ensures
        after_reply(
            InFlightView {
                target,
                awaited: AwaitedView::Poll {
                    watch: WatchView::Job { delete_id, by_delete_id: true },
                    started,
                },
            },
            status,
            printed,
            body,
            parsed,
            now,
        ) == ActionView::Send(
            job_request(target, delete_id, false),
            InFlightView {
                target,
                awaited: AwaitedView::Poll {
                    watch: WatchView::Job { delete_id, by_delete_id: false },
                    started,
                },
            },
        ),
{
}

/// Once a job is asked for by room it is never again asked for by its
/// identifier: not after an answer, and not after a pause.
pub proof fn law_route_switch_is_kept(
    target: TargetView,
    delete_id: Seq<char>,
    started: u64,
    status: HttpStatus,
    printed: Seq<char>,
    body: Seq<char>,
    parsed: Option<JsonView>,
    now: u64,
)
    ensures
        !asks_by_delete_id(
            after_reply(
                InFlightView {
                    target,
                    awaited: AwaitedView::Poll {
                        watch: WatchView::Job { delete_id, by_delete_id: false },
                        started,
                    },
                },
                status,
                printed,
                body,
                parsed,
                now,
            ),
        ),
        !asks_by_delete_id(
            after_wake(
                PausedView { target, watch: WatchView::Job { delete_id, by_delete_id: false }, started },
                now,
            ),
        ),
{
}

/// A 404 or 405 on the route by room ends the polling of the job in
/// success: no further request asks for the job, and the next action is
/// the first lookup of the room.
pub proof fn law_no_status_route_ends_polling(
    target: TargetView,
    delete_id: Seq<char>,
    started: u64,
    status: HttpStatus,
    printed: Seq<char>,
    body: Seq<char>,
    parsed: Option<JsonView>,
    now: u64,
)
    requires
        status.route_unsupported(),
    ensures
        job_progress(false, delete_id, status, printed, body, parsed) == ProgressView::Done,
        after_reply(
            InFlightView {
                target,
                awaited: AwaitedView::Poll {
                    watch: WatchView::Job { delete_id, by_delete_id: false },
                    started,
                },
            },
            status,
            printed,
            body,
            parsed,
            now,
        ) == ActionView::Send(
            room_request(target),
            InFlightView { target, awaited: AwaitedView::Poll { watch: WatchView::Room, started: now } },
        ),
{
}

/// A 404 in answer to a lookup of the room ends the operation in success.
pub proof fn law_room_gone_is_success(
    target: TargetView,
    started: u64,
    status: HttpStatus,
    printed: Seq<char>,
    body: Seq<char>,
    parsed: Option<JsonView>,
    now: u64,
)
    requires
        status.not_found(),
    ensures
        after_reply(
            InFlightView { target, awaited: AwaitedView::Poll { watch: WatchView::Room, started } },
            status,
            printed,
            body,
            parsed,
            now,
        ) == ActionView::Finish(OutcomeView::Success),
{
}

/// A 2xx in answer to a lookup of the room is followed by a pause of one
/// interval; the lookup after the pause is sent while the time lasts, and
/// when it has run out the operation fails and says that the room is
/// still there.
pub proof fn law_room_still_present_times_out(
    target: TargetView,
    started: u64,
    status: HttpStatus,
    printed: Seq<char>,
    body: Seq<char>,
    parsed: Option<JsonView>,
    now: u64,
    woken: u64,
)
    requires
        status.success(),
    ensures
        after_reply(
            InFlightView { target, awaited: AwaitedView::Poll { watch: WatchView::Room, started } },
            status,
            printed,
            body,
            parsed,
            now,
        ) == ActionView::Sleep(POLL_INTERVAL_MS, PausedView { target, watch: WatchView::Room, started }),
        woken < started + 90_000 ==> after_wake(
            PausedView { target, watch: WatchView::Room, started },
            woken,
        ) == ActionView::Send(
            room_request(target),
            InFlightView { target, awaited: AwaitedView::Poll { watch: WatchView::Room, started } },
        ),
        woken >= started + 90_000 ==> after_wake(
            PausedView { target, watch: WatchView::Room, started },
            woken,
        ) == ActionView::Finish(OutcomeView::Failure(ROOM_STILL_PRESENT@)),
{
}

/// A job that is still polled when its time has run out fails the
/// operation with the message about the purge.
pub proof fn law_job_times_out(target: TargetView, delete_id: Seq<char>, by_delete_id: bool, started: u64, woken: u64)
    requires
        woken >= started + 90_000,
    ensures
        after_wake(
            PausedView { target, watch: WatchView::Job { delete_id, by_delete_id }, started },
            woken,
        ) == ActionView::Finish(OutcomeView::Failure(PURGE_TIMED_OUT@)),
{
}

/// A watch always gets its first poll: its time has not run out at the
/// moment at which it starts.
pub proof fn law_first_poll_is_sent(target: TargetView, watch: WatchView, now: u64)
    ensures
        poll(target, watch, now, now) is Send,
{
}

/// A watch polls exactly while less than ninety seconds have passed since
/// it started; from then on it ends the operation in failure.
pub proof fn law_polls_stop_at_the_deadline(
    target: TargetView,
    watch: WatchView,
    started: u64,
    now: u64,
)
    ensures
        poll(target, watch, started, now) is Send <==> now < started + 90_000,
        !(poll(target, watch, started, now) is Send) ==> poll(target, watch, started, now) matches
            ActionView::Finish(OutcomeView::Failure(_)),
{
}

/// One more slash at the end of a base address changes nothing.
pub proof fn law_trailing_slash_is_immaterial(base_url: Seq<char>)
    ensures
        strip_trailing(base_url.push('/'), '/') == strip_trailing(base_url, '/'),
{
    assert(base_url.push('/').drop_last() == base_url);
}

/// A normalized base address does not end in a slash, and is the address
/// given but for slashes at its end.
pub proof fn law_normalized_base_url(base_url: Seq<char>)
    ensures
        strip_trailing(base_url, '/').len() > 0 ==> strip_trailing(base_url, '/').last() != '/',
        strip_trailing(base_url, '/').len() <= base_url.len(),
        strip_trailing(base_url, '/') == base_url.subrange(0, strip_trailing(base_url, '/').len() as int),
        forall|i: int|
            strip_trailing(base_url, '/').len() <= i < base_url.len() ==> base_url[i] == '/',
    decreases base_url.len(),
{
    if base_url.len() > 0 && base_url.last() == '/' {
        let shorter = base_url.drop_last();
        law_normalized_base_url(shorter);
        assert forall|i: int|
            strip_trailing(base_url, '/').len() <= i < base_url.len() implies base_url[i] == '/' by {
            if i < shorter.len() {
                assert(base_url[i] == shorter[i]);
            }
        }
    }
}

/// An error that is stated but blank is passed over: the message holds
/// the body as it came.
pub proof fn law_blank_error_is_passed_over(
    status: Seq<char>,
    body: Seq<char>,
    doc: JsonView,
    message: Seq<char>,
)
    requires
        body.len() > 0,
        doc.get_str("error"@) == Some(message),
        is_blank(message),
    ensures
        stated_error(doc) is None,
        error_message(status, body, Some(doc)) == status + ": "@ + body,
{
}

} // verus!
