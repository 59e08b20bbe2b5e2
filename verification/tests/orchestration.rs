use synapse_admin::orchestrator::{
    poll_delete_status, request_synapse_hard_delete, wait_for_room_removal, Action, Awaited,
    OperationOutcome, POLL_INTERVAL_MS, PURGE_TIMED_OUT, ROOM_STILL_PRESENT, TIME_BUDGET_MS,
};
use synapse_admin::verdict::Watch;
use synapse_admin::request::{ApiVariant, Method, Target};
use synapse_admin::status::HttpStatus;

const V2_URL: &str = "https://example.org/_synapse/admin/v2/rooms/%21room%3Aexample.org";
const V1_URL: &str = "https://example.org/_synapse/admin/v1/rooms/%21room%3Aexample.org";
const LEGACY_URL: &str = "https://example.org/_synapse/admin/v1/rooms/%21room%3Aexample.org/delete";
const JOB_URL: &str = "https://example.org/_synapse/admin/v2/rooms/delete_status/d1";
const ROOM_JOBS_URL: &str =
    "https://example.org/_synapse/admin/v2/rooms/%21room%3Aexample.org/delete_status";

struct Run {
    outcome: OperationOutcome,
    sent: Vec<(Method, String)>,
    pauses: Vec<u64>,
    clock: u64,
}

fn target() -> Target {
    Target::new("https://example.org/", "secret", "!room:example.org", "@admin:example.org")
}

fn start() -> Action {
    request_synapse_hard_delete(
        "https://example.org/",
        "secret",
        "!room:example.org",
        "@admin:example.org",
    )
}

/// Plays the answers in turn, the last one again and again; a pause moves
/// the clock by its length, an answer takes `latency`.
fn play(first: Action, answers: &[(u16, &str)], latency: u64) -> Run {
    let mut action = first;
    let mut sent = Vec::new();
    let mut pauses = Vec::new();
    let mut clock: u64 = 0;
    loop {
        match action {
            Action::Send(request, state) => {
                let (code, body) = answers[sent.len().min(answers.len() - 1)];
                sent.push((request.method, request.url));
                clock += latency;
                action = state.on_response(HttpStatus::new(code).unwrap(), body, clock);
            }
            Action::Sleep(millis, state) => {
                pauses.push(millis);
                clock += millis;
                action = state.on_wake(clock);
            }
            Action::Finish(outcome) => return Run { outcome, sent, pauses, clock },
        }
    }
}

fn failure(message: &str) -> OperationOutcome {
    OperationOutcome::Failure(message.to_string())
}

fn urls(run: &Run) -> Vec<&str> {
    run.sent.iter().map(|(_, url)| url.as_str()).collect()
}

#[test]
fn budget_and_interval() {
    assert_eq!(TIME_BUDGET_MS, 90_000);
    assert_eq!(POLL_INTERVAL_MS, 1_500);
    assert_eq!(PURGE_TIMED_OUT, "Timed out waiting for Synapse room purge completion.");
    assert_eq!(
        ROOM_STILL_PRESENT,
        "Synapse still reports this room after deletion. Purge did not complete."
    );
}

#[test]
fn operation_begins_with_version_two() {
    match start() {
        Action::Send(request, state) => {
            assert_eq!(request.method, Method::Delete);
            assert_eq!(request.url, V2_URL);
            assert_eq!(request.authorization, "Bearer secret");
            let body = request.body.unwrap();
            assert!(body.block && body.purge && body.force_purge);
            assert_eq!(body.requester_user_id, "@admin:example.org");
            assert_eq!(state.awaited, Awaited::Initiation(ApiVariant::V2));
            assert!(state.target == target());
        }
        _ => panic!("unexpected action"),
    }
}

#[test]
fn unsupported_variants_fall_back_in_order() {
    let run = play(start(), &[(404, ""), (405, ""), (200, "{}"), (404, "")], 10);
    assert_eq!(run.outcome, OperationOutcome::Success);
    assert_eq!(
        run.sent,
        vec![
            (Method::Delete, V2_URL.to_string()),
            (Method::Delete, V1_URL.to_string()),
            (Method::Post, LEGACY_URL.to_string()),
            (Method::Get, V1_URL.to_string()),
        ]
    );
    assert!(run.pauses.is_empty());
}

#[test]
fn method_not_allowed_falls_back_too() {
    let run = play(start(), &[(405, "nope"), (200, ""), (404, "")], 10);
    assert_eq!(run.outcome, OperationOutcome::Success);
    assert_eq!(urls(&run), vec![V2_URL, V1_URL, V1_URL]);
    assert_eq!(run.sent[1].0, Method::Delete);
    assert_eq!(run.sent[2].0, Method::Get);
}

#[test]
fn legacy_unsupported_fails_with_server_error() {
    let run = play(start(), &[(404, ""), (404, ""), (404, "{\"error\": \"Unrecognized request\"}")], 10);
    assert_eq!(run.outcome, failure("404 Not Found: Unrecognized request"));
    assert_eq!(urls(&run), vec![V2_URL, V1_URL, LEGACY_URL]);

    let run = play(start(), &[(404, ""), (404, ""), (405, "")], 10);
    assert_eq!(run.outcome, failure("HTTP 405 Method Not Allowed"));
    assert_eq!(run.sent.len(), 3);
}

#[test]
fn refusal_ends_the_operation_at_once() {
    let run = play(start(), &[(403, "{\"error\": \"You are not a server admin\"}")], 10);
    assert_eq!(run.outcome, failure("403 Forbidden: You are not a server admin"));
    assert_eq!(urls(&run), vec![V2_URL]);

    let run = play(start(), &[(404, ""), (500, "oops")], 10);
    assert_eq!(run.outcome, failure("500 Internal Server Error: oops"));
    assert_eq!(urls(&run), vec![V2_URL, V1_URL]);

    let run = play(start(), &[(301, "")], 10);
    assert_eq!(run.outcome, failure("HTTP 301 Moved Permanently"));
}

#[test]
fn job_is_polled_by_delete_id_first() {
    let run = play(
        start(),
        &[(200, "{\"delete_id\": \"d1\"}"), (200, "{\"status\": \"complete\"}"), (404, "")],
        10,
    );
    assert_eq!(run.outcome, OperationOutcome::Success);
    assert_eq!(urls(&run), vec![V2_URL, JOB_URL, V1_URL]);
    assert_eq!(run.sent[1].0, Method::Get);
    assert!(run.pauses.is_empty());
}

#[test]
fn delete_id_is_encoded_in_the_path() {
    let run = play(
        start(),
        &[(200, "{\"delete_id\": \"a/b c\"}"), (200, "{\"status\": \"complete\"}"), (404, "")],
        10,
    );
    assert_eq!(
        run.sent[1].1,
        "https://example.org/_synapse/admin/v2/rooms/delete_status/a%2Fb%20c"
    );
}

#[test]
fn route_switch_takes_no_pause_and_is_kept() {
    let run = play(
        start(),
        &[
            (200, "{\"delete_id\": \"d1\"}"),
            (404, ""),
            (200, "{\"results\": [{\"delete_id\": \"d1\", \"status\": \"purging\"}]}"),
            (200, "{\"results\": [{\"delete_id\": \"d1\", \"status\": \"purging\"}]}"),
            (200, "{\"results\": [{\"delete_id\": \"d1\", \"status\": \"complete\"}]}"),
            (404, ""),
        ],
        10,
    );
    assert_eq!(run.outcome, OperationOutcome::Success);
    assert_eq!(
        urls(&run),
        vec![V2_URL, JOB_URL, ROOM_JOBS_URL, ROOM_JOBS_URL, ROOM_JOBS_URL, V1_URL]
    );
    assert_eq!(run.pauses, vec![1_500, 1_500]);
}

#[test]
fn missing_status_routes_end_polling_in_success() {
    let run = play(start(), &[(200, "{\"delete_id\": \"d1\"}"), (404, ""), (405, ""), (404, "")], 10);
    assert_eq!(run.outcome, OperationOutcome::Success);
    assert_eq!(urls(&run), vec![V2_URL, JOB_URL, ROOM_JOBS_URL, V1_URL]);
    assert!(run.pauses.is_empty());
}

#[test]
fn failed_job_ends_the_operation_without_lookup() {
    let run = play(
        start(),
        &[(200, "{\"delete_id\": \"d1\"}"), (200, "{\"status\": \"failed\", \"error\": \"boom\"}")],
        10,
    );
    assert_eq!(run.outcome, failure("boom"));
    assert_eq!(urls(&run), vec![V2_URL, JOB_URL]);

    let run = play(start(), &[(200, "{\"delete_id\": \"d1\"}"), (200, "{\"status\": \"FAILED\"}")], 10);
    assert_eq!(run.outcome, failure("Synapse room deletion failed."));
}

#[test]
fn server_error_while_polling_is_final() {
    let run = play(start(), &[(200, "{\"delete_id\": \"d1\"}"), (500, "{\"error\": \"db down\"}")], 10);
    assert_eq!(run.outcome, failure("500 Internal Server Error: db down"));
    assert_eq!(run.sent.len(), 2);
}

#[test]
fn results_array_is_matched_by_id_in_a_poll() {
    let body = "{\"results\": [{\"delete_id\": \"abc\", \"status\": \"in_progress\"}, \
                {\"delete_id\": \"xyz\", \"status\": \"complete\"}]}";
    let run = play(poll_delete_status(target(), "xyz", 0), &[(200, body), (404, "")], 10);
    assert_eq!(run.outcome, OperationOutcome::Success);
    assert!(run.pauses.is_empty());

    let run = play(poll_delete_status(target(), "none", 0), &[(200, body), (404, ""), (404, "")], 10);
    assert_eq!(run.pauses, vec![1_500]);
}

#[test]
fn job_that_never_finishes_times_out() {
    let run = play(
        start(),
        &[(200, "{\"delete_id\": \"d1\"}"), (200, "{\"status\": \"purging\"}")],
        0,
    );
    assert_eq!(run.outcome, failure("Timed out waiting for Synapse room purge completion."));
    assert_eq!(run.sent.len(), 1 + 60);
    assert_eq!(run.pauses.len(), 60);
    assert_eq!(run.clock, 90_000);
}

#[test]
fn unreadable_status_body_keeps_polling() {
    let run = play(
        start(),
        &[(200, "{\"delete_id\": \"d1\"}"), (200, "not json"), (200, ""), (200, "{\"status\": \"complete\"}"), (404, "")],
        10,
    );
    assert_eq!(run.outcome, OperationOutcome::Success);
    assert_eq!(run.pauses, vec![1_500, 1_500]);
}

#[test]
fn version_one_starts_no_job() {
    let run = play(start(), &[(404, ""), (200, "{\"delete_id\": \"d1\"}"), (404, "")], 10);
    assert_eq!(run.outcome, OperationOutcome::Success);
    assert_eq!(urls(&run), vec![V2_URL, V1_URL, V1_URL]);
}

#[test]
fn delete_id_must_be_text() {
    let run = play(start(), &[(200, "{\"delete_id\": 7}"), (404, "")], 10);
    assert_eq!(urls(&run), vec![V2_URL, V1_URL]);
    let run = play(start(), &[(200, "no json"), (404, "")], 10);
    assert_eq!(urls(&run), vec![V2_URL, V1_URL]);
    assert_eq!(run.outcome, OperationOutcome::Success);
}

#[test]
fn room_gone_is_success() {
    let run = play(wait_for_room_removal(target(), 5), &[(404, "")], 10);
    assert_eq!(run.outcome, OperationOutcome::Success);
    assert_eq!(run.sent, vec![(Method::Get, V1_URL.to_string())]);
}

#[test]
fn room_still_present_times_out() {
    let run = play(wait_for_room_removal(target(), 0), &[(200, "{\"room_id\": \"!room:example.org\"}")], 0);
    assert_eq!(
        run.outcome,
        failure("Synapse still reports this room after deletion. Purge did not complete.")
    );
    assert_eq!(run.sent.len(), 60);
    assert_eq!(run.pauses, vec![1_500; 60]);
    assert_eq!(run.clock, 90_000);
}

#[test]
fn lookup_errors_are_final() {
    let run = play(wait_for_room_removal(target(), 0), &[(405, "")], 10);
    assert_eq!(run.outcome, failure("HTTP 405 Method Not Allowed"));
    let run = play(wait_for_room_removal(target(), 0), &[(200, ""), (401, "{\"error\": \"expired\"}")], 10);
    assert_eq!(run.outcome, failure("401 Unauthorized: expired"));
    assert_eq!(run.pauses, vec![1_500]);
}

#[test]
fn deadline_is_checked_before_each_poll() {
    match wait_for_room_removal(target(), 1_000) {
        Action::Send(_, state) => {
            assert_eq!(state.awaited, Awaited::Poll { watch: Watch::Room, started: 1_000 });
            match state.on_response(HttpStatus::new(200).unwrap(), "", 2_000) {
                Action::Sleep(millis, paused) => {
                    assert_eq!(millis, 1_500);
                    assert_eq!(paused.started, 1_000);
                    assert!(matches!(
                        wait_then_wake(wait_for_room_removal(target(), 1_000), 90_999),
                        Action::Send(..)
                    ));
                    assert!(
                        paused.on_wake(91_000)
                            == Action::Finish(failure(
                                "Synapse still reports this room after deletion. Purge did not complete."
                            ))
                    );
                }
                _ => panic!("unexpected action"),
            }
        }
        _ => panic!("unexpected action"),
    }
}

fn wait_then_wake(first: Action, woken: u64) -> Action {
    match first {
        Action::Send(_, state) => match state.on_response(HttpStatus::new(200).unwrap(), "", 0) {
            Action::Sleep(_, paused) => paused.on_wake(woken),
            other => other,
        },
        other => other,
    }
}

#[test]
fn clock_that_runs_backwards_does_not_end_a_watch() {
    assert!(matches!(wait_then_wake(wait_for_room_removal(target(), 50_000), 10), Action::Send(..)));
    assert!(matches!(
        wait_then_wake(wait_for_room_removal(target(), u64::MAX), u64::MAX),
        Action::Send(..)
    ));
}

#[test]
fn late_route_switch_times_out() {
    match poll_delete_status(target(), "d1", 0) {
        Action::Send(_, state) => {
            assert!(
                state.on_response(HttpStatus::new(404).unwrap(), "", 90_000)
                    == Action::Finish(failure("Timed out waiting for Synapse room purge completion."))
            );
        }
        _ => panic!("unexpected action"),
    }
}

#[test]
fn lookup_gets_a_budget_of_its_own() {
    match poll_delete_status(target(), "d1", 0) {
        Action::Send(_, state) => {
            match state.on_response(HttpStatus::new(200).unwrap(), "{\"status\": \"complete\"}", 89_999) {
                Action::Send(request, lookup) => {
                    assert_eq!(request.url, V1_URL);
                    assert_eq!(lookup.awaited, Awaited::Poll { watch: Watch::Room, started: 89_999 });
                }
                _ => panic!("unexpected action"),
            }
        }
        _ => panic!("unexpected action"),
    }
}

fn network_failure_after(answers: &[(u16, &str)]) -> OperationOutcome {
    let mut action = start();
    let mut answered = 0;
    loop {
        match action {
            Action::Send(_, state) => {
                if answered == answers.len() {
                    action = state.on_network_error("connection refused");
                } else {
                    let (code, body) = answers[answered];
                    answered += 1;
                    action = state.on_response(HttpStatus::new(code).unwrap(), body, 0);
                }
            }
            Action::Sleep(_, state) => action = state.on_wake(0),
            Action::Finish(outcome) => return outcome,
        }
    }
}

#[test]
fn network_errors_name_their_phase() {
    assert_eq!(
        network_failure_after(&[]),
        failure("Network error while deleting room: connection refused")
    );
    assert_eq!(
        network_failure_after(&[(404, "")]),
        failure("Network error while deleting room (v1): connection refused")
    );
    assert_eq!(
        network_failure_after(&[(404, ""), (405, "")]),
        failure("Network error while deleting room (legacy): connection refused")
    );
    assert_eq!(
        network_failure_after(&[(200, "{\"delete_id\": \"d1\"}")]),
        failure("Network error while polling delete status: connection refused")
    );
    assert_eq!(
        network_failure_after(&[(200, "{\"delete_id\": \"d1\"}"), (404, "")]),
        failure("Network error while polling delete status: connection refused")
    );
    assert_eq!(
        network_failure_after(&[(200, "{}")]),
        failure("Network error while verifying room purge: connection refused")
    );
    assert_eq!(
        network_failure_after(&[(200, "{\"delete_id\": \"d1\"}"), (200, "{\"status\": \"complete\"}"), (200, "")]),
        failure("Network error while verifying room purge: connection refused")
    );
}

#[test]
fn end_to_end_job_completes_and_room_is_gone() {
    let run = play(
        start(),
        &[(200, "{\"delete_id\": \"d1\"}"), (200, "{\"status\":\"complete\"}"), (404, "")],
        25,
    );
    assert_eq!(run.outcome, OperationOutcome::Success);
    assert_eq!(
        run.sent,
        vec![
            (Method::Delete, V2_URL.to_string()),
            (Method::Get, JOB_URL.to_string()),
            (Method::Get, V1_URL.to_string()),
        ]
    );
    assert_eq!(run.pauses.len(), 0);
}

#[test]
fn end_to_end_version_one_and_room_stays() {
    let run = play(start(), &[(404, ""), (200, ""), (200, "{}")], 0);
    assert_eq!(
        run.outcome,
        failure("Synapse still reports this room after deletion. Purge did not complete.")
    );
    assert_eq!(run.sent.len(), 2 + 60);
    assert_eq!(run.sent[0], (Method::Delete, V2_URL.to_string()));
    assert_eq!(run.sent[1], (Method::Delete, V1_URL.to_string()));
    assert!(run.sent[2..].iter().all(|(method, url)| *method == Method::Get && url == V1_URL));
    assert_eq!(run.pauses, vec![1_500; 60]);
}
