use synapse_admin::request::{ApiVariant, DeletionBody, Method, Target, JSON_CONTENT_TYPE};

fn example_target() -> Target {
    Target::new("https://example.org/", "secret", "!room:example.org", "@admin:example.org")
}

#[test]
fn target_is_normalized_and_encoded() {
    let target = example_target();
    assert_eq!(target.base_url, "https://example.org");
    assert_eq!(target.room, "%21room%3Aexample.org");
    assert_eq!(target.authorization, "Bearer secret");
    assert_eq!(target.requester_user_id, "@admin:example.org");
}

#[test]
fn unreserved_characters_stay() {
    let target = Target::new("h", "t", "AZaz09-._~", "u");
    assert_eq!(target.room, "AZaz09-._~");
}

#[test]
fn other_bytes_become_upper_case_hex() {
    let target = Target::new("h", "t", "a b/c?d#e%f+g", "u");
    assert_eq!(target.room, "a%20b%2Fc%3Fd%23e%25f%2Bg");
    let wide = Target::new("h", "t", "\u{1f47e} Exterminate!", "u");
    assert_eq!(wide.room, "%F0%9F%91%BE%20Exterminate%21");
    let edge = Target::new("h", "t", "\u{0}\u{7f}/@[`{", "u");
    assert_eq!(edge.room, "%00%7F%2F%40%5B%60%7B");
}

#[test]
fn variants_follow_in_order() {
    assert_eq!(ApiVariant::V2.next(), Some(ApiVariant::V1));
    assert_eq!(ApiVariant::V1.next(), Some(ApiVariant::Legacy));
    assert_eq!(ApiVariant::Legacy.next(), None);
    assert_eq!(ApiVariant::V2.method(), Method::Delete);
    assert_eq!(ApiVariant::V1.method(), Method::Delete);
    assert_eq!(ApiVariant::Legacy.method(), Method::Post);
}

#[test]
fn initiating_requests_on_the_wire() {
    let target = example_target();
    let body = DeletionBody {
        block: true,
        purge: true,
        force_purge: true,
        requester_user_id: "@admin:example.org".to_string(),
    };

    let v2 = target.initiating_request(ApiVariant::V2);
    assert_eq!(v2.method, Method::Delete);
    assert_eq!(v2.url, "https://example.org/_synapse/admin/v2/rooms/%21room%3Aexample.org");
    assert_eq!(v2.authorization, "Bearer secret");
    assert_eq!(v2.body, Some(body));

    let v1 = target.initiating_request(ApiVariant::V1);
    assert_eq!(v1.method, Method::Delete);
    assert_eq!(v1.url, "https://example.org/_synapse/admin/v1/rooms/%21room%3Aexample.org");
    assert!(v1.body.is_some());

    let legacy = target.initiating_request(ApiVariant::Legacy);
    assert_eq!(legacy.method, Method::Post);
    assert_eq!(
        legacy.url,
        "https://example.org/_synapse/admin/v1/rooms/%21room%3Aexample.org/delete"
    );
    assert_eq!(legacy.authorization, "Bearer secret");
    assert!(legacy.body.is_some());
}

#[test]
fn job_requests_on_the_wire() {
    let target = example_target();
    let by_id = target.job_request("job/1 a", true);
    assert_eq!(by_id.method, Method::Get);
    assert_eq!(
        by_id.url,
        "https://example.org/_synapse/admin/v2/rooms/delete_status/job%2F1%20a"
    );
    assert_eq!(by_id.authorization, "Bearer secret");
    assert_eq!(by_id.body, None);

    let by_room = target.job_request("job/1 a", false);
    assert_eq!(by_room.method, Method::Get);
    assert_eq!(
        by_room.url,
        "https://example.org/_synapse/admin/v2/rooms/%21room%3Aexample.org/delete_status"
    );
    assert_eq!(by_room.body, None);
}

#[test]
fn room_lookup_on_the_wire() {
    let lookup = example_target().room_request();
    assert_eq!(lookup.method, Method::Get);
    assert_eq!(lookup.url, "https://example.org/_synapse/admin/v1/rooms/%21room%3Aexample.org");
    assert_eq!(lookup.authorization, "Bearer secret");
    assert_eq!(lookup.body, None);
}

#[test]
fn content_type_goes_with_a_body() {
    let target = example_target();
    assert_eq!(JSON_CONTENT_TYPE, "application/json");
    assert_eq!(target.initiating_request(ApiVariant::V2).content_type(), Some("application/json"));
    assert_eq!(target.initiating_request(ApiVariant::Legacy).content_type(), Some("application/json"));
    assert_eq!(target.job_request("d1", true).content_type(), None);
    assert_eq!(target.room_request().content_type(), None);
}
