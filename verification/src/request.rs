//! The requests that the library asks its caller to send, and the routes of
//! the administration API that they go to.

use crate::encoding::{encode, percent_encoded};
use crate::text::{concat2, concat3, normalize_base_url, strip_trailing};
use vstd::prelude::*;
use vstd::utf8::encode_utf8;

verus! {

/// The method of a request.
#[derive(Clone, Copy, Debug, PartialEq, Eq, Structural)]
pub enum Method {
    Get,
    Delete,
    Post,
}

/// The ways to ask a server to delete a room, newest first.
#[derive(Clone, Copy, Debug, PartialEq, Eq, Structural)]
pub enum ApiVariant {
    /// `DELETE` on the version 2 route: the server answers with a job.
    V2,
    /// `DELETE` on the version 1 route.
    V1,
    /// `POST` on the `delete` action of the version 1 route.
    Legacy,
}

impl ApiVariant {
    /// The variant to try when a server does not know this one.
    pub open spec fn successor(self) -> Option<ApiVariant> {
        match self {
            ApiVariant::V2 => Some(ApiVariant::V1),
            ApiVariant::V1 => Some(ApiVariant::Legacy),
            ApiVariant::Legacy => None,
        }
    }

    pub open spec fn spec_method(self) -> Method {
        match self {
            ApiVariant::V2 => Method::Delete,
            ApiVariant::V1 => Method::Delete,
            ApiVariant::Legacy => Method::Post,
        }
    }

    /// The path of the variant's route for the room whose encoded
    /// identifier is `room`.
    pub open spec fn path(self, room: Seq<char>) -> Seq<char> {
        match self {
            ApiVariant::V2 => "/_synapse/admin/v2/rooms/"@ + room,
            ApiVariant::V1 => "/_synapse/admin/v1/rooms/"@ + room,
            ApiVariant::Legacy => "/_synapse/admin/v1/rooms/"@ + room + "/delete"@,
        }
    }

    /// The variant to try when a server does not know this one.
    pub fn next(self) -> (following: Option<ApiVariant>)
        ensures
            following == self.successor(),
    {
        match self {
            ApiVariant::V2 => Some(ApiVariant::V1),
            ApiVariant::V1 => Some(ApiVariant::Legacy),
            ApiVariant::Legacy => None,
        }
    }

    /// The method that the variant is requested with.
    pub fn method(self) -> (method: Method)
        ensures
            method == self.spec_method(),
    {
        match self {
            ApiVariant::V2 => Method::Delete,
            ApiVariant::V1 => Method::Delete,
            ApiVariant::Legacy => Method::Post,
        }
    }
}

/// The path on which a job is asked for by its encoded identifier.
pub open spec fn job_path(delete_id: Seq<char>) -> Seq<char> {
    "/_synapse/admin/v2/rooms/delete_status/"@ + delete_id
}

/// The path on which the jobs of a room are asked for.
pub open spec fn room_jobs_path(room: Seq<char>) -> Seq<char> {
    "/_synapse/admin/v2/rooms/"@ + room + "/delete_status"@
}

/// The path on which a room is looked up.
pub open spec fn room_path(room: Seq<char>) -> Seq<char> {
    "/_synapse/admin/v1/rooms/"@ + room
}

/// What a request to delete a room says in its body.
#[derive(Debug, PartialEq, Eq)]
pub struct DeletionBody {
    pub block: bool,
    pub purge: bool,
    pub force_purge: bool,
    pub requester_user_id: String,
}

/// What a `DeletionBody` stands for.
pub struct DeletionBodyView {
    pub block: bool,
    pub purge: bool,
    pub force_purge: bool,
    pub requester_user_id: Seq<char>,
}

impl View for DeletionBody {
    type V = DeletionBodyView;

    open spec fn view(&self) -> DeletionBodyView {
        DeletionBodyView {
            block: self.block,
            purge: self.purge,
            force_purge: self.force_purge,
            requester_user_id: self.requester_user_id@,
        }
    }
}

/// The body of every request that starts a deletion: block the room, purge
/// it, and do so by force, in the name of `requester_user_id`.
pub open spec fn deletion_body(requester_user_id: Seq<char>) -> DeletionBodyView {
    DeletionBodyView { block: true, purge: true, force_purge: true, requester_user_id }
}

/// The media type of every body that is sent.
pub const JSON_CONTENT_TYPE: &'static str = "application/json";

/// A request for the caller to send. `authorization` is the value of the
/// header of that name; a body goes out as JSON. The type has no `Debug`,
/// so that the credential is not printed by accident.
#[derive(PartialEq, Eq)]
pub struct Request {
    pub method: Method,
    pub url: String,
    pub authorization: String,
    pub body: Option<DeletionBody>,
}

/// What a `Request` stands for.
pub struct RequestView {
    pub method: Method,
    pub url: Seq<char>,
    pub authorization: Seq<char>,
    pub body: Option<DeletionBodyView>,
}

impl RequestView {
    /// The value of the `Content-Type` header: that of JSON where there is
    /// a body, and no header where there is none.
    pub open spec fn content_type(self) -> Option<Seq<char>> {
        if self.body is Some {
            Some(JSON_CONTENT_TYPE@)
        } else {
            None
        }
    }
}

impl Request {
    /// The value of the `Content-Type` header, where the request has one.
    pub fn content_type(&self) -> (value: Option<&'static str>)
        ensures
            value is Some <==> self@.content_type() is Some,
            value matches Some(media) ==> self@.content_type() == Some(media@),
    {
        match &self.body {
            Some(_) => Some(JSON_CONTENT_TYPE),
            None => None,
        }
    }
}

impl View for Request {
    type V = RequestView;

    open spec fn view(&self) -> RequestView {
        RequestView {
            method: self.method,
            url: self.url@,
            authorization: self.authorization@,
            body: match self.body {
                Some(body) => Some(body@),
                None => None,
            },
        }
    }
}

/// The room to delete and the server to ask, as every request needs them.
/// The type has no `Debug`, so that the credential is not printed by
/// accident.
#[derive(PartialEq, Eq)]
pub struct Target {
    /// The base address, without trailing slashes.
    pub base_url: String,
    /// The room's identifier, percent-encoded.
    pub room: String,
    /// The value of the `Authorization` header.
    pub authorization: String,
    /// The user in whose name the room is deleted.
    pub requester_user_id: String,
}

/// What a `Target` stands for.
pub struct TargetView {
    pub base_url: Seq<char>,
    pub room: Seq<char>,
    pub authorization: Seq<char>,
    pub requester_user_id: Seq<char>,
}

impl View for Target {
    type V = TargetView;

    open spec fn view(&self) -> TargetView {
        TargetView {
            base_url: self.base_url@,
            room: self.room@,
            authorization: self.authorization@,
            requester_user_id: self.requester_user_id@,
        }
    }
}

/// The target for what a caller hands in: the base address loses its
/// trailing slashes, the room's identifier is percent-encoded, and the
/// token becomes a bearer credential.
pub open spec fn target_for(
    base_url: Seq<char>,
    access_token: Seq<char>,
    room_id: Seq<char>,
    requester_user_id: Seq<char>,
) -> TargetView {
    TargetView {
        base_url: strip_trailing(base_url, '/'),
        room: percent_encoded(encode_utf8(room_id)),
        authorization: "Bearer "@ + access_token,
        requester_user_id,
    }
}

/// The request that starts a deletion by way of `variant`.
pub open spec fn initiating_request(target: TargetView, variant: ApiVariant) -> RequestView {
    RequestView {
        method: variant.spec_method(),
        url: target.base_url + variant.path(target.room),
        authorization: target.authorization,
        body: Some(deletion_body(target.requester_user_id)),
    }
}

/// The request that asks for the job `delete_id`: by the job's identifier,
/// percent-encoded, or by the room.
pub open spec fn job_request(target: TargetView, delete_id: Seq<char>, by_delete_id: bool) -> RequestView {
    RequestView {
        method: Method::Get,
        url: if by_delete_id {
            target.base_url + job_path(percent_encoded(encode_utf8(delete_id)))
        } else {
            target.base_url + room_jobs_path(target.room)
        },
        authorization: target.authorization,
        body: None,
    }
}

/// The request that looks the room up.
pub open spec fn room_request(target: TargetView) -> RequestView {
    RequestView {
        method: Method::Get,
        url: target.base_url + room_path(target.room),
        authorization: target.authorization,
        body: None,
    }
}

impl Target {
    /// The target for what a caller hands in.
    pub fn new(base_url: &str, access_token: &str, room_id: &str, requester_user_id: &str) -> (target:
        Target)
        ensures
            target@ == target_for(base_url@, access_token@, room_id@, requester_user_id@),
    {
        Target {
            base_url: normalize_base_url(base_url),
            room: encode(room_id),
            authorization: concat2("Bearer ", access_token),
            requester_user_id: requester_user_id.to_owned(),
        }
    }

    /// The request that starts a deletion by way of `variant`.
    pub fn initiating_request(&self, variant: ApiVariant) -> (request: Request)
        ensures
            request@ == initiating_request(self@, variant),
    {
        let url = match variant {
            ApiVariant::V2 => concat3(
                self.base_url.as_str(),
                "/_synapse/admin/v2/rooms/",
                self.room.as_str(),
            ),
            ApiVariant::V1 => concat3(
                self.base_url.as_str(),
                "/_synapse/admin/v1/rooms/",
                self.room.as_str(),
            ),
            ApiVariant::Legacy => {
                let mut url = concat3(
                    self.base_url.as_str(),
                    "/_synapse/admin/v1/rooms/",
                    self.room.as_str(),
                );
                url.append("/delete");
                url
            },
        };
        proof {
            let base = self.base_url@;
            let room = self.room@;
            assert(base + "/_synapse/admin/v2/rooms/"@ + room == base + (
            "/_synapse/admin/v2/rooms/"@ + room));
            assert(base + "/_synapse/admin/v1/rooms/"@ + room == base + (
            "/_synapse/admin/v1/rooms/"@ + room));
            assert(base + "/_synapse/admin/v1/rooms/"@ + room + "/delete"@ == base + (
            "/_synapse/admin/v1/rooms/"@ + room + "/delete"@));
        }
        Request {
            method: variant.method(),
            url,
            authorization: self.authorization.clone(),
            body: Some(
                DeletionBody {
                    block: true,
                    purge: true,
                    force_purge: true,
                    requester_user_id: self.requester_user_id.clone(),
                },
            ),
        }
    }

    /// The request that asks for the job `delete_id`.
    pub fn job_request(&self, delete_id: &str, by_delete_id: bool) -> (request: Request)
        ensures
            request@ == job_request(self@, delete_id@, by_delete_id),
    {
        let url = if by_delete_id {
            let encoded = encode(delete_id);
            concat3(
                self.base_url.as_str(),
                "/_synapse/admin/v2/rooms/delete_status/",
                encoded.as_str(),
            )
        } else {
            let mut url = concat3(
                self.base_url.as_str(),
                "/_synapse/admin/v2/rooms/",
                self.room.as_str(),
            );
            url.append("/delete_status");
            url
        };
        proof {
            let base = self.base_url@;
            let room = self.room@;
            let id = percent_encoded(encode_utf8(delete_id@));
            assert(base + "/_synapse/admin/v2/rooms/delete_status/"@ + id == base + (
            "/_synapse/admin/v2/rooms/delete_status/"@ + id));
            assert(base + "/_synapse/admin/v2/rooms/"@ + room + "/delete_status"@ == base + (
            "/_synapse/admin/v2/rooms/"@ + room + "/delete_status"@));
        }
        Request { method: Method::Get, url, authorization: self.authorization.clone(), body: None }
    }

    /// The request that looks the room up.
    pub fn room_request(&self) -> (request: Request)
        ensures
            request@ == room_request(self@),
    {
        let url = concat3(self.base_url.as_str(), "/_synapse/admin/v1/rooms/", self.room.as_str());
        proof {
            let base = self.base_url@;
            let room = self.room@;
            assert(base + "/_synapse/admin/v1/rooms/"@ + room == base + (
            "/_synapse/admin/v1/rooms/"@ + room));
        }
        Request { method: Method::Get, url, authorization: self.authorization.clone(), body: None }
    }
}

} // verus!
