//! Calls from the homeserver, grouped by category, and the single answer
//! each one gets back.
use vstd::prelude::*;

use ruma::api::appservice::event::push_events::v1::Request as PushEventsRequest;
use ruma::api::appservice::event::push_events::v1::Response as PushEventsResponse;
use ruma::api::appservice::ping::send_ping::v1::Request as SendPingRequest;
use ruma::api::appservice::ping::send_ping::v1::Response as SendPingResponse;
use ruma::api::appservice::query::query_room_alias::v1::Request as QueryRoomAliasRequest;
use ruma::api::appservice::query::query_room_alias::v1::Response as QueryRoomAliasResponse;
use ruma::api::appservice::query::query_user_id::v1::Request as QueryUserIdRequest;
use ruma::api::appservice::query::query_user_id::v1::Response as QueryUserIdResponse;
use ruma::api::appservice::thirdparty::get_location_for_protocol::v1::Request as GetLocationForProtocolRequest;
use ruma::api::appservice::thirdparty::get_location_for_protocol::v1::Response as GetLocationForProtocolResponse;
use ruma::api::appservice::thirdparty::get_location_for_room_alias::v1::Request as GetLocationForRoomAliasRequest;
use ruma::api::appservice::thirdparty::get_location_for_room_alias::v1::Response as GetLocationForRoomAliasResponse;
use ruma::api::appservice::thirdparty::get_protocol::v1::Request as GetProtocolRequest;
use ruma::api::appservice::thirdparty::get_protocol::v1::Response as GetProtocolResponse;
use ruma::api::appservice::thirdparty::get_user_for_protocol::v1::Request as GetUserForProtocolRequest;
use ruma::api::appservice::thirdparty::get_user_for_protocol::v1::Response as GetUserForProtocolResponse;
use ruma::api::appservice::thirdparty::get_user_for_user_id::v1::Request as GetUserForUserIdRequest;
use ruma::api::appservice::thirdparty::get_user_for_user_id::v1::Response as GetUserForUserIdResponse;

use crate::errors::Error;

verus! {

// The protocol's call and answer types, carried through unopened.
#[verifier::external_type_specification]
#[verifier::external_body]
pub struct ExPushEventsRequest(PushEventsRequest);

#[verifier::external_type_specification]
#[verifier::external_body]
pub struct ExPushEventsResponse(PushEventsResponse);

#[verifier::external_type_specification]
#[verifier::external_body]
pub struct ExSendPingRequest(SendPingRequest);

#[verifier::external_type_specification]
#[verifier::external_body]
pub struct ExSendPingResponse(SendPingResponse);

#[verifier::external_type_specification]
#[verifier::external_body]
pub struct ExQueryRoomAliasRequest(QueryRoomAliasRequest);

#[verifier::external_type_specification]
#[verifier::external_body]
pub struct ExQueryRoomAliasResponse(QueryRoomAliasResponse);

#[verifier::external_type_specification]
#[verifier::external_body]
pub struct ExQueryUserIdRequest(QueryUserIdRequest);

#[verifier::external_type_specification]
#[verifier::external_body]
pub struct ExQueryUserIdResponse(QueryUserIdResponse);

#[verifier::external_type_specification]
#[verifier::external_body]
pub struct ExGetLocationForProtocolRequest(GetLocationForProtocolRequest);

#[verifier::external_type_specification]
#[verifier::external_body]
pub struct ExGetLocationForProtocolResponse(GetLocationForProtocolResponse);

#[verifier::external_type_specification]
#[verifier::external_body]
pub struct ExGetLocationForRoomAliasRequest(GetLocationForRoomAliasRequest);

#[verifier::external_type_specification]
#[verifier::external_body]
pub struct ExGetLocationForRoomAliasResponse(GetLocationForRoomAliasResponse);

#[verifier::external_type_specification]
#[verifier::external_body]
pub struct ExGetProtocolRequest(GetProtocolRequest);

#[verifier::external_type_specification]
#[verifier::external_body]
pub struct ExGetProtocolResponse(GetProtocolResponse);

#[verifier::external_type_specification]
#[verifier::external_body]
pub struct ExGetUserForProtocolRequest(GetUserForProtocolRequest);

#[verifier::external_type_specification]
#[verifier::external_body]
pub struct ExGetUserForProtocolResponse(GetUserForProtocolResponse);

#[verifier::external_type_specification]
#[verifier::external_body]
pub struct ExGetUserForUserIdRequest(GetUserForUserIdRequest);

#[verifier::external_type_specification]
#[verifier::external_body]
pub struct ExGetUserForUserIdResponse(GetUserForUserIdResponse);

/// Relies on the derived `Clone` of ruma's `PushEvents` request; nothing is claimed of the copy.
pub assume_specification[ <PushEventsRequest as core::clone::Clone>::clone ](v: &PushEventsRequest) -> PushEventsRequest;

/// Relies on the derived `Clone` of ruma's `PushEvents` response; nothing is claimed of the copy.
pub assume_specification[ <PushEventsResponse as core::clone::Clone>::clone ](v: &PushEventsResponse) -> PushEventsResponse;

/// Relies on the derived `Clone` of ruma's `SendPing` request; nothing is claimed of the copy.
pub assume_specification[ <SendPingRequest as core::clone::Clone>::clone ](v: &SendPingRequest) -> SendPingRequest;

/// Relies on the derived `Clone` of ruma's `SendPing` response; nothing is claimed of the copy.
pub assume_specification[ <SendPingResponse as core::clone::Clone>::clone ](v: &SendPingResponse) -> SendPingResponse;

/// Relies on the derived `Clone` of ruma's `QueryRoomAlias` request; nothing is claimed of the copy.
pub assume_specification[ <QueryRoomAliasRequest as core::clone::Clone>::clone ](v: &QueryRoomAliasRequest) -> QueryRoomAliasRequest;

/// Relies on the derived `Clone` of ruma's `QueryRoomAlias` response; nothing is claimed of the copy.
pub assume_specification[ <QueryRoomAliasResponse as core::clone::Clone>::clone ](v: &QueryRoomAliasResponse) -> QueryRoomAliasResponse;

/// Relies on the derived `Clone` of ruma's `QueryUserId` request; nothing is claimed of the copy.
pub assume_specification[ <QueryUserIdRequest as core::clone::Clone>::clone ](v: &QueryUserIdRequest) -> QueryUserIdRequest;

/// Relies on the derived `Clone` of ruma's `QueryUserId` response; nothing is claimed of the copy.
pub assume_specification[ <QueryUserIdResponse as core::clone::Clone>::clone ](v: &QueryUserIdResponse) -> QueryUserIdResponse;

/// Relies on the derived `Clone` of ruma's `GetLocationForProtocol` request; nothing is claimed of the copy.
pub assume_specification[ <GetLocationForProtocolRequest as core::clone::Clone>::clone ](v: &GetLocationForProtocolRequest) -> GetLocationForProtocolRequest;

/// Relies on the derived `Clone` of ruma's `GetLocationForProtocol` response; nothing is claimed of the copy.
pub assume_specification[ <GetLocationForProtocolResponse as core::clone::Clone>::clone ](v: &GetLocationForProtocolResponse) -> GetLocationForProtocolResponse;

/// Relies on the derived `Clone` of ruma's `GetLocationForRoomAlias` request; nothing is claimed of the copy.
pub assume_specification[ <GetLocationForRoomAliasRequest as core::clone::Clone>::clone ](v: &GetLocationForRoomAliasRequest) -> GetLocationForRoomAliasRequest;

/// Relies on the derived `Clone` of ruma's `GetLocationForRoomAlias` response; nothing is claimed of the copy.
pub assume_specification[ <GetLocationForRoomAliasResponse as core::clone::Clone>::clone ](v: &GetLocationForRoomAliasResponse) -> GetLocationForRoomAliasResponse;

/// Relies on the derived `Clone` of ruma's `GetProtocol` request; nothing is claimed of the copy.
pub assume_specification[ <GetProtocolRequest as core::clone::Clone>::clone ](v: &GetProtocolRequest) -> GetProtocolRequest;

/// Relies on the derived `Clone` of ruma's `GetProtocol` response; nothing is claimed of the copy.
pub assume_specification[ <GetProtocolResponse as core::clone::Clone>::clone ](v: &GetProtocolResponse) -> GetProtocolResponse;

/// Relies on the derived `Clone` of ruma's `GetUserForProtocol` request; nothing is claimed of the copy.
pub assume_specification[ <GetUserForProtocolRequest as core::clone::Clone>::clone ](v: &GetUserForProtocolRequest) -> GetUserForProtocolRequest;

/// Relies on the derived `Clone` of ruma's `GetUserForProtocol` response; nothing is claimed of the copy.
pub assume_specification[ <GetUserForProtocolResponse as core::clone::Clone>::clone ](v: &GetUserForProtocolResponse) -> GetUserForProtocolResponse;

/// Relies on the derived `Clone` of ruma's `GetUserForUserId` request; nothing is claimed of the copy.
pub assume_specification[ <GetUserForUserIdRequest as core::clone::Clone>::clone ](v: &GetUserForUserIdRequest) -> GetUserForUserIdRequest;

/// Relies on the derived `Clone` of ruma's `GetUserForUserId` response; nothing is claimed of the copy.
pub assume_specification[ <GetUserForUserIdResponse as core::clone::Clone>::clone ](v: &GetUserForUserIdResponse) -> GetUserForUserIdResponse;

#[verifier::external_type_specification]
#[verifier::external_body]
#[verifier::reject_recursive_types(T)]
pub struct ExSender<T>(async_channel::Sender<T>);

/// Calls that deliver events. More kinds may appear.
#[derive(Clone, Debug)]
#[non_exhaustive]
pub enum EventRequest {
    /// Events pushed by the homeserver.
    Push(PushEventsRequest),
}

/// Liveness calls. More kinds may appear.
#[derive(Clone, Debug)]
#[non_exhaustive]
pub enum PingRequest {
    /// A liveness check.
    Ping(SendPingRequest),
}

/// Calls that ask whether an identifier exists. More kinds may appear.
#[derive(Clone, Debug)]
#[non_exhaustive]
pub enum QueryRequest {
    /// Whether a room alias exists.
    RoomAlias(QueryRoomAliasRequest),
    /// Whether a user id exists.
    UserId(QueryUserIdRequest),
}

/// Calls about third-party networks. More kinds may appear.
#[derive(Clone, Debug)]
#[non_exhaustive]
pub enum ThirdPartyRequest {
    /// Locations of a protocol matching fields.
    GetLocationForProtocol(GetLocationForProtocolRequest),
    /// The locations of a room alias.
    GetLocationForRoomAlias(GetLocationForRoomAliasRequest),
    /// The metadata of a protocol.
    GetProtocol(GetProtocolRequest),
    /// Users of a protocol matching fields.
    GetUserForProtocol(GetUserForProtocolRequest),
    /// The protocol users of a user id.
    GetUserForUserId(GetUserForUserIdRequest),
}

/// A call from the homeserver, by category.
#[derive(Clone, Debug)]
pub enum RequestMessage {
    /// Event delivery.
    Event(EventRequest),
    /// Liveness.
    Ping(PingRequest),
    /// Identifier queries.
    Query(QueryRequest),
    /// Third-party lookups.
    ThirdParty(ThirdPartyRequest),
}

/// Answers to event delivery. More kinds may appear.
#[derive(Clone, Debug)]
#[non_exhaustive]
pub enum EventReply {
    /// Events pushed by the homeserver.
    Push(PushEventsResponse),
}

/// Answers to liveness calls. More kinds may appear.
#[derive(Clone, Debug)]
#[non_exhaustive]
pub enum PingReply {
    /// A liveness check.
    Ping(SendPingResponse),
}

/// Answers to identifier queries. More kinds may appear.
#[derive(Clone, Debug)]
#[non_exhaustive]
pub enum QueryReply {
    /// Whether a room alias exists.
    RoomAlias(QueryRoomAliasResponse),
    /// Whether a user id exists.
    UserId(QueryUserIdResponse),
}

/// Answers to third-party lookups. More kinds may appear.
#[derive(Clone, Debug)]
#[non_exhaustive]
pub enum ThirdPartyReply {
    /// Locations of a protocol matching fields.
    GetLocationForProtocol(GetLocationForProtocolResponse),
    /// The locations of a room alias.
    GetLocationForRoomAlias(GetLocationForRoomAliasResponse),
    /// The metadata of a protocol.
    GetProtocol(GetProtocolResponse),
    /// Users of a protocol matching fields.
    GetUserForProtocol(GetUserForProtocolResponse),
    /// The protocol users of a user id.
    GetUserForUserId(GetUserForUserIdResponse),
}

/// An answer to a call from the homeserver, by category.
#[derive(Clone, Debug)]
#[non_exhaustive]
pub enum RequestReply {
    /// Event delivery.
    Event(EventReply),
    /// Liveness.
    Ping(PingReply),
    /// Identifier queries.
    Query(QueryReply),
    /// Third-party lookups.
    ThirdParty(ThirdPartyReply),
}

/// The reply is of the category of the call it answers.
pub open spec fn answers(message: RequestMessage, reply: RequestReply) -> bool {
    match (message, reply) {
        (RequestMessage::Event(_), RequestReply::Event(_)) => true,
        (RequestMessage::Ping(_), RequestReply::Ping(_)) => true,
        (RequestMessage::Query(_), RequestReply::Query(_)) => true,
        (RequestMessage::ThirdParty(_), RequestReply::ThirdParty(_)) => true,
        _ => false,
    }
}

/// Whether a reply is of the category of the call it answers.
pub fn reply_answers(message: &RequestMessage, reply: &RequestReply) -> (r: bool)
    ensures
        r == answers(*message, *reply),
{
    match (message, reply) {
        (RequestMessage::Event(_), RequestReply::Event(_)) => true,
        (RequestMessage::Ping(_), RequestReply::Ping(_)) => true,
        (RequestMessage::Query(_), RequestReply::Query(_)) => true,
        (RequestMessage::ThirdParty(_), RequestReply::ThirdParty(_)) => true,
        _ => false,
    }
}

/// Relies on `async_channel::Sender::try_send`: it hands the value to the
/// channel without waiting, or fails when the channel is full or closed.
#[verifier::external_body]
fn offer(to: &async_channel::Sender<Result<RequestReply, Error>>, value: Result<RequestReply, Error>) -> (r: bool) {
    match to.try_send(value) {
        Ok(()) => true,
        Err(_) => false,
    }
}

/// A call from the homeserver, with the channel its answer goes back on.
/// The channel is reachable only through [`Request::reply`], which uses the
/// request up: a request is answered at most once.
#[derive(Debug)]
pub struct Request {
    /// The call.
    pub message: RequestMessage,
    /// Where the answer, or the error that stood in its way, is sent.
    reply_to: async_channel::Sender<Result<RequestReply, Error>>,
}

impl Request {
    /// The call this request carries.
    pub closed spec fn call(&self) -> RequestMessage {
        self.message
    }

    /// A call, to be answered on `reply_to`.
    pub fn new(message: RequestMessage, reply_to: async_channel::Sender<Result<RequestReply, Error>>) -> (r: Request)
        ensures
            r.call() == message,
    {
        Request { message, reply_to }
    }

    /// Answers the call, once: the request is used up. An answer must be of
    /// the call's category. The result says whether the waiting side took
    /// the answer; it is false when that side has gone.
    pub fn reply(self, reply: Result<RequestReply, Error>) -> (r: bool)
        requires
            reply matches Ok(a) ==> answers(self.call(), a),
    {
        offer(&self.reply_to, reply)
    }
}

} // verus!
