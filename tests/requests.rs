use matrix_appservices::requests::{reply_answers, EventReply, PingReply, PingRequest};
use matrix_appservices::{Request, RequestMessage, RequestReply};
use ruma::api::appservice::{event::push_events, ping::send_ping};

fn ping() -> RequestMessage {
    RequestMessage::Ping(PingRequest::Ping(send_ping::v1::Request::new()))
}

#[test]
fn replies_must_match_the_call() {
    let pong = RequestReply::Ping(PingReply::Ping(send_ping::v1::Response::new()));
    let event = RequestReply::Event(EventReply::Push(push_events::v1::Response::new()));
    assert!(reply_answers(&ping(), &pong));
    assert!(!reply_answers(&ping(), &event));
}

#[test]
fn one_reply_reaches_the_caller() {
    let (tx, rx) = async_channel::bounded(1);
    let req = Request::new(ping(), tx);
    let pong = RequestReply::Ping(PingReply::Ping(send_ping::v1::Response::new()));
    assert!(req.reply(Ok(pong)));
    assert!(matches!(rx.try_recv(), Ok(Ok(RequestReply::Ping(_)))));
    assert!(rx.try_recv().is_err());
    assert!(rx.is_closed());
}

#[test]
fn dropped_request_is_seen_as_closed() {
    let (tx, rx) = async_channel::bounded::<Result<RequestReply, matrix_appservices::Error>>(1);
    let req = Request::new(ping(), tx);
    drop(req);
    assert!(matches!(rx.try_recv(), Err(async_channel::TryRecvError::Closed)));
}

#[test]
fn reply_to_a_gone_caller_fails_quietly() {
    let (tx, rx) = async_channel::bounded(1);
    drop(rx);
    let req = Request::new(ping(), tx);
    let pong = RequestReply::Ping(PingReply::Ping(send_ping::v1::Response::new()));
    assert!(!req.reply(Ok(pong)));
}

#[test]
fn request_messages_clone() {
    let m = ping();
    let copy = m.clone();
    assert!(matches!(copy, RequestMessage::Ping(_)));
}
