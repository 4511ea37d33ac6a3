use bluster::errors::{AttResult, Error, ReplyError};
use bluster::events::{CallbackReply, Event, ManagerState, NativeReply};
use bluster::gatt::{
    Characteristic, Descriptor, Properties, SecurityLevel, Service, WriteCapability, WriteKind,
};
use bluster::peripheral::{Config, Peripheral};
use bluster::uuid::Uuid;

fn config() -> Config {
    Config { event_capacity: 8, notify_capacity: 2, reply_timeout_ms: 500 }
}

fn read_char(uuid: Uuid, security: SecurityLevel, value: Option<Vec<u8>>) -> Characteristic {
    let props = Properties::new(Some(security), None, None, None).unwrap();
    Characteristic::new(uuid, props, value, Vec::new()).unwrap()
}

fn write_char(uuid: Uuid, security: SecurityLevel, kind: WriteKind) -> Characteristic {
    let props = Properties::new(None, Some(WriteCapability { security, kind }), None, None).unwrap();
    Characteristic::new(uuid, props, None, Vec::new()).unwrap()
}

fn notify_char(uuid: Uuid) -> Characteristic {
    let props = Properties::new(None, None, Some(SecurityLevel::Insecure), None).unwrap();
    Characteristic::new(uuid, props, None, Vec::new()).unwrap()
}

fn registered(characteristic: Characteristic) -> Peripheral {
    let mut p = Peripheral::new(config());
    let s = Service::new(Uuid::from_short_u16(0x1800), true, vec![characteristic]).unwrap();
    p.add_service(s).unwrap();
    p
}

#[test]
fn add_service_duplicate_uuid_rejected() {
    let mut p = Peripheral::new(config());
    let s1 = Service::new(
        Uuid::from_short_u16(0x1800),
        true,
        vec![read_char(Uuid::from_short_u16(0x2A3D), SecurityLevel::Insecure, None)],
    )
    .unwrap();
    assert_eq!(p.add_service(s1), Ok(()));
    let s2 = Service::new(Uuid::from_short_u16(0x1800), true, Vec::new()).unwrap();
    assert_eq!(p.add_service(s2), Err(Error::DuplicateUuid));
    // a characteristic UUID clashing with an already registered one is a
    // duplicate as well: routing is by UUID
    let s3 = Service::new(
        Uuid::from_short_u16(0x1801),
        true,
        vec![read_char(Uuid::from_short_u16(0x2A3D), SecurityLevel::Secure, None)],
    )
    .unwrap();
    assert_eq!(p.add_service(s3), Err(Error::DuplicateUuid));
}

#[test]
fn add_service_rejected_once_advertising() {
    let mut p = Peripheral::new(config());
    p.handle_power_state(ManagerState::PoweredOn);
    p.start_advertising("dev".to_string(), Vec::new()).unwrap();
    let s = Service::new(Uuid::from_short_u16(0x1800), true, Vec::new()).unwrap();
    assert_eq!(p.add_service(s), Err(Error::AlreadyAdvertising));
}

#[test]
fn read_reply_exactly_once() {
    let u = Uuid::from_short_u16(0x2A3D);
    let mut p = registered(read_char(u, SecurityLevel::Insecure, None));
    let id = match p.handle_read_request(u, 1, 0, false) {
        CallbackReply::Deferred(id) => id,
        other => panic!("expected a deferred reply, got {:?}", other),
    };
    let first = p.send_reply(id, AttResult::Success, Some(b"ok".to_vec()));
    assert_eq!(
        first,
        Ok(NativeReply { request_id: id, result: AttResult::Success, value: Some(b"ok".to_vec()) })
    );
    // the second reply is refused and produces no second native reply value
    let second = p.send_reply(id, AttResult::Success, Some(b"again".to_vec()));
    assert_eq!(second, Err(ReplyError::AlreadyReplied));
}

#[test]
fn reply_to_unknown_request_refused() {
    let mut p = Peripheral::new(config());
    assert_eq!(
        p.send_reply(99, AttResult::Success, None),
        Err(ReplyError::UnknownRequest)
    );
}

#[test]
fn secure_read_over_unencrypted_link_denied() {
    let u = Uuid::from_short_u16(0x2A3D);
    let mut p = registered(read_char(u, SecurityLevel::Secure, None));
    let r = p.handle_read_request(u, 1, 0, false);
    assert_eq!(r, CallbackReply::Respond(AttResult::InsufficientAuthentication));
    // the application handler never sees an event
    assert_eq!(p.take_event(u), None);
    // over an encrypted link the same read goes through
    assert!(matches!(p.handle_read_request(u, 1, 0, true), CallbackReply::Deferred(_)));
}

#[test]
fn read_without_capability_not_supported() {
    let u = Uuid::from_short_u16(0x2A3D);
    let mut p = registered(write_char(u, SecurityLevel::Insecure, WriteKind::WithResponse));
    let r = p.handle_read_request(u, 1, 0, true);
    assert_eq!(r, CallbackReply::Respond(AttResult::RequestNotSupported));
    let unknown = Uuid::from_short_u16(0x0000);
    assert_eq!(
        p.handle_write_request(unknown, 0, b"x".to_vec(), true),
        CallbackReply::Respond(AttResult::RequestNotSupported)
    );
}

#[test]
fn without_response_write_immediate_success() {
    let u = Uuid::from_short_u16(0x2A3D);
    let mut p = registered(write_char(u, SecurityLevel::Insecure, WriteKind::WithoutResponse));
    let r = p.handle_write_request(u, 2, b"data".to_vec(), false);
    // success at the native boundary before the application consumed anything
    assert_eq!(r, CallbackReply::Respond(AttResult::Success));
    let ev = p.take_event(u).unwrap();
    assert_eq!(ev, Event::Write { reply_id: None, offset: 2, value: b"data".to_vec() });
}

#[test]
fn with_response_write_deferred() {
    let u = Uuid::from_short_u16(0x2A3D);
    let mut p = registered(write_char(u, SecurityLevel::Secure, WriteKind::WithResponse));
    assert_eq!(
        p.handle_write_request(u, 0, b"w".to_vec(), false),
        CallbackReply::Respond(AttResult::InsufficientAuthentication)
    );
    let id = match p.handle_write_request(u, 0, b"w".to_vec(), true) {
        CallbackReply::Deferred(id) => id,
        other => panic!("expected a deferred reply, got {:?}", other),
    };
    assert_eq!(
        p.take_event(u),
        Some(Event::Write { reply_id: Some(id), offset: 0, value: b"w".to_vec() })
    );
    let n = p.send_reply(id, AttResult::Success, None).unwrap();
    assert_eq!(n.result, AttResult::Success);
}

#[test]
fn busy_when_event_channel_full() {
    let u = Uuid::from_short_u16(0x2A3D);
    let mut p = Peripheral::new(Config { event_capacity: 1, notify_capacity: 1, reply_timeout_ms: 500 });
    let s = Service::new(
        Uuid::from_short_u16(0x1800),
        true,
        vec![read_char(u, SecurityLevel::Insecure, None)],
    )
    .unwrap();
    p.add_service(s).unwrap();
    assert!(matches!(p.handle_read_request(u, 1, 0, false), CallbackReply::Deferred(_)));
    assert_eq!(
        p.handle_read_request(u, 1, 0, false),
        CallbackReply::Respond(AttResult::InsufficientResources)
    );
    // draining the channel makes room again
    assert!(matches!(p.take_event(u), Some(Event::Read { .. })));
    assert!(matches!(p.handle_read_request(u, 1, 0, false), CallbackReply::Deferred(_)));
}

#[test]
fn notification_backpressure_keeps_newest() {
    let u = Uuid::from_short_u16(0x2A3D);
    let mut p = registered(notify_char(u));
    assert!(p.handle_subscribe(u));
    assert!(p.is_subscribed(u));
    assert_eq!(p.take_event(u), Some(Event::NotifySubscribe));
    // capacity is 2, push 3 payloads: at most 2 reach the native boundary,
    // always including the most recent one
    assert_eq!(p.push_notification(u, b"p1".to_vec()), Ok(()));
    assert_eq!(p.push_notification(u, b"p2".to_vec()), Ok(()));
    assert_eq!(p.push_notification(u, b"p3".to_vec()), Ok(()));
    let mut observed = Vec::new();
    while let Some(payload) = p.take_notification(u) {
        observed.push(payload);
    }
    assert!(observed.len() <= 2);
    assert_eq!(observed, vec![b"p2".to_vec(), b"p3".to_vec()]);
}

#[test]
fn notification_requires_subscription() {
    let u = Uuid::from_short_u16(0x2A3D);
    let mut p = registered(notify_char(u));
    assert_eq!(p.push_notification(u, b"p".to_vec()), Err(Error::NotSubscribed));
    assert!(p.handle_subscribe(u));
    assert_eq!(p.push_notification(u, b"p".to_vec()), Ok(()));
    assert!(p.handle_unsubscribe(u));
    assert!(!p.is_subscribed(u));
    assert_eq!(p.push_notification(u, b"q".to_vec()), Err(Error::NotSubscribed));
}

#[test]
fn subscribe_lifecycle_events_in_order() {
    let u = Uuid::from_short_u16(0x2A3D);
    let mut p = registered(notify_char(u));
    assert!(p.handle_subscribe(u));
    assert!(p.handle_unsubscribe(u));
    assert_eq!(p.take_event(u), Some(Event::NotifySubscribe));
    assert_eq!(p.take_event(u), Some(Event::NotifyUnsubscribe));
    assert_eq!(p.take_event(u), None);
    // a characteristic without the capability ignores subscribe callbacks
    let w = Uuid::from_short_u16(0x2A3E);
    let mut q = registered(write_char(w, SecurityLevel::Insecure, WriteKind::WithResponse));
    assert!(!q.handle_subscribe(w));
}

#[test]
fn static_value_read_scenario() {
    // register a characteristic with UUID 0x2A3D, an insecure read
    // capability and static value "hi"; a read callback at offset 0 yields a
    // read event with offset 0 and the reply path returns success with "hi"
    let u = Uuid::from_short_u16(0x2A3D);
    let mut p = registered(read_char(u, SecurityLevel::Insecure, Some(b"hi".to_vec())));
    let id = match p.handle_read_request(u, 7, 0, false) {
        CallbackReply::Deferred(id) => id,
        other => panic!("expected a deferred reply, got {:?}", other),
    };
    match p.take_event(u) {
        Some(Event::Read { request_id, device, offset }) => {
            assert_eq!(request_id, id);
            assert_eq!(device, 7);
            assert_eq!(offset, 0);
        },
        other => panic!("expected a read event, got {:?}", other),
    }
    let value = p.value_of(u).unwrap().clone();
    assert_eq!(value, b"hi".to_vec());
    let reply = p.send_reply(id, AttResult::Success, Some(value)).unwrap();
    assert_eq!(reply.result, AttResult::Success);
    assert_eq!(reply.value, Some(b"hi".to_vec()));
}

#[test]
fn power_sequence_observed_exactly_once() {
    let mut p = Peripheral::new(config());
    let mut resolved: u32 = 0;
    let mut was_powered = p.is_powered();
    assert!(!was_powered);
    for state in [ManagerState::PoweredOff, ManagerState::PoweredOn] {
        p.handle_power_state(state);
        // a waiter polling "become powered" resolves on the rising edge only
        if !was_powered && p.is_powered() {
            resolved += 1;
        }
        was_powered = p.is_powered();
    }
    assert!(p.is_powered());
    assert_eq!(resolved, 1);
    for state in [
        ManagerState::Unknown,
        ManagerState::Resetting,
        ManagerState::Unsupported,
        ManagerState::Unauthorized,
        ManagerState::PoweredOff,
    ] {
        p.handle_power_state(state);
        assert!(!p.is_powered());
    }
}

#[test]
fn advertising_lifecycle() {
    let mut p = Peripheral::new(config());
    let s = Service::new(Uuid::from_short_u16(0x1800), true, Vec::new()).unwrap();
    p.add_service(s).unwrap();
    assert_eq!(
        p.start_advertising("dev".to_string(), Vec::new()),
        Err(Error::NotPoweredOn)
    );
    p.handle_power_state(ManagerState::PoweredOn);
    let req = p
        .start_advertising("dev".to_string(), vec![Uuid::from_short_u16(0x180F)])
        .unwrap();
    assert_eq!(req.name, "dev");
    assert_eq!(
        req.service_uuids,
        vec![Uuid::from_short_u16(0x1800), Uuid::from_short_u16(0x180F)]
    );
    assert!(!p.is_advertising());
    assert_eq!(p.handle_advertising_started(None), None);
    assert!(p.is_advertising());
    assert_eq!(p.stop_advertising(), Ok(()));
    assert!(!p.is_advertising());
    assert_eq!(p.stop_advertising(), Err(Error::NotAdvertising));
}

#[test]
fn advertising_error_surfaced() {
    let mut p = Peripheral::new(config());
    p.handle_power_state(ManagerState::PoweredOn);
    p.start_advertising("dev".to_string(), Vec::new()).unwrap();
    let e = p.handle_advertising_started(Some("radio failure".to_string()));
    assert_eq!(e, Some(Error::NativeStack("radio failure".to_string())));
    assert!(!p.is_advertising());
    // the failed request is cleared, so asking again is allowed
    assert!(p.start_advertising("dev".to_string(), Vec::new()).is_ok());
    assert_eq!(p.handle_service_added(None), None);
    assert_eq!(
        p.handle_service_added(Some("denied".to_string())),
        Some(Error::NativeStack("denied".to_string()))
    );
}

#[test]
fn shutdown_synthesizes_failure_for_unanswered_request() {
    let u = Uuid::from_short_u16(0x2A3D);
    let mut p = registered(read_char(u, SecurityLevel::Insecure, None));
    let answered = match p.handle_read_request(u, 1, 0, false) {
        CallbackReply::Deferred(id) => id,
        other => panic!("expected a deferred reply, got {:?}", other),
    };
    p.send_reply(answered, AttResult::Success, None).unwrap();
    let unanswered = match p.handle_read_request(u, 1, 4, false) {
        CallbackReply::Deferred(id) => id,
        other => panic!("expected a deferred reply, got {:?}", other),
    };
    let replies = p.shutdown();
    assert_eq!(
        replies,
        vec![NativeReply { request_id: unanswered, result: AttResult::UnlikelyError, value: None }]
    );
    // teardown ended the pending transaction: a late reply is discarded
    assert_eq!(
        p.send_reply(unanswered, AttResult::Success, None),
        Err(ReplyError::AlreadyReplied)
    );
    assert!(!p.is_subscribed(u));
    assert!(!p.is_advertising());
}

#[test]
fn expired_request_discards_late_reply() {
    let u = Uuid::from_short_u16(0x2A3D);
    let mut p = registered(read_char(u, SecurityLevel::Insecure, None));
    let id = match p.handle_read_request(u, 1, 0, false) {
        CallbackReply::Deferred(id) => id,
        other => panic!("expected a deferred reply, got {:?}", other),
    };
    // the application missed the reply bound: the bridge synthesizes the
    // failure owed to the native stack
    let synthetic = p.expire_reply(id).unwrap();
    assert_eq!(synthetic.result, AttResult::UnlikelyError);
    assert_eq!(p.expire_reply(id), None);
    assert_eq!(
        p.send_reply(id, AttResult::Success, None),
        Err(ReplyError::AlreadyReplied)
    );
}

#[test]
fn descriptor_requests_route_like_characteristics() {
    let cu = Uuid::from_short_u16(0x2A3D);
    let du = Uuid::from_short_u16(0x2901);
    let d = Descriptor::new(du, Some(SecurityLevel::Insecure), None, Some(b"desc".to_vec()));
    let props = Properties::new(Some(SecurityLevel::Insecure), None, None, None).unwrap();
    let c = Characteristic::new(cu, props, None, vec![d]).unwrap();
    let mut p = registered(c);
    let id = match p.handle_read_request(du, 1, 0, false) {
        CallbackReply::Deferred(id) => id,
        other => panic!("expected a deferred reply, got {:?}", other),
    };
    match p.take_event(du) {
        Some(Event::Read { request_id, .. }) => assert_eq!(request_id, id),
        other => panic!("expected a read event, got {:?}", other),
    }
    assert_eq!(p.value_of(du).unwrap(), &b"desc".to_vec());
    // descriptors have no subscription semantics
    assert!(!p.handle_subscribe(du));
}
