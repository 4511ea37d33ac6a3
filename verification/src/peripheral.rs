//! The peripheral controller and its event bridge: a state machine from
//! native callbacks and application calls to typed events, deferred replies
//! and outbound native actions.
//!
//! The bridge uses the fully asynchronous strategy: a native read/write
//! callback is turned into a decision at once — either an immediate result
//! code for the native respond primitive, or a queued typed event whose reply
//! arrives later through [`Peripheral::send_reply`]. The platform glue that
//! drives the native stack enforces the reply bound: after
//! [`Config::reply_timeout_ms`] milliseconds without an answer it calls
//! [`Peripheral::expire_reply`], which synthesizes a failure so the native
//! transaction is never left pending.

use vstd::prelude::*;

use crate::errors::{AttResult, Error, ReplyError};
use crate::events::{AdvertiseRequest, CallbackReply, Event, ManagerState, NativeReply};
use crate::gatt::{
    all_uuids_distinct, authorize, authorized, Authorization, Characteristic, Descriptor,
    Properties, SecurityLevel, Service, SubscribeCapability, WriteCapability, WriteKind,
    uuids_distinct,
};
use crate::uuid::Uuid;

verus! {

/// Bridge configuration. Every bound is a required, caller-chosen option:
/// the library fixes no hidden constants.
#[derive(Clone, Copy, PartialEq, Eq, Structural, Debug)]
pub struct Config {
    /// Bound of each attribute's event channel; a full channel makes further
    /// read and with-response write callbacks fail fast with a busy result.
    pub event_capacity: usize,
    /// Bound of each characteristic's notification channel; overflow drops
    /// the oldest pending payload (notifications are best-effort).
    pub notify_capacity: usize,
    /// How long the platform glue waits for an application reply before it
    /// expires the request with a synthetic failure.
    pub reply_timeout_ms: u64,
}

/// Runtime state of one registered characteristic or descriptor: its
/// capabilities, static value, subscription state, and bounded channels.
#[derive(Clone, PartialEq, Eq, Debug)]
pub struct Attribute {
    pub uuid: Uuid,
    pub read: Option<SecurityLevel>,
    pub write: Option<WriteCapability>,
    pub subscribe: Option<SubscribeCapability>,
    pub value: Option<Vec<u8>>,
    pub subscribed: bool,
    pub events: Vec<Event>,
    pub notifications: Vec<Vec<u8>>,
}

/// One in-flight request with a native-side reply obligation.
#[derive(Clone, Copy, PartialEq, Eq, Structural, Debug)]
pub struct PendingReply {
    pub id: u64,
    pub replied: bool,
}

/// How the bridge disposes of a native read callback.
#[derive(Clone, Copy, PartialEq, Eq, Structural, Debug)]
pub enum ReadDecision {
    /// No such attribute, or no read capability configured.
    NotSupported,
    /// The capability is secure and the link is not encrypted.
    Denied,
    /// The attribute's event channel is full.
    Busy,
    /// A read event is delivered and a reply becomes owed.
    Accepted,
}

/// How the bridge disposes of a native write callback.
#[derive(Clone, Copy, PartialEq, Eq, Structural, Debug)]
pub enum WriteDecision {
    /// No such attribute, or no write capability configured.
    NotSupported,
    /// The capability is secure and the link is not encrypted.
    Denied,
    /// A without-response write: acknowledged to the native stack at once.
    FireAndForget,
    /// The attribute's event channel is full.
    Busy,
    /// A with-response write event is delivered and a reply becomes owed.
    Accepted,
}

/// No attribute UUID occurs twice.
pub open spec fn attrs_distinct(s: Seq<Attribute>) -> bool {
    forall|i: int, j: int| 0 <= i < j < s.len() ==> s[i].uuid != s[j].uuid
}

/// No pending request identifier occurs twice.
pub open spec fn pending_distinct(s: Seq<PendingReply>) -> bool {
    forall|i: int, j: int| 0 <= i < j < s.len() ==> s[i].id != s[j].id
}

/// `true` exactly for the powered-on native state; every other state is
/// deliberately collapsed to "not powered".
pub open spec fn powered_of(s: ManagerState) -> bool {
    s is PoweredOn
}

/// `b` is `a` with (possibly) different channels and subscription state, but
/// the same identity, capabilities and static value.
pub open spec fn attr_same_identity(a: Attribute, b: Attribute) -> bool {
    &&& b.uuid == a.uuid
    &&& b.read == a.read
    &&& b.write == a.write
    &&& b.subscribe == a.subscribe
    &&& b.value == a.value
}

/// `b` is `a` with (possibly) different events; everything else is equal.
pub open spec fn attr_same_but_events(a: Attribute, b: Attribute) -> bool {
    &&& attr_same_identity(a, b)
    &&& b.subscribed == a.subscribed
    &&& b.notifications == a.notifications
}

/// The sequences agree everywhere except (possibly) at index `i`.
pub open spec fn attrs_same_except(s1: Seq<Attribute>, s2: Seq<Attribute>, i: int) -> bool {
    &&& s2.len() == s1.len()
    &&& forall|k: int| 0 <= k < s1.len() && k != i ==> s2[k] == s1[k]
}

/// The peripheral controller: the top-level state machine over power and
/// advertising lifecycle, the registered attribute table, and the pending
/// reply obligations. Single instance per process, owned by the platform
/// glue; every state mutation goes through its methods.
pub struct Peripheral {
    pub config: Config,
    /// Updated only from the native power-state callback.
    pub powered: bool,
    /// Updated only from the native advertising callback.
    pub advertising: bool,
    /// Set when the application asked to advertise; registration is rejected
    /// from then on.
    pub advertising_requested: bool,
    /// UUIDs of the registered services, in registration order.
    pub service_uuids: Vec<Uuid>,
    /// Registered characteristics and descriptors, flattened in registration
    /// order; routing is by UUID, so UUIDs are unique across the table.
    pub attrs: Vec<Attribute>,
    /// Every request that ever carried a reply obligation, and whether it has
    /// been answered.
    pub pending: Vec<PendingReply>,
    pub next_request_id: u64,
    /// Set by [`Peripheral::shutdown`]; no further events will be delivered.
    pub shut_down: bool,
}

impl Peripheral {
    /// The structural invariant every method preserves.
    pub open spec fn wf(self) -> bool {
        &&& 1 <= self.config.event_capacity
        &&& 1 <= self.config.notify_capacity
        &&& uuids_distinct(self.service_uuids@)
        &&& attrs_distinct(self.attrs@)
        &&& pending_distinct(self.pending@)
        &&& forall|i: int|
            0 <= i < self.attrs@.len() ==> (#[trigger] self.attrs@[i]).events@.len()
                <= self.config.event_capacity
        &&& forall|i: int|
            0 <= i < self.attrs@.len() ==> (#[trigger] self.attrs@[i]).notifications@.len()
                <= self.config.notify_capacity
        &&& forall|i: int|
            0 <= i < self.pending@.len() ==> (#[trigger] self.pending@[i]).id
                < self.next_request_id
    }

    /// Some attribute with this UUID is registered.
    pub open spec fn has_attr(self, u: Uuid) -> bool {
        exists|i: int| 0 <= i < self.attrs@.len() && (#[trigger] self.attrs@[i]).uuid == u
    }

    /// The index of the attribute with this UUID (unique when `wf`).
    pub open spec fn attr_idx(self, u: Uuid) -> int {
        choose|i: int| 0 <= i < self.attrs@.len() && (#[trigger] self.attrs@[i]).uuid == u
    }

    /// The registered attribute with this UUID.
    pub open spec fn attr_of(self, u: Uuid) -> Attribute {
        self.attrs@[self.attr_idx(u)]
    }

    /// A service with this UUID has been registered.
    pub open spec fn service_registered(self, u: Uuid) -> bool {
        exists|i: int| 0 <= i < self.service_uuids@.len() && self.service_uuids@[i] == u
    }

    /// A request with this identifier carries a reply obligation (answered
    /// or not).
    pub open spec fn has_pending(self, id: u64) -> bool {
        exists|i: int| 0 <= i < self.pending@.len() && (#[trigger] self.pending@[i]).id == id
    }

    /// The index of the pending entry with this identifier.
    pub open spec fn pending_idx(self, id: u64) -> int {
        choose|i: int| 0 <= i < self.pending@.len() && (#[trigger] self.pending@[i]).id == id
    }

    /// The request with this identifier has already been answered.
    pub open spec fn replied(self, id: u64) -> bool {
        self.has_pending(id) && self.pending@[self.pending_idx(id)].replied
    }

    /// A fresh, idle peripheral.
    pub fn new(config: Config) -> (r: Peripheral)
        requires
            1 <= config.event_capacity,
            1 <= config.notify_capacity,
        ensures
            r.wf(),
            r.config == config,
            !r.powered,
            !r.advertising,
            !r.advertising_requested,
            r.service_uuids@.len() == 0,
            r.attrs@.len() == 0,
            r.pending@.len() == 0,
            r.next_request_id == 0,
            !r.shut_down,
    {
        Peripheral {
            config,
            powered: false,
            advertising: false,
            advertising_requested: false,
            service_uuids: Vec::new(),
            attrs: Vec::new(),
            pending: Vec::new(),
            next_request_id: 0,
            shut_down: false,
        }
    }

    /// Finds the attribute table index for a UUID.
    fn find_attr(&self, u: Uuid) -> (r: Option<usize>)
        requires
            self.wf(),
        ensures
            match r {
                Some(i) => self.has_attr(u) && i == self.attr_idx(u) && i < self.attrs@.len()
                    && self.attrs@[i as int].uuid == u,
                None => !self.has_attr(u),
            },
    {
        let mut i: usize = 0;
        while i < self.attrs.len()
            invariant
                self.wf(),
                i <= self.attrs@.len(),
                forall|k: int| 0 <= k < i ==> (#[trigger] self.attrs@[k]).uuid != u,
            decreases self.attrs@.len() - i,
        {
            if self.attrs[i].uuid.value == u.value {
                proof {
                    assert(self.has_attr(u));
                    let j = self.attr_idx(u);
                    assert(0 <= j < self.attrs@.len() && self.attrs@[j].uuid == u);
                    if j != i as int {
                        assert(self.attrs@[j].uuid != self.attrs@[i as int].uuid);
                    }
                }
                return Some(i);
            }
            i += 1;
        }
        None
    }

    /// Finds the pending table index for a request identifier.
    fn find_pending(&self, id: u64) -> (r: Option<usize>)
        requires
            self.wf(),
        ensures
            match r {
                Some(i) => self.has_pending(id) && i == self.pending_idx(id) && i
                    < self.pending@.len() && self.pending@[i as int].id == id,
                None => !self.has_pending(id),
            },
    {
        let mut i: usize = 0;
        while i < self.pending.len()
            invariant
                self.wf(),
                i <= self.pending@.len(),
                forall|k: int| 0 <= k < i ==> (#[trigger] self.pending@[k]).id != id,
            decreases self.pending@.len() - i,
        {
            if self.pending[i].id == id {
                proof {
                    assert(self.has_pending(id));
                    let j = self.pending_idx(id);
                    assert(0 <= j < self.pending@.len() && self.pending@[j].id == id);
                    if j != i as int {
                        assert(self.pending@[j].id != self.pending@[i as int].id);
                    }
                }
                return Some(i);
            }
            i += 1;
        }
        None
    }

    /// Point-in-time snapshot of the power flag.
    pub fn is_powered(&self) -> (r: bool)
        ensures
            r == self.powered,
    {
        self.powered
    }

    /// Point-in-time snapshot of the advertising flag.
    pub fn is_advertising(&self) -> (r: bool)
        ensures
            r == self.advertising,
    {
        self.advertising
    }

    /// Native power-state callback: collapses the native state enumeration to
    /// the `powered` flag, true only for the powered-on state.
    pub fn handle_power_state(&mut self, state: ManagerState)
        requires
            old(self).wf(),
        ensures
            final(self).wf(),
            *final(self) == (Peripheral { powered: powered_of(state), ..*old(self) }),
    {
        match state {
            ManagerState::PoweredOn => {
                self.powered = true;
            },
            _ => {
                self.powered = false;
            },
        }
    }

    /// Native advertising-started callback. On success the `advertising` flag
    /// becomes observable; on failure the flag stays down, the outstanding
    /// request is cleared, and the native description comes back as a typed
    /// error for the application.
    pub fn handle_advertising_started(&mut self, error: Option<String>) -> (r: Option<Error>)
        requires
            old(self).wf(),
        ensures
            final(self).wf(),
            error is None ==> {
                &&& *final(self) == (Peripheral { advertising: true, ..*old(self) })
                &&& r is None
            },
            error matches Some(d) ==> {
                &&& *final(self) == (Peripheral {
                    advertising: false,
                    advertising_requested: false,
                    ..*old(self)
                })
                &&& (r matches Some(e) && e matches Error::NativeStack(dd) && dd@ == d@)
            },
    {
        match error {
            None => {
                self.advertising = true;
                None
            },
            Some(d) => {
                self.advertising = false;
                self.advertising_requested = false;
                Some(Error::NativeStack(d))
            },
        }
    }

    /// Native service-added callback: registration state does not change; a
    /// native failure description comes back as a typed error.
    pub fn handle_service_added(&mut self, error: Option<String>) -> (r: Option<Error>)
        requires
            old(self).wf(),
        ensures
            final(self).wf(),
            *final(self) == *old(self),
            error is None ==> r is None,
            error matches Some(d) ==> (r matches Some(e) && e matches Error::NativeStack(dd)
                && dd@ == d@),
    {
        match error {
            None => None,
            Some(d) => Some(Error::NativeStack(d)),
        }
    }
}

/// Appends an event to one attribute's channel, leaving the rest of the
/// table untouched.
fn push_event(attrs: &mut Vec<Attribute>, i: usize, ev: Event)
    requires
        i < old(attrs)@.len(),
    ensures
        attrs_same_except(old(attrs)@, final(attrs)@, i as int),
        attr_same_but_events(old(attrs)@[i as int], final(attrs)@[i as int]),
        final(attrs)@[i as int].events@ == old(attrs)@[i as int].events@.push(ev),
{
    let a = &mut attrs[i];
    a.events.push(ev);
}

impl Peripheral {
    /// How a native read callback for this UUID is disposed of, given the
    /// current link security.
    pub open spec fn read_decision(self, u: Uuid, link_encrypted: bool) -> ReadDecision {
        if !self.has_attr(u) || self.attr_of(u).read is None {
            ReadDecision::NotSupported
        } else if !authorized(self.attr_of(u).read->Some_0, link_encrypted) {
            ReadDecision::Denied
        } else if self.attr_of(u).events@.len() >= self.config.event_capacity {
            ReadDecision::Busy
        } else {
            ReadDecision::Accepted
        }
    }

    /// How a native write callback for this UUID is disposed of.
    pub open spec fn write_decision(self, u: Uuid, link_encrypted: bool) -> WriteDecision {
        if !self.has_attr(u) || self.attr_of(u).write is None {
            WriteDecision::NotSupported
        } else if !authorized(self.attr_of(u).write->Some_0.security, link_encrypted) {
            WriteDecision::Denied
        } else if self.attr_of(u).write->Some_0.kind == WriteKind::WithoutResponse {
            WriteDecision::FireAndForget
        } else if self.attr_of(u).events@.len() >= self.config.event_capacity {
            WriteDecision::Busy
        } else {
            WriteDecision::Accepted
        }
    }

    /// The parts of the state a request callback never touches.
    pub open spec fn same_core(a: Peripheral, b: Peripheral) -> bool {
        &&& b.config == a.config
        &&& b.powered == a.powered
        &&& b.advertising == a.advertising
        &&& b.advertising_requested == a.advertising_requested
        &&& b.service_uuids == a.service_uuids
        &&& b.shut_down == a.shut_down
    }

    /// Native read-request callback. Resolves the attribute, authorizes, and
    /// either answers at once (unknown attribute, denied, or busy) or
    /// delivers a `Read` event and defers the reply to the fresh request
    /// identifier.
    pub fn handle_read_request(
        &mut self,
        u: Uuid,
        device: u64,
        offset: u64,
        link_encrypted: bool,
    ) -> (r: CallbackReply)
        requires
            old(self).wf(),
            old(self).next_request_id < u64::MAX,
        ensures
            final(self).wf(),
            match old(self).read_decision(u, link_encrypted) {
                ReadDecision::NotSupported => r == CallbackReply::Respond(
                    AttResult::RequestNotSupported,
                ) && *final(self) == *old(self),
                ReadDecision::Denied => r == CallbackReply::Respond(
                    AttResult::InsufficientAuthentication,
                ) && *final(self) == *old(self),
                ReadDecision::Busy => r == CallbackReply::Respond(
                    AttResult::InsufficientResources,
                ) && *final(self) == *old(self),
                ReadDecision::Accepted => {
                    let i = old(self).attr_idx(u);
                    &&& r == CallbackReply::Deferred(old(self).next_request_id)
                    &&& Self::same_core(*old(self), *final(self))
                    &&& final(self).next_request_id == old(self).next_request_id + 1
                    &&& final(self).pending@ == old(self).pending@.push(
                        (PendingReply { id: old(self).next_request_id, replied: false }),
                    )
                    &&& attrs_same_except(old(self).attrs@, final(self).attrs@, i)
                    &&& attr_same_but_events(old(self).attrs@[i], final(self).attrs@[i])
                    &&& final(self).attrs@[i].events@ == old(self).attrs@[i].events@.push(
                        (Event::Read { request_id: old(self).next_request_id, device, offset }),
                    )
                    &&& !old(self).has_pending(old(self).next_request_id)
                },
            },
    {
        let i_opt = self.find_attr(u);
        let i = match i_opt {
            None => {
                return CallbackReply::Respond(AttResult::RequestNotSupported);
            },
            Some(i) => i,
        };
        let level = match self.attrs[i].read {
            None => {
                return CallbackReply::Respond(AttResult::RequestNotSupported);
            },
            Some(l) => l,
        };
        if matches!(authorize(level, link_encrypted), Authorization::Denied) {
            return CallbackReply::Respond(AttResult::InsufficientAuthentication);
        }
        if self.attrs[i].events.len() >= self.config.event_capacity {
            return CallbackReply::Respond(AttResult::InsufficientResources);
        }
        let id = self.next_request_id;
        self.next_request_id = id + 1;
        proof {
            if old(self).has_pending(id) {
                let k = old(self).pending_idx(id);
                assert(old(self).pending@[k].id < id);
            }
        }
        self.pending.push(PendingReply { id, replied: false });
        push_event(&mut self.attrs, i, Event::Read { request_id: id, device, offset });
        CallbackReply::Deferred(id)
    }

    /// Native write-request callback. Resolves the attribute, authorizes,
    /// and delivers a `Write` event. A without-response write is always
    /// acknowledged with success at once — fire-and-forget by protocol
    /// definition — and its event carries no request identifier; a full
    /// channel then loses the event but still acknowledges. A with-response
    /// write defers its reply like a read.
    pub fn handle_write_request(
        &mut self,
        u: Uuid,
        offset: u64,
        value: Vec<u8>,
        link_encrypted: bool,
    ) -> (r: CallbackReply)
        requires
            old(self).wf(),
            old(self).next_request_id < u64::MAX,
        ensures
            final(self).wf(),
            match old(self).write_decision(u, link_encrypted) {
                WriteDecision::NotSupported => r == CallbackReply::Respond(
                    AttResult::RequestNotSupported,
                ) && *final(self) == *old(self),
                WriteDecision::Denied => r == CallbackReply::Respond(
                    AttResult::InsufficientAuthentication,
                ) && *final(self) == *old(self),
                WriteDecision::Busy => r == CallbackReply::Respond(
                    AttResult::InsufficientResources,
                ) && *final(self) == *old(self),
                WriteDecision::FireAndForget => {
                    let i = old(self).attr_idx(u);
                    &&& r == CallbackReply::Respond(AttResult::Success)
                    &&& Self::same_core(*old(self), *final(self))
                    &&& final(self).next_request_id == old(self).next_request_id
                    &&& final(self).pending@ == old(self).pending@
                    &&& attrs_same_except(old(self).attrs@, final(self).attrs@, i)
                    &&& attr_same_but_events(old(self).attrs@[i], final(self).attrs@[i])
                    &&& (old(self).attrs@[i].events@.len() < old(self).config.event_capacity
                        ==> final(self).attrs@[i].events@ == old(self).attrs@[i].events@.push(
                        (Event::Write { reply_id: None, offset, value }),
                    ))
                    &&& (old(self).attrs@[i].events@.len() >= old(self).config.event_capacity
                        ==> final(self).attrs@[i].events@ == old(self).attrs@[i].events@)
                },
                WriteDecision::Accepted => {
                    let i = old(self).attr_idx(u);
                    &&& r == CallbackReply::Deferred(old(self).next_request_id)
                    &&& Self::same_core(*old(self), *final(self))
                    &&& final(self).next_request_id == old(self).next_request_id + 1
                    &&& final(self).pending@ == old(self).pending@.push(
                        (PendingReply { id: old(self).next_request_id, replied: false }),
                    )
                    &&& attrs_same_except(old(self).attrs@, final(self).attrs@, i)
                    &&& attr_same_but_events(old(self).attrs@[i], final(self).attrs@[i])
                    &&& final(self).attrs@[i].events@ == old(self).attrs@[i].events@.push(
                        (Event::Write {
                            reply_id: Some(old(self).next_request_id),
                            offset,
                            value,
                        }),
                    )
                    &&& !old(self).has_pending(old(self).next_request_id)
                },
            },
    {
        let i_opt = self.find_attr(u);
        let i = match i_opt {
            None => {
                return CallbackReply::Respond(AttResult::RequestNotSupported);
            },
            Some(i) => i,
        };
        let cap = match self.attrs[i].write {
            None => {
                return CallbackReply::Respond(AttResult::RequestNotSupported);
            },
            Some(c) => c,
        };
        if matches!(authorize(cap.security, link_encrypted), Authorization::Denied) {
            return CallbackReply::Respond(AttResult::InsufficientAuthentication);
        }
        if matches!(cap.kind, WriteKind::WithoutResponse) {
            if self.attrs[i].events.len() < self.config.event_capacity {
                push_event(&mut self.attrs, i, Event::Write { reply_id: None, offset, value });
            }
            return CallbackReply::Respond(AttResult::Success);
        }
        if self.attrs[i].events.len() >= self.config.event_capacity {
            return CallbackReply::Respond(AttResult::InsufficientResources);
        }
        let id = self.next_request_id;
        self.next_request_id = id + 1;
        proof {
            if old(self).has_pending(id) {
                let k = old(self).pending_idx(id);
                assert(old(self).pending@[k].id < id);
            }
        }
        self.pending.push(PendingReply { id, replied: false });
        push_event(&mut self.attrs, i, Event::Write { reply_id: Some(id), offset, value });
        CallbackReply::Deferred(id)
    }
}

/// What one bounded, drop-oldest push leaves in a notification channel of
/// capacity `cap`.
pub open spec fn push_bounded(q: Seq<Vec<u8>>, p: Vec<u8>, cap: nat) -> Seq<Vec<u8>> {
    if q.len() < cap {
        q.push(p)
    } else {
        q.skip(1).push(p)
    }
}

/// Sets one attribute's subscription flag, leaving the rest of the table
/// untouched.
fn set_subscribed(attrs: &mut Vec<Attribute>, i: usize, subscribed: bool)
    requires
        i < old(attrs)@.len(),
    ensures
        attrs_same_except(old(attrs)@, final(attrs)@, i as int),
        attr_same_identity(old(attrs)@[i as int], final(attrs)@[i as int]),
        final(attrs)@[i as int].subscribed == subscribed,
        final(attrs)@[i as int].events == old(attrs)@[i as int].events,
        final(attrs)@[i as int].notifications == old(attrs)@[i as int].notifications,
{
    let a = &mut attrs[i];
    a.subscribed = subscribed;
}

impl Peripheral {
    /// The attribute exists and has a subscription capability.
    pub open spec fn subscribe_supported(self, u: Uuid) -> bool {
        self.has_attr(u) && self.attr_of(u).subscribe is Some
    }

    /// Whether pushed notification payloads are currently forwarded.
    pub open spec fn notify_outcome(self, u: Uuid) -> Result<(), Error> {
        if self.subscribe_supported(u) && self.attr_of(u).subscribed {
            Ok(())
        } else {
            Err(Error::NotSubscribed)
        }
    }

    /// Native subscribe callback: marks the characteristic subscribed and
    /// delivers a `NotifySubscribe` event (if its channel has room). There is
    /// no native-side reply obligation. Returns whether a subscription
    /// capability was configured at all.
    pub fn handle_subscribe(&mut self, u: Uuid) -> (r: bool)
        requires
            old(self).wf(),
        ensures
            final(self).wf(),
            r == old(self).subscribe_supported(u),
            !r ==> *final(self) == *old(self),
            r ==> {
                let i = old(self).attr_idx(u);
                &&& Self::same_core(*old(self), *final(self))
                &&& final(self).pending@ == old(self).pending@
                &&& final(self).next_request_id == old(self).next_request_id
                &&& attrs_same_except(old(self).attrs@, final(self).attrs@, i)
                &&& attr_same_identity(old(self).attrs@[i], final(self).attrs@[i])
                &&& final(self).attrs@[i].subscribed
                &&& final(self).attrs@[i].notifications == old(self).attrs@[i].notifications
                &&& (old(self).attrs@[i].events@.len() < old(self).config.event_capacity
                    ==> final(self).attrs@[i].events@ == old(self).attrs@[i].events@.push(
                    Event::NotifySubscribe,
                ))
                &&& (old(self).attrs@[i].events@.len() >= old(self).config.event_capacity
                    ==> final(self).attrs@[i].events@ == old(self).attrs@[i].events@)
            },
    {
        let i_opt = self.find_attr(u);
        let i = match i_opt {
            None => {
                return false;
            },
            Some(i) => i,
        };
        if self.attrs[i].subscribe.is_none() {
            return false;
        }
        set_subscribed(&mut self.attrs, i, true);
        if self.attrs[i].events.len() < self.config.event_capacity {
            push_event(&mut self.attrs, i, Event::NotifySubscribe);
        }
        true
    }

    /// Native unsubscribe callback: marks the characteristic unsubscribed and
    /// delivers a `NotifyUnsubscribe` event (if its channel has room).
    pub fn handle_unsubscribe(&mut self, u: Uuid) -> (r: bool)
        requires
            old(self).wf(),
        ensures
            final(self).wf(),
            r == old(self).subscribe_supported(u),
            !r ==> *final(self) == *old(self),
            r ==> {
                let i = old(self).attr_idx(u);
                &&& Self::same_core(*old(self), *final(self))
                &&& final(self).pending@ == old(self).pending@
                &&& final(self).next_request_id == old(self).next_request_id
                &&& attrs_same_except(old(self).attrs@, final(self).attrs@, i)
                &&& attr_same_identity(old(self).attrs@[i], final(self).attrs@[i])
                &&& !final(self).attrs@[i].subscribed
                &&& final(self).attrs@[i].notifications == old(self).attrs@[i].notifications
                &&& (old(self).attrs@[i].events@.len() < old(self).config.event_capacity
                    ==> final(self).attrs@[i].events@ == old(self).attrs@[i].events@.push(
                    Event::NotifyUnsubscribe,
                ))
                &&& (old(self).attrs@[i].events@.len() >= old(self).config.event_capacity
                    ==> final(self).attrs@[i].events@ == old(self).attrs@[i].events@)
            },
    {
        let i_opt = self.find_attr(u);
        let i = match i_opt {
            None => {
                return false;
            },
            Some(i) => i,
        };
        if self.attrs[i].subscribe.is_none() {
            return false;
        }
        set_subscribed(&mut self.attrs, i, false);
        if self.attrs[i].events.len() < self.config.event_capacity {
            push_event(&mut self.attrs, i, Event::NotifyUnsubscribe);
        }
        true
    }

    /// Application-side push of a notification payload. Accepted only while
    /// subscribed; on overflow the oldest pending payload is dropped, never
    /// the new one — notifications are best-effort, favoring liveness.
    pub fn push_notification(&mut self, u: Uuid, payload: Vec<u8>) -> (r: Result<(), Error>)
        requires
            old(self).wf(),
        ensures
            final(self).wf(),
            r == old(self).notify_outcome(u),
            r is Err ==> *final(self) == *old(self),
            r is Ok ==> {
                let i = old(self).attr_idx(u);
                &&& Self::same_core(*old(self), *final(self))
                &&& final(self).pending@ == old(self).pending@
                &&& final(self).next_request_id == old(self).next_request_id
                &&& attrs_same_except(old(self).attrs@, final(self).attrs@, i)
                &&& attr_same_identity(old(self).attrs@[i], final(self).attrs@[i])
                &&& final(self).attrs@[i].subscribed == old(self).attrs@[i].subscribed
                &&& final(self).attrs@[i].events == old(self).attrs@[i].events
                &&& final(self).attrs@[i].notifications@ == push_bounded(
                    old(self).attrs@[i].notifications@,
                    payload,
                    old(self).config.notify_capacity as nat,
                )
            },
    {
        let i_opt = self.find_attr(u);
        let i = match i_opt {
            None => {
                return Err(Error::NotSubscribed);
            },
            Some(i) => i,
        };
        if self.attrs[i].subscribe.is_none() || !self.attrs[i].subscribed {
            return Err(Error::NotSubscribed);
        }
        let a = &mut self.attrs[i];
        if a.notifications.len() >= self.config.notify_capacity {
            let _oldest = a.notifications.remove(0);
            proof {
                assert(old(self).attrs@[i as int].notifications@.remove(0) =~= old(self).attrs@[i as int].notifications@.skip(1));
            }
        }
        a.notifications.push(payload);
        Ok(())
    }

    /// Bridge-side pull of the oldest pending notification payload, bound for
    /// the native update-value primitive.
    pub fn take_notification(&mut self, u: Uuid) -> (r: Option<Vec<u8>>)
        requires
            old(self).wf(),
        ensures
            final(self).wf(),
            !(old(self).has_attr(u) && old(self).attr_of(u).notifications@.len() > 0) ==> r
                is None && *final(self) == *old(self),
            old(self).has_attr(u) && old(self).attr_of(u).notifications@.len() > 0 ==> {
                let i = old(self).attr_idx(u);
                &&& (r matches Some(p) && p == old(self).attrs@[i].notifications@[0])
                &&& Self::same_core(*old(self), *final(self))
                &&& final(self).pending@ == old(self).pending@
                &&& final(self).next_request_id == old(self).next_request_id
                &&& attrs_same_except(old(self).attrs@, final(self).attrs@, i)
                &&& attr_same_identity(old(self).attrs@[i], final(self).attrs@[i])
                &&& final(self).attrs@[i].subscribed == old(self).attrs@[i].subscribed
                &&& final(self).attrs@[i].events == old(self).attrs@[i].events
                &&& final(self).attrs@[i].notifications@ == old(self).attrs@[i].notifications@.skip(1)
            },
    {
        let i_opt = self.find_attr(u);
        let i = match i_opt {
            None => {
                return None;
            },
            Some(i) => i,
        };
        if self.attrs[i].notifications.len() == 0 {
            return None;
        }
        let a = &mut self.attrs[i];
        let p = a.notifications.remove(0);
        proof {
            assert(old(self).attrs@[i as int].notifications@.remove(0) =~= old(self).attrs@[i as int].notifications@.skip(1));
        }
        Some(p)
    }

    /// Application-side pull of the oldest undelivered event for an
    /// attribute, in native callback order.
    pub fn take_event(&mut self, u: Uuid) -> (r: Option<Event>)
        requires
            old(self).wf(),
        ensures
            final(self).wf(),
            !(old(self).has_attr(u) && old(self).attr_of(u).events@.len() > 0) ==> r is None && *final(self) == *old(self),
            old(self).has_attr(u) && old(self).attr_of(u).events@.len() > 0 ==> {
                let i = old(self).attr_idx(u);
                &&& (r matches Some(e) && e == old(self).attrs@[i].events@[0])
                &&& Self::same_core(*old(self), *final(self))
                &&& final(self).pending@ == old(self).pending@
                &&& final(self).next_request_id == old(self).next_request_id
                &&& attrs_same_except(old(self).attrs@, final(self).attrs@, i)
                &&& attr_same_but_events(old(self).attrs@[i], final(self).attrs@[i])
                &&& final(self).attrs@[i].events@ == old(self).attrs@[i].events@.skip(1)
            },
    {
        let i_opt = self.find_attr(u);
        let i = match i_opt {
            None => {
                return None;
            },
            Some(i) => i,
        };
        if self.attrs[i].events.len() == 0 {
            return None;
        }
        let a = &mut self.attrs[i];
        let e = a.events.remove(0);
        proof {
            assert(old(self).attrs@[i as int].events@.remove(0) =~= old(self).attrs@[i as int].events@.skip(1));
        }
        Some(e)
    }

    /// The static value registered for an attribute, if any.
    pub fn value_of(&self, u: Uuid) -> (r: Option<&Vec<u8>>)
        requires
            self.wf(),
        ensures
            self.has_attr(u) && self.attr_of(u).value is Some ==> (r matches Some(v) && v
                == self.attr_of(u).value->Some_0),
            !(self.has_attr(u) && self.attr_of(u).value is Some) ==> r is None,
    {
        let i_opt = self.find_attr(u);
        match i_opt {
            None => None,
            Some(i) => {
                match &self.attrs[i].value {
                    None => None,
                    Some(v) => Some(v),
                }
            },
        }
    }

    /// Whether the attribute is currently subscribed.
    pub fn is_subscribed(&self, u: Uuid) -> (r: bool)
        requires
            self.wf(),
        ensures
            r == (self.has_attr(u) && self.attr_of(u).subscribed),
    {
        let i_opt = self.find_attr(u);
        match i_opt {
            None => false,
            Some(i) => self.attrs[i].subscribed,
        }
    }
}

/// The failure replies that tearing the bridge down owes the native stack:
/// one `UnlikelyError` per pending request not yet answered, in order.
pub open spec fn synthetic_replies(ps: Seq<PendingReply>) -> Seq<NativeReply>
    decreases ps.len(),
{
    if ps.len() == 0 {
        Seq::empty()
    } else {
        synthetic_replies(ps.drop_last()) + (if ps.last().replied {
            Seq::<NativeReply>::empty()
        } else {
            seq![
                (NativeReply {
                    request_id: ps.last().id,
                    result: AttResult::UnlikelyError,
                    value: None,
                }),
            ]
        })
    }
}

impl Peripheral {
    /// Whether a reply to this request identifier would be forwarded, or why
    /// it is a protocol violation.
    pub open spec fn reply_outcome(self, id: u64) -> Result<(), ReplyError> {
        if !self.has_pending(id) {
            Err(ReplyError::UnknownRequest)
        } else if self.replied(id) {
            Err(ReplyError::AlreadyReplied)
        } else {
            Ok(())
        }
    }

    /// Answers an in-flight request. The first answer yields the reply to
    /// forward to the native respond primitive; any further answer is a
    /// protocol violation reported as `AlreadyReplied`, with no state change
    /// and no second native call.
    pub fn send_reply(&mut self, request_id: u64, result: AttResult, value: Option<Vec<u8>>) -> (r:
        Result<NativeReply, ReplyError>)
        requires
            old(self).wf(),
        ensures
            final(self).wf(),
            match old(self).reply_outcome(request_id) {
                Err(e) => r == Err::<NativeReply, ReplyError>(e) && *final(self) == *old(self),
                Ok(()) => {
                    &&& (r matches Ok(n) && n == (NativeReply { request_id, result, value }))
                    &&& final(self).pending@ == old(self).pending@.update(
                        old(self).pending_idx(request_id),
                        (PendingReply { id: request_id, replied: true }),
                    )
                    &&& *final(self) == (Peripheral {
                        pending: final(self).pending,
                        ..*old(self)
                    })
                    &&& final(self).replied(request_id)
                },
            },
    {
        let i_opt = self.find_pending(request_id);
        let i = match i_opt {
            None => {
                return Err(ReplyError::UnknownRequest);
            },
            Some(i) => i,
        };
        if self.pending[i].replied {
            return Err(ReplyError::AlreadyReplied);
        }
        self.pending[i] = PendingReply { id: request_id, replied: true };
        proof {
            assert forall|a: int, b: int|
                0 <= a < b < self.pending@.len() implies self.pending@[a].id
                != self.pending@[b].id by {
                assert(old(self).pending@[a].id != old(self).pending@[b].id);
            }
            assert(self.has_pending(request_id));
            let j = self.pending_idx(request_id);
            assert(0 <= j < self.pending@.len() && self.pending@[j].id == request_id);
            if j != i as int {
                assert(self.pending@[j].id != self.pending@[i as int].id);
            }
        }
        Ok(NativeReply { request_id, result, value })
    }

    /// Expires an unanswered request — the platform glue calls this when the
    /// application has not replied within [`Config::reply_timeout_ms`], or
    /// has dropped the request without answering. Synthesizes the failure
    /// reply owed to the native stack; a later application reply then lands
    /// as `AlreadyReplied` and is discarded.
    pub fn expire_reply(&mut self, request_id: u64) -> (r: Option<NativeReply>)
        requires
            old(self).wf(),
        ensures
            final(self).wf(),
            match old(self).reply_outcome(request_id) {
                Err(_) => r is None && *final(self) == *old(self),
                Ok(()) => {
                    &&& r == Some(
                        (NativeReply {
                            request_id,
                            result: AttResult::UnlikelyError,
                            value: None,
                        }),
                    )
                    &&& final(self).pending@ == old(self).pending@.update(
                        old(self).pending_idx(request_id),
                        (PendingReply { id: request_id, replied: true }),
                    )
                    &&& *final(self) == (Peripheral {
                        pending: final(self).pending,
                        ..*old(self)
                    })
                    &&& final(self).replied(request_id)
                },
            },
    {
        match self.send_reply(request_id, AttResult::UnlikelyError, None) {
            Ok(n) => Some(n),
            Err(_) => None,
        }
    }

    /// Whether a start-advertising call would be forwarded to the native
    /// stack, or why it fails fast.
    pub open spec fn advertise_outcome(self) -> Result<(), Error> {
        if !self.powered {
            Err(Error::NotPoweredOn)
        } else if self.advertising_requested || self.advertising {
            Err(Error::AlreadyAdvertising)
        } else {
            Ok(())
        }
    }

    /// Asks to advertise under `name`, listing every registered service plus
    /// `extra_service_uuids`. Fails fast while not powered on rather than
    /// queuing. On success the returned action goes to the native
    /// start-advertising primitive; the `advertising` flag itself only turns
    /// on when the native stack confirms via
    /// [`Peripheral::handle_advertising_started`].
    pub fn start_advertising(&mut self, name: String, extra_service_uuids: Vec<Uuid>) -> (r: Result<
        AdvertiseRequest,
        Error,
    >)
        requires
            old(self).wf(),
        ensures
            final(self).wf(),
            match old(self).advertise_outcome() {
                Err(e) => r == Err::<AdvertiseRequest, Error>(e) && *final(self) == *old(self),
                Ok(()) => {
                    &&& (r matches Ok(a) && a.name == name && a.service_uuids@ == old(
                        self,
                    ).service_uuids@ + extra_service_uuids@)
                    &&& *final(self) == (Peripheral {
                        advertising_requested: true,
                        ..*old(self)
                    })
                },
            },
    {
        if !self.powered {
            return Err(Error::NotPoweredOn);
        }
        if self.advertising_requested || self.advertising {
            return Err(Error::AlreadyAdvertising);
        }
        let mut uuids: Vec<Uuid> = Vec::new();
        let mut i: usize = 0;
        while i < self.service_uuids.len()
            invariant
                i <= self.service_uuids@.len(),
                uuids@ == self.service_uuids@.take(i as int),
            decreases self.service_uuids@.len() - i,
        {
            uuids.push(self.service_uuids[i]);
            proof {
                assert(self.service_uuids@.take(i + 1) =~= self.service_uuids@.take(i as int).push(
                    self.service_uuids@[i as int],
                ));
            }
            i += 1;
        }
        proof {
            assert(self.service_uuids@.take(self.service_uuids@.len() as int)
                =~= self.service_uuids@);
        }
        let mut extra = extra_service_uuids;
        uuids.append(&mut extra);
        self.advertising_requested = true;
        Ok(AdvertiseRequest { name, service_uuids: uuids })
    }

    /// Stops advertising. Best-effort: the native stack is told to stop and
    /// the observable flags drop at once.
    pub fn stop_advertising(&mut self) -> (r: Result<(), Error>)
        requires
            old(self).wf(),
        ensures
            final(self).wf(),
            !(old(self).advertising_requested || old(self).advertising) ==> r == Err::<(), Error>(
                Error::NotAdvertising,
            ) && *final(self) == *old(self),
            old(self).advertising_requested || old(self).advertising ==> r == Ok::<(), Error>(())
                && *final(self) == (Peripheral {
                advertising: false,
                advertising_requested: false,
                ..*old(self)
            }),
    {
        if !(self.advertising_requested || self.advertising) {
            return Err(Error::NotAdvertising);
        }
        self.advertising = false;
        self.advertising_requested = false;
        Ok(())
    }

    /// Tears the bridge down: stops advertising, ends every subscription,
    /// marks the peripheral shut down, and synthesizes the failure reply owed
    /// for every request still unanswered, so no native transaction is left
    /// pending. The returned replies go to the native respond primitive
    /// before the rest of teardown completes.
    pub fn shutdown(&mut self) -> (r: Vec<NativeReply>)
        requires
            old(self).wf(),
        ensures
            final(self).wf(),
            final(self).shut_down,
            !final(self).advertising,
            !final(self).advertising_requested,
            final(self).powered == old(self).powered,
            final(self).config == old(self).config,
            final(self).service_uuids == old(self).service_uuids,
            final(self).next_request_id == old(self).next_request_id,
            r@ == synthetic_replies(old(self).pending@),
            final(self).pending@.len() == old(self).pending@.len(),
            forall|k: int|
                0 <= k < old(self).pending@.len() ==> (#[trigger] final(self).pending@[k]).id
                    == old(self).pending@[k].id && final(self).pending@[k].replied,
            final(self).attrs@.len() == old(self).attrs@.len(),
            forall|k: int|
                0 <= k < old(self).attrs@.len() ==> {
                    &&& attr_same_identity(
                        old(self).attrs@[k],
                        #[trigger] final(self).attrs@[k],
                    )
                    &&& !final(self).attrs@[k].subscribed
                    &&& final(self).attrs@[k].events == old(self).attrs@[k].events
                    &&& final(self).attrs@[k].notifications == old(self).attrs@[k].notifications
                },
    {
        let ghost orig = *self;
        let mut out: Vec<NativeReply> = Vec::new();
        let mut i: usize = 0;
        while i < self.pending.len()
            invariant
                i <= self.pending@.len(),
                self.pending@.len() == orig.pending@.len(),
                forall|k: int|
                    i <= k < orig.pending@.len() ==> (#[trigger] self.pending@[k])
                        == orig.pending@[k],
                forall|k: int|
                    0 <= k < i ==> (#[trigger] self.pending@[k]).id == orig.pending@[k].id
                        && self.pending@[k].replied,
                out@ == synthetic_replies(orig.pending@.take(i as int)),
                self.config == orig.config,
                self.powered == orig.powered,
                self.advertising == orig.advertising,
                self.advertising_requested == orig.advertising_requested,
                self.service_uuids == orig.service_uuids,
                self.attrs == orig.attrs,
                self.next_request_id == orig.next_request_id,
                self.shut_down == orig.shut_down,
            decreases self.pending@.len() - i,
        {
            let p = self.pending[i];
            if !p.replied {
                out.push(NativeReply { request_id: p.id, result: AttResult::UnlikelyError, value: None });
                self.pending[i] = PendingReply { id: p.id, replied: true };
            }
            proof {
                let t1 = orig.pending@.take(i + 1);
                assert(t1.drop_last() =~= orig.pending@.take(i as int));
                assert(t1.last() == orig.pending@[i as int]);
            }
            i += 1;
        }
        proof {
            assert(orig.pending@.take(orig.pending@.len() as int) =~= orig.pending@);
        }
        let mut j: usize = 0;
        while j < self.attrs.len()
            invariant
                j <= self.attrs@.len(),
                self.attrs@.len() == orig.attrs@.len(),
                self.pending@.len() == orig.pending@.len(),
                forall|k: int|
                    0 <= k < orig.pending@.len() ==> (#[trigger] self.pending@[k]).id
                        == orig.pending@[k].id && self.pending@[k].replied,
                out@ == synthetic_replies(orig.pending@),
                self.config == orig.config,
                self.powered == orig.powered,
                self.advertising == orig.advertising,
                self.advertising_requested == orig.advertising_requested,
                self.service_uuids == orig.service_uuids,
                self.next_request_id == orig.next_request_id,
                self.shut_down == orig.shut_down,
                forall|k: int|
                    j <= k < orig.attrs@.len() ==> (#[trigger] self.attrs@[k]) == orig.attrs@[k],
                forall|k: int|
                    0 <= k < j ==> {
                        &&& attr_same_identity(orig.attrs@[k], #[trigger] self.attrs@[k])
                        &&& !self.attrs@[k].subscribed
                        &&& self.attrs@[k].events == orig.attrs@[k].events
                        &&& self.attrs@[k].notifications == orig.attrs@[k].notifications
                    },
            decreases self.attrs@.len() - j,
        {
            set_subscribed(&mut self.attrs, j, false);
            j += 1;
        }
        self.advertising = false;
        self.advertising_requested = false;
        self.shut_down = true;
        proof {
            assert forall|a: int, b: int|
                0 <= a < b < self.attrs@.len() implies self.attrs@[a].uuid
                != self.attrs@[b].uuid by {
                assert(orig.attrs@[a].uuid != orig.attrs@[b].uuid);
            }
            assert forall|a: int, b: int|
                0 <= a < b < self.pending@.len() implies self.pending@[a].id
                != self.pending@[b].id by {
                assert(orig.pending@[a].id != orig.pending@[b].id);
            }
        }
        out
    }
}

/// The registration-time content of one attribute: identity, capabilities
/// and static value, as copied out of a characteristic or descriptor.
pub ghost struct AttrInfo {
    pub uuid: Uuid,
    pub read: Option<SecurityLevel>,
    pub write: Option<WriteCapability>,
    pub subscribe: Option<SubscribeCapability>,
    pub value: Option<Seq<u8>>,
}

pub open spec fn opt_bytes_view(v: Option<Vec<u8>>) -> Option<Seq<u8>> {
    match v {
        Option::None => None,
        Option::Some(b) => Some(b@),
    }
}

/// The registration-time content of a runtime attribute.
pub open spec fn attr_info(a: Attribute) -> AttrInfo {
    AttrInfo {
        uuid: a.uuid,
        read: a.read,
        write: a.write,
        subscribe: a.subscribe,
        value: opt_bytes_view(a.value),
    }
}

/// What registering a descriptor contributes: no subscription semantics.
pub open spec fn descriptor_info(d: Descriptor) -> AttrInfo {
    AttrInfo {
        uuid: d.uuid,
        read: d.read,
        write: d.write,
        subscribe: None,
        value: opt_bytes_view(d.value),
    }
}

/// What registering a characteristic itself contributes.
pub open spec fn char_info(c: Characteristic) -> AttrInfo {
    AttrInfo {
        uuid: c.uuid,
        read: c.properties.read,
        write: c.properties.write,
        subscribe: c.properties.subscribe,
        value: opt_bytes_view(c.value),
    }
}

/// A characteristic's slice of the attribute table: itself, then its
/// descriptors in order.
pub open spec fn char_block(c: Characteristic) -> Seq<AttrInfo> {
    seq![char_info(c)] + c.descriptors@.map_values(|d: Descriptor| descriptor_info(d))
}

/// A whole service's slice of the attribute table: each characteristic's
/// block, in order.
pub open spec fn service_attr_infos(cs: Seq<Characteristic>) -> Seq<AttrInfo>
    decreases cs.len(),
{
    if cs.len() == 0 {
        Seq::empty()
    } else {
        service_attr_infos(cs.drop_last()) + char_block(cs.last())
    }
}

pub open spec fn info_uuids(s: Seq<AttrInfo>) -> Seq<Uuid> {
    s.map_values(|a: AttrInfo| a.uuid)
}

/// Flattens a service's characteristic set into fresh runtime attributes:
/// each characteristic followed by its descriptors, with empty channels and
/// no subscription.
fn collect_attributes(characteristics: Vec<Characteristic>) -> (out: Vec<Attribute>)
    ensures
        out@.map_values(|a: Attribute| attr_info(a)) == service_attr_infos(characteristics@),
        forall|k: int|
            0 <= k < out@.len() ==> {
                &&& !(#[trigger] out@[k]).subscribed
                &&& out@[k].events@.len() == 0
                &&& out@[k].notifications@.len() == 0
            },
{
    let ghost orig = characteristics@;
    let mut cs = characteristics;
    let total = cs.len();
    let mut out: Vec<Attribute> = Vec::new();
    let mut i: usize = 0;
    while cs.len() > 0
        invariant
            orig.len() == total,
            i + cs@.len() == orig.len(),
            cs@ == orig.skip(i as int),
            out@.map_values(|a: Attribute| attr_info(a)) == service_attr_infos(
                orig.take(i as int),
            ),
            forall|k: int|
                0 <= k < out@.len() ==> {
                    &&& !(#[trigger] out@[k]).subscribed
                    &&& out@[k].events@.len() == 0
                    &&& out@[k].notifications@.len() == 0
                },
        decreases cs@.len(),
    {
        proof {
            assert(cs@[0] == orig[i as int]);
        }
        let ghost c_orig = orig[i as int];
        let ghost out_base = out@.map_values(|a: Attribute| attr_info(a));
        let c = cs.remove(0);
        let Characteristic { uuid, properties, value, descriptors } = c;
        out.push(
            Attribute {
                uuid,
                read: properties.read,
                write: properties.write,
                subscribe: properties.subscribe,
                value,
                subscribed: false,
                events: Vec::new(),
                notifications: Vec::new(),
            },
        );
        proof {
            assert(attr_info(out@.last()) == char_info(c_orig));
            assert(out@.map_values(|a: Attribute| attr_info(a)) =~= out_base.push(
                char_info(c_orig),
            ));
        }
        let ghost dorig = c_orig.descriptors@;
        let mut ds = descriptors;
        let dtotal = ds.len();
        let mut j: usize = 0;
        while ds.len() > 0
            invariant
                dorig.len() == dtotal,
                j + ds@.len() == dorig.len(),
                ds@ == dorig.skip(j as int),
                out@.map_values(|a: Attribute| attr_info(a)) =~= out_base.push(
                    char_info(c_orig),
                ) + dorig.take(j as int).map_values(|d: Descriptor| descriptor_info(d)),
                forall|k: int|
                    0 <= k < out@.len() ==> {
                        &&& !(#[trigger] out@[k]).subscribed
                        &&& out@[k].events@.len() == 0
                        &&& out@[k].notifications@.len() == 0
                    },
            decreases ds@.len(),
        {
            proof {
                assert(ds@[0] == dorig[j as int]);
            }
            let ghost d_orig = dorig[j as int];
            let ghost out_mid = out@.map_values(|a: Attribute| attr_info(a));
            let d = ds.remove(0);
            out.push(
                Attribute {
                    uuid: d.uuid,
                    read: d.read,
                    write: d.write,
                    subscribe: None,
                    value: d.value,
                    subscribed: false,
                    events: Vec::new(),
                    notifications: Vec::new(),
                },
            );
            proof {
                assert(ds@ =~= dorig.skip(j as int + 1));
                assert(attr_info(out@.last()) == descriptor_info(d_orig));
                assert(out@.map_values(|a: Attribute| attr_info(a)) =~= out_mid.push(
                    descriptor_info(d_orig),
                ));
                assert(dorig.take(j as int + 1) =~= dorig.take(j as int).push(d_orig));
                assert(dorig.take(j as int + 1).map_values(|dd: Descriptor| descriptor_info(dd))
                    =~= dorig.take(j as int).map_values(|dd: Descriptor| descriptor_info(dd)).push(
                    descriptor_info(d_orig),
                ));
            }
            j += 1;
        }
        proof {
            assert(dorig.take(dorig.len() as int) =~= dorig);
            assert(out@.map_values(|a: Attribute| attr_info(a)) =~= out_base + char_block(c_orig));
            let t1 = orig.take(i as int + 1);
            assert(t1.drop_last() =~= orig.take(i as int));
            assert(t1.last() == c_orig);
            assert(service_attr_infos(t1) == service_attr_infos(orig.take(i as int)) + char_block(
                c_orig,
            ));
            assert(out@.map_values(|a: Attribute| attr_info(a)) =~= service_attr_infos(t1));
            assert(cs@ =~= orig.skip(i as int + 1));
        }
        i += 1;
    }
    proof {
        assert(orig.take(orig.len() as int) =~= orig);
    }
    out
}

impl Peripheral {
    /// No attribute of the new block is already registered.
    pub open spec fn block_fresh(self, infos: Seq<AttrInfo>) -> bool {
        forall|k: int| 0 <= k < infos.len() ==> !self.has_attr((#[trigger] infos[k]).uuid)
    }

    /// Whether registering this service succeeds, or why it is rejected.
    /// Routing is by UUID, so every UUID of the new block — characteristics
    /// and descriptors — must be unique within the block and fresh against
    /// the registered table.
    pub open spec fn add_service_outcome(self, s: Service) -> Result<(), Error> {
        if self.advertising_requested || self.advertising {
            Err(Error::AlreadyAdvertising)
        } else if self.service_registered(s.uuid) || !uuids_distinct(
            info_uuids(service_attr_infos(s.characteristics@)),
        ) || !self.block_fresh(service_attr_infos(s.characteristics@)) {
            Err(Error::DuplicateUuid)
        } else {
            Ok(())
        }
    }

    /// Whether a service with this UUID is already registered.
    fn service_is_registered(&self, u: Uuid) -> (r: bool)
        ensures
            r == self.service_registered(u),
    {
        let mut i: usize = 0;
        while i < self.service_uuids.len()
            invariant
                i <= self.service_uuids@.len(),
                forall|k: int| 0 <= k < i ==> self.service_uuids@[k] != u,
            decreases self.service_uuids@.len() - i,
        {
            if self.service_uuids[i].value == u.value {
                return true;
            }
            i += 1;
        }
        false
    }

    /// Registers a service tree: appends its characteristics and their
    /// descriptors, each with empty channels, to the attribute table.
    /// Registration is immutable once advertising has begun, and a duplicate
    /// UUID anywhere — the service's own, within the tree, or against the
    /// registered table — is a configuration error with nothing registered.
    pub fn add_service(&mut self, s: Service) -> (r: Result<(), Error>)
        requires
            old(self).wf(),
        ensures
            final(self).wf(),
            r == old(self).add_service_outcome(s),
            r is Err ==> *final(self) == *old(self),
            r is Ok ==> {
                let infos = service_attr_infos(s.characteristics@);
                &&& final(self).service_uuids@ == old(self).service_uuids@.push(s.uuid)
                &&& final(self).service_registered(s.uuid)
                &&& final(self).attrs@.len() == old(self).attrs@.len() + infos.len()
                &&& (forall|k: int|
                    0 <= k < old(self).attrs@.len() ==> final(self).attrs@[k] == old(
                        self,
                    ).attrs@[k])
                &&& (forall|k: int|
                    0 <= k < infos.len() ==> {
                        &&& attr_info(
                            #[trigger] final(self).attrs@[old(self).attrs@.len() + k],
                        ) == infos[k]
                        &&& !final(self).attrs@[old(self).attrs@.len() + k].subscribed
                        &&& final(self).attrs@[old(self).attrs@.len() + k].events@.len() == 0
                        &&& final(self).attrs@[old(self).attrs@.len() + k].notifications@.len()
                            == 0
                    })
                &&& final(self).pending@ == old(self).pending@
                &&& final(self).next_request_id == old(self).next_request_id
                &&& final(self).config == old(self).config
                &&& final(self).powered == old(self).powered
                &&& final(self).advertising == old(self).advertising
                &&& final(self).advertising_requested == old(self).advertising_requested
                &&& final(self).shut_down == old(self).shut_down
            },
    {
        if self.advertising_requested || self.advertising {
            return Err(Error::AlreadyAdvertising);
        }
        let ghost infos = service_attr_infos(s.characteristics@);
        let Service { uuid, primary: _, characteristics } = s;
        if self.service_is_registered(uuid) {
            return Err(Error::DuplicateUuid);
        }
        let new_attrs = collect_attributes(characteristics);
        let mut us: Vec<Uuid> = Vec::new();
        let mut i: usize = 0;
        while i < new_attrs.len()
            invariant
                i <= new_attrs@.len(),
                us@.len() == i,
                forall|k: int| 0 <= k < i ==> us@[k] == new_attrs@[k].uuid,
            decreases new_attrs@.len() - i,
        {
            us.push(new_attrs[i].uuid);
            i += 1;
        }
        proof {
            assert forall|k: int| 0 <= k < infos.len() implies us@[k] == infos[k].uuid by {
                assert(attr_info(new_attrs@[k]) == infos[k]);
            }
            assert(us@ =~= info_uuids(infos));
        }
        if !all_uuids_distinct(&us) {
            return Err(Error::DuplicateUuid);
        }
        let mut f: usize = 0;
        #[verifier::loop_isolation(false)]
        while f < us.len()
            invariant
                f <= us@.len(),
                *self == *old(self),
                forall|k: int| 0 <= k < f ==> !self.has_attr(#[trigger] us@[k]),
            decreases us@.len() - f,
        {
            if self.find_attr(us[f]).is_some() {
                proof {
                    assert(infos[f as int].uuid == us@[f as int]);
                    assert(!self.block_fresh(infos));
                }
                return Err(Error::DuplicateUuid);
            }
            f += 1;
        }
        proof {
            assert forall|k: int|
                0 <= k < infos.len() implies !self.has_attr((#[trigger] infos[k]).uuid) by {
                assert(!self.has_attr(us@[k]));
            }
        }
        let ghost pre = *self;
        let ghost newv = new_attrs@;
        self.service_uuids.push(uuid);
        let mut na = new_attrs;
        self.attrs.append(&mut na);
        proof {
            assert forall|a: int, b: int|
                0 <= a < b < self.service_uuids@.len() implies self.service_uuids@[a]
                != self.service_uuids@[b] by {
                if b < pre.service_uuids@.len() {
                    assert(pre.service_uuids@[a] != pre.service_uuids@[b]);
                } else {
                    assert(self.service_uuids@[b] == uuid);
                    if self.service_uuids@[a] == self.service_uuids@[b] {
                        assert(pre.service_uuids@[a] == uuid);
                        assert(pre.service_registered(uuid));
                    }
                }
            }
            let n = pre.attrs@.len() as int;
            assert forall|a: int, b: int|
                0 <= a < b < self.attrs@.len() implies self.attrs@[a].uuid
                != self.attrs@[b].uuid by {
                if b < n {
                    assert(pre.attrs@[a].uuid != pre.attrs@[b].uuid);
                } else if a >= n {
                    assert(us@[a - n] == self.attrs@[a].uuid);
                    assert(us@[b - n] == self.attrs@[b].uuid);
                    assert(uuids_distinct(us@));
                } else {
                    assert(!pre.has_attr(us@[b - n]));
                    assert(us@[b - n] == self.attrs@[b].uuid);
                    if self.attrs@[a].uuid == self.attrs@[b].uuid {
                        assert(pre.attrs@[a].uuid == us@[b - n]);
                        assert(pre.has_attr(us@[b - n]));
                    }
                }
            }
            assert forall|k: int| 0 <= k < infos.len() implies attr_info(
                #[trigger] self.attrs@[n + k],
            ) == infos[k] by {
                assert(self.attrs@[n + k] == newv[k]);
                assert(newv.map_values(|a: Attribute| attr_info(a))[k] == attr_info(newv[k]));
            }
            assert(self.service_uuids@.last() == s.uuid);
        }
        Ok(())
    }
}

} // verus!
