//! The typed events the bridge delivers to application code, the adapter
//! power states the native stack reports, and the replies the bridge hands
//! back across the native boundary.

use vstd::prelude::*;

use crate::errors::AttResult;
use crate::uuid::Uuid;

verus! {

/// Adapter power state as the native stack reports it.
#[derive(Clone, Copy, PartialEq, Eq, Structural, Debug)]
pub enum ManagerState {
    Unknown,
    Resetting,
    Unsupported,
    Unauthorized,
    PoweredOff,
    PoweredOn,
}

/// A typed event delivered on an attribute's bounded event channel, in the
/// order the native stack invoked the corresponding callbacks.
#[derive(Clone, PartialEq, Eq, Debug)]
pub enum Event {
    /// A central asked to read; the application must answer exactly once
    /// through the request identifier.
    Read { request_id: u64, device: u64, offset: u64 },
    /// A central wrote; `reply_id` is present only for writes whose
    /// capability is `WithResponse`.
    Write { reply_id: Option<u64>, offset: u64, value: Vec<u8> },
    /// A central subscribed to notifications or indications.
    NotifySubscribe,
    /// A central cancelled its subscription.
    NotifyUnsubscribe,
}

/// What a native read/write callback must do next: respond at once with a
/// result code, or wait for the application's deferred reply to the given
/// request identifier.
#[derive(Clone, Copy, PartialEq, Eq, Structural, Debug)]
pub enum CallbackReply {
    Respond(AttResult),
    Deferred(u64),
}

/// A reply to forward to the native stack's respond-to-request primitive.
#[derive(Clone, PartialEq, Eq, Debug)]
pub struct NativeReply {
    pub request_id: u64,
    pub result: AttResult,
    pub value: Option<Vec<u8>>,
}

/// The outbound start-advertising action handed to the native stack.
#[derive(Clone, PartialEq, Eq, Debug)]
pub struct AdvertiseRequest {
    pub name: String,
    pub service_uuids: Vec<Uuid>,
}

} // verus!
