//! Error taxonomy: configuration and lifecycle errors surfaced synchronously
//! to the caller, attribute-protocol result codes returned to the native
//! stack, and reply-channel protocol violations.

use vstd::prelude::*;

verus! {

/// Result code handed back to the native stack for a read or write
/// transaction. `InsufficientAuthentication` is the standard
/// attribute-protocol code for a secure capability accessed over an
/// unencrypted link, so remote centrals can retry after pairing.
#[derive(Clone, Copy, PartialEq, Eq, Structural, Debug)]
pub enum AttResult {
    Success,
    InsufficientAuthentication,
    RequestNotSupported,
    InsufficientResources,
    UnlikelyError,
}

/// Errors surfaced to the application at the call that caused them.
#[derive(Clone, PartialEq, Eq, Debug)]
pub enum Error {
    /// A UUID appears twice: within one service's tree, or against an
    /// attribute already registered with the peripheral.
    DuplicateUuid,
    /// Notify and indicate were both requested: at most one subscription
    /// mechanism may be configured per characteristic.
    ConflictingCapabilities,
    /// Registration was attempted after advertising had begun.
    AlreadyAdvertising,
    /// Advertising was requested while the adapter was not powered on.
    NotPoweredOn,
    /// Advertising was stopped while none was requested or active.
    NotAdvertising,
    /// A notification payload was pushed for a characteristic that is not
    /// currently subscribed (or has no subscription capability).
    NotSubscribed,
    /// The native stack reported a failure; carries its description.
    NativeStack(String),
}

impl Error {
    /// A short description of the error, for callers that print it.
    pub fn describe(&self) -> (r: &'static str)
        ensures
            match self {
                Error::DuplicateUuid => r@ == "duplicate UUID"@,
                Error::ConflictingCapabilities => r@ == "conflicting capabilities"@,
                Error::AlreadyAdvertising => r@ == "already advertising"@,
                Error::NotPoweredOn => r@ == "not powered on"@,
                Error::NotAdvertising => r@ == "not advertising"@,
                Error::NotSubscribed => r@ == "not subscribed"@,
                Error::NativeStack(_) => r@ == "native stack error"@,
            },
    {
        let r = match self {
            Error::DuplicateUuid => "duplicate UUID",
            Error::ConflictingCapabilities => "conflicting capabilities",
            Error::AlreadyAdvertising => "already advertising",
            Error::NotPoweredOn => "not powered on",
            Error::NotAdvertising => "not advertising",
            Error::NotSubscribed => "not subscribed",
            Error::NativeStack(_) => "native stack error",
        };
        proof {
            reveal_strlit("duplicate UUID");
            reveal_strlit("conflicting capabilities");
            reveal_strlit("already advertising");
            reveal_strlit("not powered on");
            reveal_strlit("not advertising");
            reveal_strlit("not subscribed");
            reveal_strlit("native stack error");
        }
        r
    }
}

/// Outcome of answering a request a second time, or answering a request the
/// bridge does not know: a recoverable protocol violation, never a crash.
#[derive(Clone, Copy, PartialEq, Eq, Structural, Debug)]
pub enum ReplyError {
    /// The request was already answered; the second reply has no effect.
    AlreadyReplied,
    /// No request with this identifier is (or ever was) in flight.
    UnknownRequest,
}

} // verus!
