//! The library's guarantees that span several operations, each stated over
//! the same spec functions the operations' own contracts use, and proved
//! here once and for all inputs.

use vstd::prelude::*;

use crate::errors::{Error, ReplyError};
use crate::events::NativeReply;
use crate::gatt::{SecurityLevel, Service, uuids_distinct};
use crate::peripheral::{
    info_uuids, push_bounded, service_attr_infos, synthetic_replies, PendingReply,
    Peripheral,
};
use crate::uuid::Uuid;

verus! {

/// A fresh, well-formed service tree is always accepted: while the
/// peripheral is not advertising, registering a service whose own UUID is
/// new and whose characteristic and descriptor UUIDs are unique and fresh
/// succeeds.
pub proof fn lemma_fresh_service_accepted(p: Peripheral, s: Service)
    requires
        !p.advertising_requested,
        !p.advertising,
        !p.service_registered(s.uuid),
        uuids_distinct(info_uuids(service_attr_infos(s.characteristics@))),
        p.block_fresh(service_attr_infos(s.characteristics@)),
    ensures
        p.add_service_outcome(s) == Ok::<(), Error>(()),
{
}

/// Registration claims a UUID: once some service with a given UUID is
/// registered, adding any service with that same UUID is rejected as a
/// duplicate (while not advertising, where registration is still allowed at
/// all).
pub proof fn lemma_duplicate_service_rejected(p: Peripheral, s: Service)
    requires
        !p.advertising_requested,
        !p.advertising,
        p.service_registered(s.uuid),
    ensures
        p.add_service_outcome(s) == Err::<(), Error>(Error::DuplicateUuid),
{
}

/// At most one reply crosses the native boundary per request: once a request
/// has been answered, answering it again is refused as `AlreadyReplied`, and
/// [`Peripheral::send_reply`]'s contract then guarantees no state change and
/// no second native reply value.
pub proof fn lemma_reply_exactly_once(p: Peripheral, id: u64)
    requires
        p.replied(id),
    ensures
        p.reply_outcome(id) == Err::<(), ReplyError>(ReplyError::AlreadyReplied),
{
}

/// A secure read capability accessed over an unencrypted link is denied:
/// the read decision is `Denied`, under which
/// [`Peripheral::handle_read_request`]'s contract guarantees an immediate
/// insufficient-authentication reply and an unchanged state — in particular,
/// no event ever reaches the application's channel.
pub proof fn lemma_secure_read_denied(p: Peripheral, u: Uuid)
    requires
        p.has_attr(u),
        p.attr_of(u).read == Some(SecurityLevel::Secure),
    ensures
        p.read_decision(u, false) is Denied,
{
}

/// A without-response write is fire-and-forget: whenever its capability is
/// configured and authorized, the write decision is `FireAndForget`, under
/// which [`Peripheral::handle_write_request`]'s contract guarantees an
/// immediate success reply at the native boundary — regardless of whether or
/// when the application consumes the corresponding write event.
pub proof fn lemma_without_response_write_acknowledged(
    p: Peripheral,
    u: Uuid,
    link_encrypted: bool,
)
    requires
        p.has_attr(u),
        p.attr_of(u).write matches Some(w) && w.kind is WithoutResponse,
        p.attr_of(u).write->Some_0.security is Secure ==> link_encrypted,
    ensures
        p.write_decision(u, link_encrypted) is FireAndForget,
{
}

/// What a whole sequence of bounded, drop-oldest pushes leaves in a
/// notification channel of capacity `cap`.
pub open spec fn push_all_bounded(q: Seq<Vec<u8>>, ps: Seq<Vec<u8>>, cap: nat) -> Seq<Vec<u8>>
    decreases ps.len(),
{
    if ps.len() == 0 {
        q
    } else {
        push_all_bounded(push_bounded(q, ps[0], cap), ps.skip(1), cap)
    }
}

/// Notification backpressure: pushing any number of payloads into a channel
/// of capacity `cap` leaves at most `cap` payloads pending, and the most
/// recent payload is never the one dropped. Each single push of
/// [`Peripheral::push_notification`] leaves `push_bounded` of the channel,
/// so this covers every saturation of the channel.
pub proof fn lemma_notification_backpressure(q: Seq<Vec<u8>>, ps: Seq<Vec<u8>>, cap: nat)
    requires
        1 <= cap,
        q.len() <= cap,
        1 <= ps.len(),
    ensures
        push_all_bounded(q, ps, cap).len() <= cap,
        push_all_bounded(q, ps, cap).last() == ps[ps.len() - 1],
    decreases ps.len(),
{
    let q1 = push_bounded(q, ps[0], cap);
    assert(q1.len() <= cap);
    if ps.len() == 1 {
        assert(ps.skip(1).len() == 0);
        assert(push_all_bounded(q1, ps.skip(1), cap) == q1);
        assert(push_all_bounded(q, ps, cap) == q1);
        assert(q1.last() == ps[0]);
    } else {
        lemma_notification_backpressure(q1, ps.skip(1), cap);
        assert(ps.skip(1)[ps.skip(1).len() - 1] == ps[ps.len() - 1]);
    }
}

/// The reply sequence contains a synthetic failure for this request.
pub open spec fn contains_failure_for(rs: Seq<NativeReply>, id: u64) -> bool {
    exists|j: int|
        0 <= j < rs.len() && (#[trigger] rs[j]).request_id == id && rs[j].result is UnlikelyError
}

/// Teardown resolves every unanswered request: the synthetic replies that
/// [`Peripheral::shutdown`] forwards to the native boundary contain a
/// failure for each pending request not yet answered, so no native
/// transaction is left waiting after the controller is dropped.
pub proof fn lemma_shutdown_covers_pending(ps: Seq<PendingReply>, k: int)
    requires
        0 <= k < ps.len(),
        !ps[k].replied,
    ensures
        contains_failure_for(synthetic_replies(ps), ps[k].id),
    decreases ps.len(),
{
    let base = synthetic_replies(ps.drop_last());
    let r = synthetic_replies(ps);
    if k == ps.len() - 1 {
        assert(r[base.len() as int].request_id == ps[k].id);
    } else {
        lemma_shutdown_covers_pending(ps.drop_last(), k);
        let j = choose|j: int|
            0 <= j < base.len() && (#[trigger] base[j]).request_id == ps.drop_last()[k].id
                && base[j].result is UnlikelyError;
        assert(r[j] == base[j]);
    }
}

} // verus!
