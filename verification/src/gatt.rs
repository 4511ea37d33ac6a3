//! The GATT data model: services, characteristics, descriptors, and the
//! security-gated capabilities each one declares. Pure data with validation:
//! duplicate UUIDs within one tree and conflicting subscription capabilities
//! are configuration errors reported at construction time.

use vstd::prelude::*;

use crate::errors::Error;
use crate::uuid::Uuid;

verus! {

/// Whether a capability requires the remote link to be encrypted before the
/// request is forwarded to application code.
#[derive(Clone, Copy, PartialEq, Eq, Structural, Debug)]
pub enum SecurityLevel {
    Insecure,
    Secure,
}

/// Whether a write carries a native-side reply obligation.
#[derive(Clone, Copy, PartialEq, Eq, Structural, Debug)]
pub enum WriteKind {
    WithResponse,
    WithoutResponse,
}

/// Which server-initiated value-push mechanism a characteristic uses.
#[derive(Clone, Copy, PartialEq, Eq, Structural, Debug)]
pub enum SubscribeKind {
    Notify,
    Indicate,
}

/// Outcome of the security policy check for one capability access.
#[derive(Clone, Copy, PartialEq, Eq, Structural, Debug)]
pub enum Authorization {
    Authorized,
    Denied,
}

/// Whether the security policy admits an access: an insecure capability
/// always authorizes, a secure one only over an encrypted link.
pub open spec fn authorized(level: SecurityLevel, link_encrypted: bool) -> bool {
    level is Insecure || link_encrypted
}

/// Decides [`authorized`]. A denial is reported to the remote central as the
/// standard insufficient-authentication code — never a generic failure — so
/// it can retry after pairing.
pub fn authorize(level: SecurityLevel, link_encrypted: bool) -> (r: Authorization)
    ensures
        (r is Authorized) == authorized(level, link_encrypted),
{
    match level {
        SecurityLevel::Insecure => Authorization::Authorized,
        SecurityLevel::Secure => {
            if link_encrypted {
                Authorization::Authorized
            } else {
                Authorization::Denied
            }
        },
    }
}

/// A write capability: its security policy and its reply discipline.
#[derive(Clone, Copy, PartialEq, Eq, Structural, Debug)]
pub struct WriteCapability {
    pub security: SecurityLevel,
    pub kind: WriteKind,
}

/// A subscription capability: its security policy and push mechanism.
#[derive(Clone, Copy, PartialEq, Eq, Structural, Debug)]
pub struct SubscribeCapability {
    pub security: SecurityLevel,
    pub kind: SubscribeKind,
}

/// The optional capabilities of a characteristic. A capability that is absent
/// means the corresponding GATT operation is rejected by the bridge before
/// reaching application code.
#[derive(Clone, Copy, PartialEq, Eq, Debug)]
pub struct Properties {
    pub read: Option<SecurityLevel>,
    pub write: Option<WriteCapability>,
    pub subscribe: Option<SubscribeCapability>,
}

/// The subscription capability that a (notify, indicate) request pair yields
/// when the pair is not conflicting.
pub open spec fn subscribe_of(
    notify: Option<SecurityLevel>,
    indicate: Option<SecurityLevel>,
) -> Option<SubscribeCapability> {
    if notify is Some {
        Some(SubscribeCapability { security: notify->Some_0, kind: SubscribeKind::Notify })
    } else if indicate is Some {
        Some(SubscribeCapability { security: indicate->Some_0, kind: SubscribeKind::Indicate })
    } else {
        None
    }
}

impl Properties {
    /// Builds a capability bundle. Configuring notify alongside indicate is
    /// rejected: at most one subscription mechanism per characteristic.
    pub fn new(
        read: Option<SecurityLevel>,
        write: Option<WriteCapability>,
        notify: Option<SecurityLevel>,
        indicate: Option<SecurityLevel>,
    ) -> (r: Result<Properties, Error>)
        ensures
            notify is Some && indicate is Some ==> r == Err::<Properties, Error>(
                Error::ConflictingCapabilities,
            ),
            !(notify is Some && indicate is Some) ==> (r matches Ok(p) && p == (Properties {
                read,
                write,
                subscribe: subscribe_of(notify, indicate),
            })),
    {
        match (notify, indicate) {
            (Some(_), Some(_)) => Err(Error::ConflictingCapabilities),
            (Some(s), None) => Ok(
                Properties {
                    read,
                    write,
                    subscribe: Some(
                        SubscribeCapability { security: s, kind: SubscribeKind::Notify },
                    ),
                },
            ),
            (None, Some(s)) => Ok(
                Properties {
                    read,
                    write,
                    subscribe: Some(
                        SubscribeCapability { security: s, kind: SubscribeKind::Indicate },
                    ),
                },
            ),
            (None, None) => Ok(Properties { read, write, subscribe: None }),
        }
    }
}

/// A descriptor: read/write capabilities only, no subscription semantics.
#[derive(Clone, PartialEq, Eq, Debug)]
pub struct Descriptor {
    pub uuid: Uuid,
    pub read: Option<SecurityLevel>,
    pub write: Option<WriteCapability>,
    pub value: Option<Vec<u8>>,
}

impl Descriptor {
    pub fn new(
        uuid: Uuid,
        read: Option<SecurityLevel>,
        write: Option<WriteCapability>,
        value: Option<Vec<u8>>,
    ) -> (r: Descriptor)
        ensures
            r == (Descriptor { uuid, read, write, value }),
    {
        Descriptor { uuid, read, write, value }
    }
}

/// A characteristic: its capabilities, an optional static value, and its
/// descriptor set (unique by UUID).
#[derive(Clone, PartialEq, Eq, Debug)]
pub struct Characteristic {
    pub uuid: Uuid,
    pub properties: Properties,
    pub value: Option<Vec<u8>>,
    pub descriptors: Vec<Descriptor>,
}

/// A primary or included service: its characteristic set, unique by UUID.
#[derive(Clone, PartialEq, Eq, Debug)]
pub struct Service {
    pub uuid: Uuid,
    pub primary: bool,
    pub characteristics: Vec<Characteristic>,
}

/// No UUID occurs twice in the sequence.
pub open spec fn uuids_distinct(us: Seq<Uuid>) -> bool {
    forall|i: int, j: int| 0 <= i < j < us.len() ==> us[i] != us[j]
}

/// The UUIDs of a descriptor set, in order.
pub open spec fn descriptor_uuids(ds: Seq<Descriptor>) -> Seq<Uuid> {
    ds.map_values(|d: Descriptor| d.uuid)
}

/// The UUIDs of a characteristic set, in order.
pub open spec fn characteristic_uuids(cs: Seq<Characteristic>) -> Seq<Uuid> {
    cs.map_values(|c: Characteristic| c.uuid)
}

/// Decides [`uuids_distinct`] by pairwise comparison.
pub fn all_uuids_distinct(us: &Vec<Uuid>) -> (b: bool)
    ensures
        b == uuids_distinct(us@),
{
    let mut i: usize = 0;
    while i < us.len()
        invariant
            i <= us@.len(),
            forall|p: int, q: int| 0 <= p < q < us@.len() && p < i ==> us@[p] != us@[q],
        decreases us@.len() - i,
    {
        let mut j: usize = i + 1;
        while j < us.len()
            invariant
                i < j <= us@.len() || us@.len() == 0,
                i < us@.len(),
                forall|q: int| i < q < j ==> us@[i as int] != us@[q],
            decreases us@.len() - j,
        {
            if us[i].value == us[j].value {
                assert(!uuids_distinct(us@));
                return false;
            }
            j += 1;
        }
        i += 1;
    }
    true
}

impl Characteristic {
    /// Builds a characteristic; a duplicate UUID among its descriptors is a
    /// configuration error.
    pub fn new(
        uuid: Uuid,
        properties: Properties,
        value: Option<Vec<u8>>,
        descriptors: Vec<Descriptor>,
    ) -> (r: Result<Characteristic, Error>)
        ensures
            uuids_distinct(descriptor_uuids(descriptors@)) ==> (r matches Ok(c) && c == (
            Characteristic { uuid, properties, value, descriptors })),
            !uuids_distinct(descriptor_uuids(descriptors@)) ==> r == Err::<Characteristic, Error>(
                Error::DuplicateUuid,
            ),
    {
        let mut us: Vec<Uuid> = Vec::new();
        let mut i: usize = 0;
        while i < descriptors.len()
            invariant
                i <= descriptors@.len(),
                us@.len() == i,
                forall|k: int| 0 <= k < i ==> us@[k] == descriptors@[k].uuid,
            decreases descriptors@.len() - i,
        {
            us.push(descriptors[i].uuid);
            i += 1;
        }
        assert(us@ =~= descriptor_uuids(descriptors@));
        if all_uuids_distinct(&us) {
            Ok(Characteristic { uuid, properties, value, descriptors })
        } else {
            Err(Error::DuplicateUuid)
        }
    }
}

impl Service {
    /// Builds a service; a duplicate UUID among its characteristics is a
    /// configuration error.
    pub fn new(uuid: Uuid, primary: bool, characteristics: Vec<Characteristic>) -> (r: Result<
        Service,
        Error,
    >)
        ensures
            uuids_distinct(characteristic_uuids(characteristics@)) ==> (r matches Ok(s) && s == (
            Service { uuid, primary, characteristics })),
            !uuids_distinct(characteristic_uuids(characteristics@)) ==> r == Err::<Service, Error>(
                Error::DuplicateUuid,
            ),
    {
        let mut us: Vec<Uuid> = Vec::new();
        let mut i: usize = 0;
        while i < characteristics.len()
            invariant
                i <= characteristics@.len(),
                us@.len() == i,
                forall|k: int| 0 <= k < i ==> us@[k] == characteristics@[k].uuid,
            decreases characteristics@.len() - i,
        {
            us.push(characteristics[i].uuid);
            i += 1;
        }
        assert(us@ =~= characteristic_uuids(characteristics@));
        if all_uuids_distinct(&us) {
            Ok(Service { uuid, primary, characteristics })
        } else {
            Err(Error::DuplicateUuid)
        }
    }
}

} // verus!
