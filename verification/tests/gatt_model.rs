use bluster::errors::Error;
use bluster::gatt::{
    authorize, Authorization, Characteristic, Descriptor, Properties, SecurityLevel, Service,
    SubscribeKind, WriteCapability, WriteKind,
};
use bluster::uuid::Uuid;

fn simple_props(read: Option<SecurityLevel>) -> Properties {
    Properties::new(read, None, None, None).unwrap()
}

#[test]
fn uuid_short_form_16_expands_into_base() {
    let u = Uuid::from_short_u16(0x2A3D);
    assert_eq!(u.value, 0x00002A3D_0000_1000_8000_00805F9B34FBu128);
}

#[test]
fn uuid_short_form_32_expands_into_base() {
    let u = Uuid::from_short_u32(0xDEADBEEF);
    assert_eq!(u.value, 0xDEADBEEF_0000_1000_8000_00805F9B34FBu128);
    assert_eq!(Uuid::new(7).value, 7);
}

#[test]
fn properties_notify_and_indicate_conflict() {
    let r = Properties::new(
        None,
        None,
        Some(SecurityLevel::Insecure),
        Some(SecurityLevel::Secure),
    );
    assert_eq!(r, Err(Error::ConflictingCapabilities));
}

#[test]
fn properties_single_subscription_mechanism_accepted() {
    let p = Properties::new(
        Some(SecurityLevel::Insecure),
        Some(WriteCapability { security: SecurityLevel::Secure, kind: WriteKind::WithResponse }),
        Some(SecurityLevel::Secure),
        None,
    )
    .unwrap();
    assert_eq!(p.read, Some(SecurityLevel::Insecure));
    let sub = p.subscribe.unwrap();
    assert_eq!(sub.kind, SubscribeKind::Notify);
    assert_eq!(sub.security, SecurityLevel::Secure);

    let q = Properties::new(None, None, None, Some(SecurityLevel::Insecure)).unwrap();
    assert_eq!(q.subscribe.unwrap().kind, SubscribeKind::Indicate);
    let bare = Properties::new(None, None, None, None).unwrap();
    assert!(bare.subscribe.is_none());
}

#[test]
fn characteristic_duplicate_descriptor_rejected() {
    let d1 = Descriptor::new(Uuid::from_short_u16(0x2901), Some(SecurityLevel::Insecure), None, None);
    let d2 = Descriptor::new(Uuid::from_short_u16(0x2901), None, None, Some(b"x".to_vec()));
    let r = Characteristic::new(
        Uuid::from_short_u16(0x2A3D),
        simple_props(Some(SecurityLevel::Insecure)),
        None,
        vec![d1, d2],
    );
    assert_eq!(r, Err(Error::DuplicateUuid));
}

#[test]
fn characteristic_distinct_descriptors_accepted() {
    let d1 = Descriptor::new(Uuid::from_short_u16(0x2901), Some(SecurityLevel::Insecure), None, None);
    let d2 = Descriptor::new(Uuid::from_short_u16(0x2902), None, None, None);
    let c = Characteristic::new(
        Uuid::from_short_u16(0x2A3D),
        simple_props(Some(SecurityLevel::Insecure)),
        Some(b"hi".to_vec()),
        vec![d1, d2],
    )
    .unwrap();
    assert_eq!(c.descriptors.len(), 2);
    assert_eq!(c.value, Some(b"hi".to_vec()));
}

#[test]
fn service_duplicate_characteristic_rejected() {
    let c1 = Characteristic::new(
        Uuid::from_short_u16(0x2A3D),
        simple_props(Some(SecurityLevel::Insecure)),
        None,
        Vec::new(),
    )
    .unwrap();
    let c2 = Characteristic::new(
        Uuid::from_short_u16(0x2A3D),
        simple_props(None),
        None,
        Vec::new(),
    )
    .unwrap();
    let r = Service::new(Uuid::from_short_u16(0x1800), true, vec![c1, c2]);
    assert_eq!(r, Err(Error::DuplicateUuid));
}

#[test]
fn service_distinct_characteristics_accepted() {
    let c1 = Characteristic::new(
        Uuid::from_short_u16(0x2A3D),
        simple_props(Some(SecurityLevel::Insecure)),
        None,
        Vec::new(),
    )
    .unwrap();
    let c2 = Characteristic::new(
        Uuid::from_short_u16(0x2A3E),
        simple_props(None),
        None,
        Vec::new(),
    )
    .unwrap();
    let s = Service::new(Uuid::from_short_u16(0x1800), true, vec![c1, c2]).unwrap();
    assert!(s.primary);
    assert_eq!(s.characteristics.len(), 2);
}

#[test]
fn error_descriptions_are_stable() {
    assert_eq!(Error::DuplicateUuid.describe(), "duplicate UUID");
    assert_eq!(Error::NativeStack("boom".to_string()).describe(), "native stack error");
}

#[test]
fn authorization_policy() {
    assert_eq!(authorize(SecurityLevel::Insecure, false), Authorization::Authorized);
    assert_eq!(authorize(SecurityLevel::Insecure, true), Authorization::Authorized);
    assert_eq!(authorize(SecurityLevel::Secure, false), Authorization::Denied);
    assert_eq!(authorize(SecurityLevel::Secure, true), Authorization::Authorized);
}
