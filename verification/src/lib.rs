//! A GATT (Generic Attribute Profile) peripheral core: the data model of
//! services, characteristics and descriptors, the security policy attached to
//! each capability, and the event bridge that turns native Bluetooth stack
//! callbacks into typed events with exactly-once response delivery.
//!
//! The native stack itself (radio, encryption negotiation, callback
//! registration) is out of scope: platform glue feeds native callbacks into
//! [`peripheral::Peripheral`] and performs the actions its methods return.

pub mod errors;
pub mod events;
pub mod gatt;
pub mod laws;
pub mod peripheral;
pub mod uuid;
