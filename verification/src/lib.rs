//! Communication core for a BLE climate-control appliance: a binary
//! wire-protocol codec and the per-device session logic around it.
//!
//! The crate is organised bottom-up:
//! - [`proto`] holds the protocol value types: the error taxonomy, the enums
//!   that appear in wire frames, and the raw 27-byte status record.
//! - [`codec`] encodes outbound commands and decodes inbound status frames.
//! - [`translate`] turns raw device units into human units.
//! - [`status_slot`] is the broadcast-with-replace slot that distributes the
//!   latest decoded status to any number of independent readers.
//! - [`session`] models one connected device: its characteristic handles,
//!   its single restartable listener, and the notification-processing rules.
//! - [`registry`] owns the set of sessions, keyed by peripheral id, and the
//!   selected adapter.
//! - [`events`] is the adapter-event bridge.
//! - [`prefs`] holds the persisted user preferences.
//!
//! The BLE transport itself — connecting, discovering, reading, writing,
//! subscribing — is asynchronous I/O and stays outside this crate; every
//! decision the control flow makes between those calls is a verified
//! function here, taking plain values and returning plain values.

pub mod codec;
pub mod events;
pub mod prefs;
pub mod proto;
pub mod registry;
pub mod session;
pub mod status_slot;
pub mod translate;
