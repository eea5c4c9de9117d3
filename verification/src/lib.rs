//! A module of a ledger with one call. The call checks who makes it, writes one
//! number into the module's storage slot and records that it did.

pub mod error;
pub mod event;
pub mod origin;
pub mod pallet;
pub mod storage;

pub use crate::error::Error;
pub use crate::event::{Event, EventSink};
pub use crate::origin::{ensure_signed, Origin};
pub use crate::pallet::{Config, Pallet, State};
pub use crate::storage::Something;
