//! Shared-state synchronisation engine: a keyed store of typed values with
//! change-callback registries, nested callback dispatch, broadcast fan-out of
//! mutations, and the server lifecycle.

pub mod value;
pub mod store;
pub mod dispatch;
pub mod bus;
pub mod handle;
pub mod tero;

pub use value::{Value, ValueKind};
pub use bus::{Delivery, Publisher, SessionAction, Subscription};
pub use handle::{DataHandle, SetReport};
pub use tero::{ServerState, Tero, CHANNEL_SIZE};
pub use dispatch::{collect_failures, DispatchStack, Step};
pub use store::{DataElement, Message, SetOutcome, Store, SyncError};
