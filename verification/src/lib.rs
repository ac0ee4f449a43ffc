//! A to-do list: the records, the store that owns them, the state of the
//! editor dialog and the list as it is shown.

pub mod controller;
pub mod controller_laws;
pub mod ident;
pub mod render;
pub mod replay_laws;
mod seq_facts;
pub mod store;
pub mod store_laws;
pub mod timestamp;
pub mod todo;

pub use controller::{Controller, Event, Mode};
pub use render::{render, row_key, Listing, Row, RowKey};
pub use store::{Command, Store};
pub use timestamp::Timestamp;
pub use todo::Todo;
