//! A verified ledger for a small marketplace: a catalogue of limited-supply
//! items that can be listed, bought against an attached payment and handed
//! from one owner to another.
//!
//! The ledger is a state machine. [`init`] creates it, and each of the other
//! calls is one step that either takes effect as a whole or is rejected and
//! changes nothing. What a step does is stated over the ledger's
//! mathematical value, a [`model::StateView`]; [`laws`] holds what follows
//! for every ledger.

pub mod address;
pub mod error;
pub mod item;
pub mod laws;
pub mod ledger;
pub mod model;
pub mod text;

pub use crate::address::{AccountAddress, Address, ContractAddress};
pub use crate::error::Error;
pub use crate::item::{Amount, Item, ItemInput};
pub use crate::ledger::{
    add_item, buy_item, buy_single_item, get_item_count, get_items, get_single_item, init,
    restore, transfer_item, State,
};
