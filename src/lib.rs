//! Reminders: the entity, its wire form, and the decisions of the reminder service.

use vstd::prelude::*;

pub mod ident;
pub mod time;
pub mod urgency;
pub mod wire;
pub mod reminder;
pub mod service;
pub mod stream;

verus! {

} // verus!
