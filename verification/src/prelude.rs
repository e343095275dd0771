//! The items that users of the library reach for first.

pub use crate::field::Field;
pub use crate::form_state::{StateMut, StateProvider, ValueStateMut};
pub use crate::form_value::{FormValue, ValueWrapper};
pub use crate::model::{Model, ModelRelation};
