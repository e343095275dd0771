//! A form-state binding library: typed model values rendered to and parsed
//! from the text strings that form controls edit, with per-field dirty and
//! validity tracking, and lens-style relations that give narrowly scoped
//! handles onto fields of a larger model.

pub mod decimal;
pub mod field;
pub mod form_state;
pub mod form_value;
pub mod model;
pub mod prelude;

pub use field::Field;
pub use model::Model;
