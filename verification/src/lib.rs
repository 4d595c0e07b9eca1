//! A nullable boolean column packed into one byte: its value, its default and
//! its NOT NULL constraint, with three-valued logic and SQL type rendering.

pub mod codec;
pub mod display;
pub mod field;
pub mod packed;
pub mod state;
pub mod tristate;

pub use codec::{decode_state, encode_state};
pub use display::{BooleanDisplay, BooleanDisplayConfig};
pub use field::{BooleanDataView, BooleanField, FieldModel};
pub use packed::{BooleanOps, PackedBooleanData};
pub use state::FieldState;
pub use tristate::OptionBool;
