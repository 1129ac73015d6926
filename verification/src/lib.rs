//! Reading and checking Axiom Verge save files.
//!
//! The crate has three parts: the fixed-key cipher that Steam save files are
//! wrapped in (`crypto`), the typed model of a decoded save document
//! (`creature`, `savedata`), and the achievement rules evaluated over that
//! model (`achievements`).

pub mod achievements;
pub mod creature;
pub mod crypto;
pub mod savedata;
mod text;
