//! What to import to have the names of variants written.

pub use crate::runtime::EnumDebug;
