//! Names of enum variants at runtime.
//!
//! A type that implements [`EnumDebug`] writes the name of the variant that a
//! value is, and the name of the type; [`EnumDebugFormatter`] renders the two.
//! [`derive_enum_debug`] generates the implementation for a declared enum and
//! gives it as source text.

pub mod emit;
pub mod instance;
pub mod laws;
pub mod model;
pub mod prelude;
pub mod resolve;
pub mod runtime;
pub mod sink;
pub mod syntax;
pub mod text;

pub use crate::emit::{generate, Generated};
pub use crate::instance::Instance;
pub use crate::resolve::{resolve_name, DeriveError, GeneratedName};
pub use crate::runtime::{EnumDebug, EnumDebugFormatter};
pub use crate::sink::{Sink, SinkError};
pub use crate::syntax::{derive_enum_debug, read_declaration};
