//! Ubuntu release codenames, their version numbers and their release dates.

pub mod codename;
pub mod convert;
pub mod version;

pub use crate::codename::{Codename, CodenameParseError};
pub use crate::version::Version;
