//! A uniform description of the ways a parse can fail, independent of the
//! grammar's location, token and user-error types, together with the
//! envelope that records the tokens discarded while recovering.

pub mod model;
pub mod error;
pub mod laws;
pub mod render;
pub mod recovery;
pub mod duplicate;
pub mod equality;
pub mod ordering;

pub use error::ParseError;
pub use model::ErrorView;
pub use recovery::{ErrorRecovery, RecoveryView};
