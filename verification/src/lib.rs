pub mod auth;

pub use crate::auth::Decoded;
pub use crate::auth::ValidatedToken;
pub use crate::auth::ValidationError;
