//! The computational halves of the two password-reset endpoints: each builds
//! the response value for one endpoint; the HTTP plumbing lives elsewhere.

pub mod secure;
pub mod vulnerable;
