//! A local JSON Web Token signing service: the wire protocol, the claims
//! codec and the signer capability that the daemon is built around.

pub mod claims;
pub mod json;
pub mod protocol;
pub mod signer;
pub mod text;
