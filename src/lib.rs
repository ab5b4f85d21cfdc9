//! ECDSA public keys as SEC1-encoded Weierstrass curve points, compressed or
//! uncompressed, with length-dispatching constructors and an encoding bridge.

pub mod curve;
pub mod encoding;
pub mod error;
pub mod public_key;
pub mod util;

pub use curve::CurveKind;
pub use encoding::Encoding;
pub use error::{Error, ErrorKind};
pub use public_key::{EcdsaPublicKey, PublicKey};
