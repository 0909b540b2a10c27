//! Collection of APs (application protocols), one per DF (Dedicated File)
//! in the card.

pub mod crypto;
pub mod support;
pub mod surface;

pub use self::crypto::CryptoAp;
pub use self::support::SupportAp;
pub use self::surface::SurfaceAp;
