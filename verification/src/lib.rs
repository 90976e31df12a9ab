//! Public parameters of the Pixel signature scheme: their derivation from a
//! seed and their self-describing wire format.
//!
//! A parameter set is a generator of one group and `d + 2` elements of the
//! other, where `d` is the depth of the scheme's time tree. It is a function
//! of a seed and a ciphersuite identifier ([`PubParam::init`]), and it is
//! written and read in two forms, with compressed or with uncompressed
//! group elements ([`PubParam::serialize`], [`PubParam::deserialize`]).
//!
//! The curve arithmetic, the hash-to-curve map and HKDF are the work of the
//! crates `pairing-plus`, `hkdf` and `sha2`. What is assumed of them is
//! written on the functions that call them, in [`group`] and [`kdf`].

pub mod bytes;
pub mod constants;
pub mod error;
pub mod group;
pub mod kdf;
pub mod param;
pub mod serdes;

pub use constants::CONST_D;
pub use constants::VALID_CIPHERSUITE;
pub use error::ParamError;
pub use group::PixelG1;
pub use group::PixelG2;
pub use param::PubParam;
pub use serdes::PP_LEN_COMPRESSED;
pub use serdes::PP_LEN_UNCOMPRESSED;
