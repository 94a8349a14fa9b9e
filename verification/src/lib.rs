//! Client-side model of the MusicBrainz XML web service: typed records and
//! their fetch options, the request/retry/rate-limit decisions of the
//! dispatcher, response decoding and the search query language.
//!
//! The functions of this crate are verified against their contracts. The few
//! calls into other crates (UUID parsing, XPath evaluation, percent-encoding,
//! language codes) stand behind small functions whose contracts are stated
//! and taken on trust. Network and clock access are left to the embedding
//! program, which drives the state machines defined in [`client`].

pub mod client;
pub mod entities;
pub mod error;
pub mod search;
pub mod text;
pub mod xml;

pub use crate::error::Error;
pub use crate::error::ErrorKind;
