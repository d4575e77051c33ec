//! Host side of a bridge to a document-parsing library that runs inside an
//! embedded Java runtime.
//!
//! The crate projects host configuration values onto foreign configuration
//! objects ([`projector`]), unwraps the result envelopes that the foreign
//! side hands back ([`envelope`]), and exposes a foreign reader as a
//! pull-based byte source ([`stream`]). After every foreign call the
//! exception translator ([`translator`]) is consulted, so that no foreign
//! exception stays pending. What a consumer collects over a whole run of
//! reads from a reader that keeps to its protocol is stated in [`reads`].
//!
//! Every call into the runtime goes through the small trusted layer in
//! [`foreign`]; everything that decides what to call and what to make of
//! the answer is verified.

pub mod calls;
pub mod config;
pub mod envelope;
pub mod errors;
pub mod foreign;
pub mod projector;
pub mod reads;
pub mod setters;
pub mod stream;
pub mod translator;
pub mod value;
