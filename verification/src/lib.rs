//! Capability URLs and content guards for an object store.
//!
//! A capability URL lets its bearer do one thing, to one object, until it
//! expires: [`signed_url`] issues such URLs and judges the requests that
//! present them, with the tags of [`signer`] and the time of [`utils`]. A
//! content guard decides, by what the bytes of an upload are, whether its
//! destination takes it: [`guards`] holds the guards, [`prefixes`] the
//! destinations, and [`storage`] the step that lets an upload through to
//! the store. [`error`] gives each failure its HTTP status.

use vstd::prelude::*;

pub mod decimal;
pub mod error;
pub mod guards;
pub mod prefixes;
pub mod s3;
pub mod setup;
pub mod signed_url;
pub mod signer;
pub mod storage;
pub mod text;
pub mod utils;
