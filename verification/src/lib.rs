//! Resolution of temporary role credentials for a named single-sign-on (SSO)
//! profile.
//!
//! The library carries the three-stage credential-resolution pipeline: locate
//! and validate the named profile's SSO configuration, locate and validate a
//! previously cached authentication token for that profile, and exchange the
//! token for temporary role credentials, enforcing expiry at each stage. Each
//! stage is a pure function over plain values; reading the configuration
//! store, the cache file, the clock and the network sits with the caller,
//! which drives [`pipeline::step`] from one state to the next.

use vstd::prelude::*;

pub mod credentials;
pub mod emit;
pub mod pipeline;
pub mod profile;
mod scrub;
pub mod timestamp;
pub mod token;

verus! {

/// The command-line surface: a single positional argument naming an SSO
/// profile in the user's local configuration.
#[derive(Debug)]
pub struct Args {
    /// The name of an SSO profile in the local configuration file(s).
    pub profile_name: String,
}

} // verus!
