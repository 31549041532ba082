//! The boundary to the `macaddr` crate.
//!
//! A device's MAC address arrives as text; turning it into a structured
//! address value is the `macaddr` crate's work, reached here through a
//! declared type and an assumed specification for its parser.

use vstd::prelude::*;
use core::str::FromStr;
use crate::types::NetInfo;

verus! {

#[verifier::external_type_specification]
#[verifier::external_body]
pub struct ExMacAddr(macaddr::MacAddr);

#[verifier::external_type_specification]
#[verifier::external_body]
pub struct ExMacParseError(macaddr::ParseError);

/// Whether `s` is a well-formed MAC address text as the `macaddr` crate
/// reads one: the name for what its parser accepts, which depends on the
/// characters alone.
pub uninterp spec fn is_mac_text(s: Seq<char>) -> bool;

/// Relies on `macaddr::MacAddr`'s `FromStr` parser: it is deterministic
/// and total, reads the given characters alone — so it succeeds exactly
/// on the texts named by [`is_mac_text`] — and rejects the empty string
/// (its first read already finds the input exhausted).
pub assume_specification[ <macaddr::MacAddr as FromStr>::from_str ](s: &str) -> (r: Result<
    macaddr::MacAddr,
    <macaddr::MacAddr as FromStr>::Err,
>)
    ensures
        r is Ok <==> is_mac_text(s@),
        s@.len() == 0 ==> r is Err,
;

impl NetInfo {
    /// The MAC address text, parsed by the `macaddr` crate: an address
    /// exactly where the stored text is well-formed, an error anywhere
    /// else, the empty field included.
    pub fn mac(&self) -> (r: Result<macaddr::MacAddr, macaddr::ParseError>)
        ensures
            r is Ok <==> is_mac_text(self.mac@),
            self.mac@.len() == 0 ==> r is Err,
    {
        macaddr::MacAddr::from_str(self.mac.as_str())
    }
}

} // verus!
