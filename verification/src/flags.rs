//! The vendor's interface-type bit flags.
//!
//! An interface is classified by a `TY_INTERFACE_TYPE` word whose bits are
//! fixed by the vendor's header. The bits decide which half of a device's
//! address information is meaningful: network details for an Ethernet or
//! wireless interface, bus details for a USB one.

use vstd::prelude::*;
use vstd::string::StringExecFns;
use crate::util::bit_is_set;

verus! {

pub const TY_INTERFACE_UNKNOWN: u32 = 0;
pub const TY_INTERFACE_RAW: u32 = 1;
pub const TY_INTERFACE_USB: u32 = 2;
pub const TY_INTERFACE_ETHERNET: u32 = 4;
pub const TY_INTERFACE_IEEE80211: u32 = 8;
pub const TY_INTERFACE_ALL: u32 = 0xffff;

/// Whether an interface of type `t` carries network address information.
pub open spec fn has_net_info(t: u32) -> bool {
    (t & TY_INTERFACE_ETHERNET) == TY_INTERFACE_ETHERNET || (t & TY_INTERFACE_IEEE80211)
        == TY_INTERFACE_IEEE80211
}

/// Whether an interface of type `t` carries USB address information.
pub open spec fn has_usb_info(t: u32) -> bool {
    (t & TY_INTERFACE_USB) == TY_INTERFACE_USB
}

/// `name`, appended to `acc` with a comma between list entries.
pub open spec fn joined(acc: Seq<char>, name: Seq<char>) -> Seq<char> {
    if acc.len() == 0 {
        name
    } else {
        acc + ","@ + name
    }
}

/// The comma-separated names of the flag bits set in `t`, in the fixed
/// order raw, USB, Ethernet, wireless.
pub open spec fn spec_fmt_ty_interface_type(t: u32) -> Seq<char> {
    let s = Seq::<char>::empty();
    let s = if (t & TY_INTERFACE_RAW) == TY_INTERFACE_RAW {
        joined(s, "RAW"@)
    } else {
        s
    };
    let s = if (t & TY_INTERFACE_USB) == TY_INTERFACE_USB {
        joined(s, "USB"@)
    } else {
        s
    };
    let s = if (t & TY_INTERFACE_ETHERNET) == TY_INTERFACE_ETHERNET {
        joined(s, "ETH"@)
    } else {
        s
    };
    if (t & TY_INTERFACE_IEEE80211) == TY_INTERFACE_IEEE80211 {
        joined(s, "WIFI"@)
    } else {
        s
    }
}

/// Appends one flag name to a comma-separated list under construction.
fn push_name(out: &mut String, name: &str)
    ensures
        final(out)@ == joined(old(out)@, name@),
{
    if !out.as_str().is_empty() {
        out.append(",");
    } else {
        proof {
            assert(old(out)@ + name@ =~= name@) by {
                assert(old(out)@.len() == 0);
            }
        }
    }
    out.append(name);
}

/// Renders the flag bits set in `t` as a comma-separated list of names.
pub fn fmt_ty_interface_type(t: u32) -> (r: String)
    ensures
        r@ == spec_fmt_ty_interface_type(t),
{
    let mut out = String::new();
    if bit_is_set(t, TY_INTERFACE_RAW) {
        push_name(&mut out, "RAW");
    }
    if bit_is_set(t, TY_INTERFACE_USB) {
        push_name(&mut out, "USB");
    }
    if bit_is_set(t, TY_INTERFACE_ETHERNET) {
        push_name(&mut out, "ETH");
    }
    if bit_is_set(t, TY_INTERFACE_IEEE80211) {
        push_name(&mut out, "WIFI");
    }
    out
}

} // verus!
