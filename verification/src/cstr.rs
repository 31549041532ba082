//! Decoding the vendor's fixed C text fields.
//!
//! Every text the vendor reports sits in a fixed-size `char` array,
//! NUL-terminated. Decoding one means taking the bytes before the first
//! NUL and reading them as UTF-8: the scan for the NUL is verified here,
//! and the UTF-8 step leans on the standard library.

use vstd::prelude::*;
use vstd::slice::slice_to_vec;
use vstd::utf8::{encode_utf8, valid_utf8};

verus! {

#[verifier::external_type_specification]
#[verifier::external_body]
pub struct ExFromUtf8Error(std::string::FromUtf8Error);

/// Relies on `String::from_utf8`: it succeeds exactly on valid UTF-8,
/// and the text it returns encodes back to the given bytes.
pub assume_specification[ String::from_utf8 ](v: Vec<u8>) -> (r: Result<
    String,
    std::string::FromUtf8Error,
>)
    ensures
        r is Ok <==> valid_utf8(v@),
        r matches Ok(s) ==> encode_utf8(s@) == v@,
;

/// The decoded text of a fixed C `char` field: the bytes before the
/// first NUL, read as UTF-8. Nothing where no NUL terminates the field
/// or where the terminated prefix is not UTF-8.
pub fn cstr_to_str(field: &[u8]) -> (r: Option<String>)
    ensures
        r is Some <==> (field@.index_of_first(0u8) matches Some(k) && valid_utf8(
            field@.take(k),
        )),
        r matches Some(s) ==> (field@.index_of_first(0u8) matches Some(k) && encode_utf8(s@)
            == field@.take(k)),
{
    let n = field.len();
    let mut i: usize = 0;
    while i < n
        invariant
            n == field@.len(),
            i <= n,
            forall|j: int| 0 <= j < i ==> field@[j] != 0u8,
        decreases n - i,
    {
        if field[i] == 0 {
            proof {
                field@.index_of_first_ensures(0u8);
            }
            let prefix: &[u8] = &field[0..i];
            return match String::from_utf8(slice_to_vec(prefix)) {
                Ok(s) => Some(s),
                Err(_) => None,
            };
        }
        i += 1;
    }
    proof {
        field@.index_of_first_ensures(0u8);
    }
    None
}

} // verus!
