//! Address validation, delegated to an external validator capability.
//!
//! A vault or admin identifier is a plain string; whether it is a valid
//! reference is decided by the validator alone. Its verdict is a function
//! of the string, named here by `addr_accepted`.

use vstd::prelude::*;
use cosmwasm_std::Api;

verus! {

/// Whether the external address validator accepts `s`.
pub uninterp spec fn addr_accepted(s: Seq<char>) -> bool;

/// A character the validator's normalization leaves in place: ASCII, not an
/// upper-case letter, not NUL.
pub open spec fn plain_addr_char(c: char) -> bool {
    let n = c as u32;
    0 < n && n < 128 && !(65 <= n && n <= 90)
}

/// A string of 3 to 90 such characters; every such string is a valid address.
pub open spec fn plain_lower_addr(s: Seq<char>) -> bool {
    &&& 3 <= s.len() <= 90
    &&& forall|i: int| 0 <= i < s.len() ==> plain_addr_char(s[i])
}

/// Relies on cosmwasm_std's MockApi::addr_validate: it accepts `input` iff
/// its UTF-8 form is 3 to 90 bytes long and lower-casing it (with NUL bytes
/// stripped) changes nothing, and on success returns the input unchanged.
/// Strings of plain lower-case ASCII in that length range are thus always
/// accepted.
#[verifier::external_body]
pub(crate) fn validate_address(s: &String) -> (r: Result<String, String>)
    ensures
        r is Ok <==> addr_accepted(s@),
        r matches Ok(a) ==> a@ == s@,
        plain_lower_addr(s@) ==> r is Ok,
{
    match cosmwasm_std::testing::MockApi::default().addr_validate(s.as_str()) {
        Ok(a) => Ok(a.into_string()),
        Err(e) => Err(e.to_string()),
    }
}

} // verus!
