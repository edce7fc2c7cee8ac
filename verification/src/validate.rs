//! Format rules for account addresses and native denominations, and the
//! well-formedness check for asset descriptors. A recipient override and a
//! guard receiver must pass the address rule; a guard's asset descriptor must
//! pass the asset rule before its balance is ever compared.

use vstd::prelude::*;
use vstd::string::StrSliceExecFns;
use crate::asset::AssetInfo;

verus! {

/// An account address is a lowercase bech32-style string: ASCII lowercase
/// letters and digits only.
pub open spec fn valid_address_char(c: char) -> bool {
    (97 <= c as u32 && c as u32 <= 122) || (48 <= c as u32 && c as u32 <= 57)
}

/// A native denomination starts with a lowercase ASCII letter and may also
/// contain digits and the separators `/`, `:`, `.`, `_`, `-`.
pub open spec fn valid_denom_char(c: char) -> bool {
    ||| valid_address_char(c)
    ||| c as u32 == 47  // '/'
    ||| c as u32 == 58  // ':'
    ||| c as u32 == 46  // '.'
    ||| c as u32 == 95  // '_'
    ||| c as u32 == 45  // '-'
}

pub open spec fn valid_address(s: Seq<char>) -> bool {
    &&& 3 <= s.len() <= 90
    &&& forall|i: int| 0 <= i < s.len() ==> valid_address_char(#[trigger] s[i])
}

pub open spec fn valid_denom(s: Seq<char>) -> bool {
    &&& 3 <= s.len() <= 128
    &&& 97 <= s[0] as u32 <= 122
    &&& forall|i: int| 0 <= i < s.len() ==> valid_denom_char(#[trigger] s[i])
}

/// An asset descriptor is well formed when the string that identifies it
/// meets the format rule of its kind.
pub open spec fn valid_asset(info: AssetInfo) -> bool {
    match info {
        AssetInfo::NativeToken { denom } => valid_denom(denom@),
        AssetInfo::Token { contract_addr } => valid_address(contract_addr@),
    }
}

pub fn is_valid_address(s: &str) -> (r: bool)
    ensures
        r == valid_address(s@),
{
    let n = s.unicode_len();
    if n < 3 || n > 90 {
        return false;
    }
    let mut i: usize = 0;
    while i < n
        invariant
            0 <= i <= n,
            n == s@.len(),
            3 <= n <= 90,
            forall|j: int| 0 <= j < i ==> valid_address_char(#[trigger] s@[j]),
        decreases n - i,
    {
        let c = s.get_char(i);
        let u = c as u32;
        if !((97 <= u && u <= 122) || (48 <= u && u <= 57)) {
            assert(!valid_address_char(s@[i as int]));
            return false;
        }
        i += 1;
    }
    true
}

pub fn is_valid_denom(s: &str) -> (r: bool)
    ensures
        r == valid_denom(s@),
{
    let n = s.unicode_len();
    if n < 3 || n > 128 {
        return false;
    }
    let first = s.get_char(0);
    let fu = first as u32;
    if !(97 <= fu && fu <= 122) {
        return false;
    }
    let mut i: usize = 0;
    while i < n
        invariant
            0 <= i <= n,
            n == s@.len(),
            3 <= n <= 128,
            97 <= s@[0] as u32 <= 122,
            forall|j: int| 0 <= j < i ==> valid_denom_char(#[trigger] s@[j]),
        decreases n - i,
    {
        let c = s.get_char(i);
        let u = c as u32;
        if !((97 <= u && u <= 122) || (48 <= u && u <= 57) || u == 47 || u == 58 || u == 46
            || u == 95 || u == 45) {
            assert(!valid_denom_char(s@[i as int]));
            return false;
        }
        i += 1;
    }
    true
}

/// The well-formedness check behind the guard's `InvalidAsset` error.
pub fn is_valid_asset(info: &AssetInfo) -> (r: bool)
    ensures
        r == valid_asset(*info),
{
    match info {
        AssetInfo::NativeToken { denom } => is_valid_denom(denom.as_str()),
        AssetInfo::Token { contract_addr } => is_valid_address(contract_addr.as_str()),
    }
}

} // verus!
