//! Text helpers: decimal rendering of integers, and the check that a string
//! can cross into C (it holds no NUL byte).
use vstd::prelude::*;
use crate::error::Exception;
use vstd::string::StringSliceAdditionalSpecFns;

verus! {

/// The decimal digit character for `d < 10`.
pub open spec fn digit_char(d: nat) -> char {
    if d == 0 { '0' }
    else if d == 1 { '1' }
    else if d == 2 { '2' }
    else if d == 3 { '3' }
    else if d == 4 { '4' }
    else if d == 5 { '5' }
    else if d == 6 { '6' }
    else if d == 7 { '7' }
    else if d == 8 { '8' }
    else { '9' }
}

/// The decimal rendering of `n`, most significant digit first, without
/// leading zeros.
pub open spec fn decimal(n: nat) -> Seq<char>
    decreases n,
{
    if n < 10 {
        seq![digit_char(n)]
    } else {
        decimal(n / 10).push(digit_char(n % 10))
    }
}

/// The one-character string of the digit `d`.
fn digit_str(d: usize) -> (s: &'static str)
    requires
        d < 10,
    ensures
        s@ == seq![digit_char(d as nat)],
{
    if d == 0 { proof { reveal_strlit("0"); } "0" }
    else if d == 1 { proof { reveal_strlit("1"); } "1" }
    else if d == 2 { proof { reveal_strlit("2"); } "2" }
    else if d == 3 { proof { reveal_strlit("3"); } "3" }
    else if d == 4 { proof { reveal_strlit("4"); } "4" }
    else if d == 5 { proof { reveal_strlit("5"); } "5" }
    else if d == 6 { proof { reveal_strlit("6"); } "6" }
    else if d == 7 { proof { reveal_strlit("7"); } "7" }
    else if d == 8 { proof { reveal_strlit("8"); } "8" }
    else { proof { reveal_strlit("9"); } "9" }
}

/// Append the decimal rendering of `n` to `s`.
pub fn push_decimal(s: &mut String, n: usize)
    ensures
        final(s)@ == old(s)@ + decimal(n as nat),
    decreases n,
{
    if n >= 10 {
        push_decimal(s, n / 10);
    }
    s.append(digit_str(n % 10));
    proof {
        if n >= 10 {
            assert(old(s)@ + decimal(n as nat) =~= old(s)@ + decimal((n / 10) as nat) + seq![
                digit_char((n % 10) as nat),
            ]);
        } else {
            assert(decimal(n as nat) =~= seq![digit_char((n % 10) as nat)]);
        }
    }
}

/// Whether `bytes[0..k]` holds no NUL byte.
pub open spec fn nul_free_prefix(bytes: Seq<u8>, k: int) -> bool {
    forall|i: int| 0 <= i < k ==> bytes[i] != 0
}

/// The position of the first NUL byte of `bytes`, if any.
pub open spec fn first_nul(bytes: Seq<u8>) -> Option<nat> {
    if nul_free_prefix(bytes, bytes.len() as int) {
        None
    } else {
        Some(choose|p: nat| p < bytes.len() && bytes[p as int] == 0 && nul_free_prefix(bytes, p as int))
    }
}

/// The message of the error refusing a string whose first NUL byte is at
/// `position`.
pub open spec fn nul_message(position: nat) -> Seq<char> {
    "nul byte found in provided data at position: "@ + decimal(position)
}

/// Find the first NUL byte of `s`.
pub fn find_nul(s: &str) -> (r: Option<usize>)
    ensures
        r matches Some(p) ==> first_nul(s.spec_bytes()) == Some(p as nat),
        r is None ==> first_nul(s.spec_bytes()) is None,
{
    let bytes = s.as_bytes();
    let mut i: usize = 0;
    while i < bytes.len()
        invariant
            bytes@ == s.spec_bytes(),
            i <= bytes@.len(),
            nul_free_prefix(bytes@, i as int),
        decreases bytes.len() - i,
    {
        if bytes[i] == 0 {
            proof {
                let p = choose|p: nat| p < bytes@.len() && bytes@[p as int] == 0 && nul_free_prefix(bytes@, p as int);
                assert(i < bytes@.len() && bytes@[i as int] == 0 && nul_free_prefix(bytes@, i as int));
                if p < i {
                } else if p > i {
                    assert(bytes@[i as int] != 0);
                }
                assert(p == i);
            }
            return Some(i);
        }
        i = i + 1;
    }
    None
}

/// Check that `s` can be handed to C as a NUL-terminated string.
///
/// Fails with the message `nul byte found in provided data at position: N`,
/// where `N` is the position of the first NUL byte.
pub fn check_c_string(s: &str) -> (r: Result<(), Exception>)
    ensures
        r is Ok <==> first_nul(s.spec_bytes()) is None,
        r matches Err(e) ==> e.message() == nul_message(first_nul(s.spec_bytes())->0),
{
    match find_nul(s) {
        None => Ok(()),
        Some(p) => {
            let mut what = String::from_str("nul byte found in provided data at position: ");
            proof { reveal_strlit("nul byte found in provided data at position: "); }
            push_decimal(&mut what, p);
            Err(Exception::from_string(what))
        },
    }
}

} // verus!
