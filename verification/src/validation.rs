use vstd::prelude::*;

use crate::errors::BitDSMError;

verus! {

/// The longest admissible application name, in characters.
pub const MAX_NAME_LEN: usize = 32;

/// The exact length of a compressed Bitcoin public key written in
/// hexadecimal: 33 bytes, two digits each.
pub const BTC_PUBLIC_KEY_LEN: usize = 66;

/// An ASCII hexadecimal digit: `0`-`9`, `a`-`f` or `A`-`F`.
pub open spec fn is_ascii_hex_digit(c: char) -> bool {
    (48 <= c as u32 && c as u32 <= 57)  // '0' to '9'
    || (97 <= c as u32 && c as u32 <= 102)  // 'a' to 'f'
    || (65 <= c as u32 && c as u32 <= 70)  // 'A' to 'F'
}

/// A name is valid when it is non-empty and at most `MAX_NAME_LEN` characters.
pub open spec fn valid_name(s: Seq<char>) -> bool {
    0 < s.len() <= MAX_NAME_LEN
}

/// A Bitcoin public key string is valid when it is exactly
/// `BTC_PUBLIC_KEY_LEN` characters, every one an ASCII hexadecimal digit.
pub open spec fn valid_btc_public_key(s: Seq<char>) -> bool {
    &&& s.len() == BTC_PUBLIC_KEY_LEN
    &&& forall|i: int| 0 <= i < s.len() ==> is_ascii_hex_digit(s[i])
}

/// Rejects an empty name with `InvalidAppName` and a name over the length
/// bound with `AppNameTooLong`; accepts everything in between.
pub fn validate_name(name: &str) -> (r: Result<(), BitDSMError>)
    ensures
        r is Ok <==> valid_name(name@),
        name@.len() == 0 ==> r == Err::<(), BitDSMError>(BitDSMError::InvalidAppName),
        name@.len() > MAX_NAME_LEN ==> r == Err::<(), BitDSMError>(BitDSMError::AppNameTooLong),
{
    let n = name.unicode_len();
    if n == 0 {
        Err(BitDSMError::InvalidAppName)
    } else if n > MAX_NAME_LEN {
        Err(BitDSMError::AppNameTooLong)
    } else {
        Ok(())
    }
}

/// Rejects with `InvalidBtcKey` every string that is not exactly 66 ASCII
/// hexadecimal digits.
pub fn validate_btc_public_key(key: &str) -> (r: Result<(), BitDSMError>)
    ensures
        r is Ok <==> valid_btc_public_key(key@),
        r is Err ==> r == Err::<(), BitDSMError>(BitDSMError::InvalidBtcKey),
{
    let n = key.unicode_len();
    if n != BTC_PUBLIC_KEY_LEN {
        return Err(BitDSMError::InvalidBtcKey);
    }
    let mut i: usize = 0;
    while i < BTC_PUBLIC_KEY_LEN
        invariant
            key@.len() == BTC_PUBLIC_KEY_LEN,
            0 <= i <= BTC_PUBLIC_KEY_LEN,
            forall|j: int| 0 <= j < i ==> is_ascii_hex_digit(key@[j]),
        decreases BTC_PUBLIC_KEY_LEN - i,
    {
        let c = key.get_char(i);
        let u = c as u32;
        if !((48 <= u && u <= 57) || (97 <= u && u <= 102) || (65 <= u && u <= 70)) {
            return Err(BitDSMError::InvalidBtcKey);
        }
        i += 1;
    }
    Ok(())
}

/// Rejects a zero amount with `InvalidAmount`.
pub fn validate_positive(amount: u64) -> (r: Result<(), BitDSMError>)
    ensures
        r is Ok <==> amount > 0,
        amount == 0 ==> r == Err::<(), BitDSMError>(BitDSMError::InvalidAmount),
{
    if amount == 0 {
        Err(BitDSMError::InvalidAmount)
    } else {
        Ok(())
    }
}

/// Adds an amount to a balance, failing with `Overflow` instead of wrapping
/// when the sum does not fit in the balance type.
pub fn checked_add(balance: u64, amount: u64) -> (r: Result<u64, BitDSMError>)
    ensures
        balance + amount <= u64::MAX ==> r == Ok::<u64, BitDSMError>((balance + amount) as u64),
        balance + amount > u64::MAX ==> r == Err::<u64, BitDSMError>(BitDSMError::Overflow),
{
    if amount <= u64::MAX - balance {
        Ok(balance + amount)
    } else {
        Err(BitDSMError::Overflow)
    }
}

} // verus!
