//! Stateless rule checks on names, addresses and cooldowns.
use crate::error::NameRegistryError;
use crate::host::current_time;
use crate::state::{zero_address, Address, MAX_NAME_LENGTH};
use vstd::prelude::*;

verus! {

/// Characters a name may hold: ASCII lowercase letters, ASCII digits and `-`.
pub open spec fn is_name_char(c: char) -> bool {
    ('a' <= c && c <= 'z') || ('0' <= c && c <= '9') || c == '-'
}

/// A well-formed name: 3 to 32 characters from `[a-z0-9-]`, neither
/// starting nor ending with `-`.
pub open spec fn valid_name(s: Seq<char>) -> bool {
    &&& 3 <= s.len() <= MAX_NAME_LENGTH
    &&& s[0] != '-'
    &&& s[s.len() - 1] != '-'
    &&& forall|i: int| 0 <= i < s.len() ==> is_name_char(#[trigger] s[i])
}

/// Checks the syntax of a name.
pub fn validate_name(name: &str) -> (r: Result<(), NameRegistryError>)
    ensures
        r is Ok <==> valid_name(name@),
        r is Err ==> r == Err::<(), NameRegistryError>(NameRegistryError::InvalidNameFormat),
{
    let len = name.unicode_len();
    if len < 3 || len > MAX_NAME_LENGTH {
        return Err(NameRegistryError::InvalidNameFormat);
    }
    if name.get_char(0) == '-' || name.get_char(len - 1) == '-' {
        return Err(NameRegistryError::InvalidNameFormat);
    }
    let mut i: usize = 0;
    while i < len
        invariant
            len == name@.len(),
            0 <= i <= len,
            forall|j: int| 0 <= j < i ==> is_name_char(#[trigger] name@[j]),
        decreases len - i,
    {
        let c = name.get_char(i);
        if !(('a' <= c && c <= 'z') || ('0' <= c && c <= '9') || c == '-') {
            return Err(NameRegistryError::InvalidNameFormat);
        }
        i = i + 1;
    }
    Ok(())
}

/// Rejects the "unset" sentinel.
pub fn validate_address(address: &Address) -> (r: Result<(), NameRegistryError>)
    ensures
        r is Ok <==> *address != zero_address(),
        r is Err ==> r == Err::<(), NameRegistryError>(NameRegistryError::InvalidAddress),
{
    if address.is_zero() {
        return Err(NameRegistryError::InvalidAddress);
    }
    Ok(())
}

/// Whether a cooldown that lasts until `cooldown_until` is over at time `now`.
pub open spec fn cooldown_over(cooldown_until: i64, now: i64) -> bool {
    now >= cooldown_until
}

/// Rejects a time `now` that lies before `cooldown_until`.
pub fn check_cooldown(cooldown_until: i64, now: i64) -> (r: Result<(), NameRegistryError>)
    ensures
        r is Ok <==> cooldown_over(cooldown_until, now),
        r is Err ==> r == Err::<(), NameRegistryError>(NameRegistryError::CooldownNotOver),
{
    if now < cooldown_until {
        return Err(NameRegistryError::CooldownNotOver);
    }
    Ok(())
}

/// Rejects the operation while the host clock is before `cooldown_until`.
/// Whatever the clock reads, the result is either that of `check_cooldown`
/// at that time or `ClockUnavailable`.
pub fn validate_cooldown(cooldown_until: i64) -> (r: Result<(), NameRegistryError>)
    ensures
        r == Err::<(), NameRegistryError>(NameRegistryError::ClockUnavailable) || exists|now: i64|
            #[trigger] cooldown_over(cooldown_until, now) == (r is Ok) && (r is Err ==> r
                == Err::<(), NameRegistryError>(NameRegistryError::CooldownNotOver)),
{
    let now = current_time()?;
    check_cooldown(cooldown_until, now)
}

} // verus!
