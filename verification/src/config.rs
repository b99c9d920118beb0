//! The service's settings, read from their textual form.
//!
//! Three settings are consumed: the signing secret, which must be there;
//! the token lifetime in hours; and the hashing work factor. The two
//! numbers fall back to their defaults where they are absent or are not
//! numbers.

use vstd::prelude::*;

use crate::utils::jwt::{JwtError, JwtService};
use crate::utils::password::PasswordService;

verus! {

/// Whether `c` is one of the digits `0` to `9`.
pub open spec fn is_digit(c: char) -> bool {
    48 <= c as u32 <= 57
}

/// The value of a digit.
pub open spec fn digit_value(c: char) -> nat {
    (c as u32 - 48) as nat
}

/// Whether `s` consists of digits only.
pub open spec fn all_digits(s: Seq<char>) -> bool {
    forall|i: int| 0 <= i < s.len() ==> is_digit(#[trigger] s[i])
}

/// The number that a string of digits denotes in base ten.
pub open spec fn decimal_value(s: Seq<char>) -> nat
    decreases s.len(),
{
    if s.len() == 0 {
        0
    } else {
        decimal_value(s.drop_last()) * 10 + digit_value(s.last())
    }
}

/// The number that `s` denotes, where `s` is a non-empty string of digits
/// and the number is at most `limit`.
pub open spec fn bounded_decimal(s: Seq<char>, limit: nat) -> Option<nat> {
    if s.len() > 0 && all_digits(s) && decimal_value(s) <= limit {
        Some(decimal_value(s))
    } else {
        None
    }
}

/// `s` without a leading plus sign.
pub open spec fn unsigned_part(s: Seq<char>) -> Seq<char> {
    if s.len() > 0 && s[0] == '+' {
        s.skip(1)
    } else {
        s
    }
}

/// The unsigned 32-bit number that a text denotes: an optional `+` and
/// then digits only, with a value in range.
pub open spec fn spec_parse_u32(s: Seq<char>) -> Option<u32> {
    match bounded_decimal(unsigned_part(s), u32::MAX as nat) {
        Some(v) => Some(v as u32),
        None => None,
    }
}

/// The signed 64-bit number that a text denotes: an optional `+` or `-`
/// and then digits only, with a value in range.
pub open spec fn spec_parse_i64(s: Seq<char>) -> Option<i64> {
    if s.len() > 0 && s[0] == '-' {
        match bounded_decimal(s.skip(1), 0x8000_0000_0000_0000) {
            Some(v) => Some((-(v as int)) as i64),
            None => None,
        }
    } else {
        match bounded_decimal(unsigned_part(s), i64::MAX as nat) {
            Some(v) => Some(v as i64),
            None => None,
        }
    }
}

/// Reads the digits of `text` after its first `skip` characters.
fn read_decimal(text: &str, skip: usize, limit: u128) -> (r: Option<u128>)
    requires
        skip <= text@.len(),
        limit <= u64::MAX,
    ensures
        match r {
            Some(v) => bounded_decimal(text@.skip(skip as int), limit as nat) == Some(v as nat),
            None => bounded_decimal(text@.skip(skip as int), limit as nat) is None,
        },
{
    let mut value: u128 = 0;
    let mut to_skip: usize = skip;
    let mut ok = true;
    let mut any = false;
    for c in it: text.chars()
        invariant
            it.seq() == text@,
            skip <= text@.len(),
            limit <= u64::MAX,
            it.index() <= skip ==> to_skip == skip - it.index() && !any && ok && value == 0,
            it.index() >= skip ==> to_skip == 0,
            any == (it.index() > skip),
            it.index() >= skip && ok ==> all_digits(text@.subrange(skip as int, it.index() as int))
                && value == decimal_value(text@.subrange(skip as int, it.index() as int)) && value
                <= limit,
            it.index() >= skip && !ok ==> !all_digits(
                text@.subrange(skip as int, it.index() as int),
            ) || decimal_value(text@.subrange(skip as int, it.index() as int)) > limit,
    {
        let ghost k = it.index() as int;
        if to_skip > 0 {
            to_skip = to_skip - 1;
            proof {
                if k + 1 == skip {
                    assert(text@.subrange(skip as int, k + 1) =~= Seq::<char>::empty());
                }
            }
        } else {
            let ghost before = text@.subrange(skip as int, k);
            let ghost after = text@.subrange(skip as int, k + 1);
            proof {
                assert(after.drop_last() =~= before);
                assert(after.last() == c);
                assert(text@.subrange(skip as int, skip as int) =~= Seq::<char>::empty());
            }
            any = true;
            let code: u32 = c as u32;
            if ok {
                if code >= 48 && code <= 57 {
                    let next: u128 = value * 10 + ((code - 48) as u128);
                    if next > limit {
                        ok = false;
                    } else {
                        value = next;
                        proof {
                            assert forall|i: int| 0 <= i < after.len() implies is_digit(
                                #[trigger] after[i],
                            ) by {
                                if i < before.len() {
                                    assert(after[i] == before[i]);
                                }
                            }
                        }
                    }
                } else {
                    ok = false;
                    proof {
                        assert(!is_digit(after[after.len() - 1]));
                    }
                }
            } else {
                proof {
                    if all_digits(after) {
                        assert forall|i: int| 0 <= i < before.len() implies is_digit(
                            #[trigger] before[i],
                        ) by {
                            assert(before[i] == after[i]);
                        }
                    }
                }
            }
        }
    }
    proof {
        assert(text@.subrange(skip as int, text@.len() as int) =~= text@.skip(skip as int));
    }
    if ok && any {
        Some(value)
    } else {
        None
    }
}

/// Reads an unsigned 32-bit number as `str::parse` does: an optional `+`,
/// then at least one digit and nothing else, and a value that fits.
pub fn parse_u32(text: &str) -> (r: Option<u32>)
    ensures
        r == spec_parse_u32(text@),
{
    let length = text.unicode_len();
    let skip: usize = if length > 0 && text.get_char(0) == '+' {
        1
    } else {
        0
    };
    proof {
        assert(text@.skip(0) =~= text@);
    }
    match read_decimal(text, skip, 0xffff_ffff) {
        Some(v) => Some(v as u32),
        None => None,
    }
}

/// Reads a signed 64-bit number as `str::parse` does: an optional `+` or
/// `-`, then at least one digit and nothing else, and a value that fits.
pub fn parse_i64(text: &str) -> (r: Option<i64>)
    ensures
        r == spec_parse_i64(text@),
{
    let length = text.unicode_len();
    proof {
        assert(text@.skip(0) =~= text@);
    }
    if length > 0 && text.get_char(0) == '-' {
        match read_decimal(text, 1, 0x8000_0000_0000_0000) {
            Some(v) => Some((-(v as i128)) as i64),
            None => None,
        }
    } else {
        let skip: usize = if length > 0 && text.get_char(0) == '+' {
            1
        } else {
            0
        };
        match read_decimal(text, skip, 0x7fff_ffff_ffff_ffff) {
            Some(v) => Some(v as i64),
            None => None,
        }
    }
}

/// The settings of the service.
pub struct AuthConfig {
    /// The secret that tokens are signed with.
    pub jwt_secret: String,
    /// The lifetime of a token, in hours.
    pub jwt_expiration_hours: i64,
    /// The work factor of password hashing.
    pub bcrypt_cost: u32,
}

impl AuthConfig {
    /// The settings from their textual form. A missing secret is the one
    /// fault that stops the service from starting.
    pub fn from_settings(
        secret: Option<String>,
        expiration_hours: Option<&str>,
        cost: Option<&str>,
    ) -> (r: Result<AuthConfig, JwtError>)
        ensures
            match secret {
                None => r matches Err(e) && e == JwtError::MissingSecret,
                Some(text) => {
                    &&& r matches Ok(config)
                    &&& r.unwrap().jwt_secret == text
                    &&& r.unwrap().jwt_expiration_hours == JwtService::spec_expiration_hours(
                        expiration_hours,
                    )
                    &&& r.unwrap().bcrypt_cost == PasswordService::spec_cost(cost)
                },
            },
    {
        let jwt_secret = JwtService::get_secret(secret)?;
        Ok(
            AuthConfig {
                jwt_secret,
                jwt_expiration_hours: JwtService::get_expiration_hours(expiration_hours),
                bcrypt_cost: PasswordService::get_cost(cost),
            },
        )
    }

    /// The token service that these settings describe.
    pub fn jwt_service(&self) -> (service: JwtService)
        ensures
            service.secret() == self.jwt_secret@,
            service.expiration_hours() == self.jwt_expiration_hours,
    {
        JwtService::new(self.jwt_secret.clone(), self.jwt_expiration_hours)
    }
}

} // verus!
