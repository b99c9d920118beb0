//! One-way password hashing, verification and strength rules.

use rand::Rng;
use vstd::prelude::*;
use vstd::utf8::encode_utf8;

use crate::config::{parse_u32, spec_parse_u32};

verus! {

/// The error type of the `bcrypt` crate, carried through unread.
#[verifier::external_type_specification]
#[verifier::external_body]
pub struct ExBcryptError(bcrypt::BcryptError);

/// What `char::is_alphabetic` answers for a character: whether Unicode gives
/// it the `Alphabetic` property.
pub uninterp spec fn is_alphabetic(c: char) -> bool;

/// What `char::is_numeric` answers for a character: whether it lies in one
/// of the Unicode general categories for numbers.
pub uninterp spec fn is_numeric(c: char) -> bool;

/// What `bcrypt::verify` answers for a password and a stored hash: whether
/// the password matches, or `None` where the call fails because the hash is
/// not a well-formed bcrypt hash.
pub uninterp spec fn bcrypt_verdict(password: Seq<char>, hash: Seq<char>) -> Option<bool>;

/// `char::is_alphabetic` depends on the character alone.
pub assume_specification[ char::is_alphabetic ](c: char) -> (r: bool)
    ensures
        r == is_alphabetic(c),
;

/// `char::is_numeric` depends on the character alone.
pub assume_specification[ char::is_numeric ](c: char) -> (r: bool)
    ensures
        r == is_numeric(c),
;

/// `bcrypt::verify`: recomputes the hash of `password` with the cost and
/// salt read from `hash` and compares. The answer depends on the two
/// arguments alone.
#[verifier::external_body]
fn bcrypt_verify(password: &str, hash: &str) -> (r: Result<bool, bcrypt::BcryptError>)
    ensures
        match r {
            Ok(matches) => bcrypt_verdict(password@, hash@) == Some(matches),
            Err(_) => bcrypt_verdict(password@, hash@) is None,
        },
{
    bcrypt::verify(password, hash)
}

/// `bcrypt::hash`: draws a fresh salt and hashes `password` at `cost`. A cost
/// outside 4..=31 is refused. A hash that comes back is 60 characters long
/// and `bcrypt::verify` accepts the same password against it; nothing else
/// is claimed of it, since the salt is random.
#[verifier::external_body]
fn bcrypt_hash(password: &str, cost: u32) -> (r: Result<String, bcrypt::BcryptError>)
    ensures
        cost < MIN_COST || cost > MAX_COST ==> r is Err,
        r matches Ok(hash) ==> hash@.len() == 60 && bcrypt_verdict(password@, hash@) == Some(
            true,
        ),
{
    bcrypt::hash(password, cost)
}

/// `Rng::gen_range` on the thread's generator: some index below `bound`.
#[verifier::external_body]
fn random_below(bound: usize) -> (i: usize)
    requires
        bound > 0,
    ensures
        i < bound,
{
    rand::thread_rng().gen_range(0..bound)
}

/// `String::push`: appends one character.
#[verifier::external_body]
fn push_char(text: &mut String, c: char)
    ensures
        final(text)@ == old(text)@.push(c),
{
    text.push(c)
}

/// The lowest work factor that bcrypt accepts.
pub const MIN_COST: u32 = 4;

/// The highest work factor that bcrypt accepts.
pub const MAX_COST: u32 = 31;

/// The work factor used where none is configured.
pub const DEFAULT_COST: u32 = 12;

/// The characters that generated passwords are drawn from.
pub const PASSWORD_CHARSET: &'static str =
    "ABCDEFGHIJKLMNOPQRSTUVWXYZabcdefghijklmnopqrstuvwxyz0123456789!@#$%^&*";

/// The characters that temporary passwords are drawn from.
pub const TEMP_PASSWORD_CHARSET: &'static str =
    "ABCDEFGHIJKLMNOPQRSTUVWXYZabcdefghijklmnopqrstuvwxyz0123456789";

/// The length of a temporary password.
pub const TEMP_PASSWORD_LENGTH: usize = 12;

/// Why a password operation was refused.
#[derive(Debug)]
pub enum PasswordError {
    /// bcrypt refused: a cost out of range, a malformed stored hash, or no
    /// randomness for the salt.
    HashError(bcrypt::BcryptError),
    /// The password, or the hash to check it against, is empty or too weak.
    InvalidPassword,
    /// The password was not checked at all.
    VerificationFailed,
}

pub struct PasswordService;

impl PasswordService {
    /// A password is strong enough when it takes at least eight bytes and
    /// holds at least one letter and one digit.
    pub open spec fn is_strong(password: Seq<char>) -> bool {
        &&& encode_utf8(password).len() >= 8
        &&& exists|i: int| 0 <= i < password.len() && is_alphabetic(#[trigger] password[i])
        &&& exists|i: int| 0 <= i < password.len() && is_numeric(#[trigger] password[i])
    }

    /// What verifying `password` against `hash` comes to: `None` where the
    /// call is refused, else whether the password matches.
    pub open spec fn spec_verify(password: Seq<char>, hash: Seq<char>) -> Option<bool> {
        if password.len() == 0 || hash.len() == 0 {
            None
        } else {
            bcrypt_verdict(password, hash)
        }
    }

    /// The work factor that a setting gives: its number, or the default
    /// where it is absent or no number.
    pub open spec fn spec_cost(configured: Option<&str>) -> u32 {
        match configured {
            Some(text) => match spec_parse_u32(text@) {
                Some(cost) => cost,
                None => DEFAULT_COST,
            },
            None => DEFAULT_COST,
        }
    }

    /// The hashing work factor from its setting.
    pub fn get_cost(configured: Option<&str>) -> (cost: u32)
        ensures
            cost == Self::spec_cost(configured),
    {
        match configured {
            Some(text) => match parse_u32(text) {
                Some(cost) => cost,
                None => DEFAULT_COST,
            },
            None => DEFAULT_COST,
        }
    }

    /// Hashes a password with a fresh random salt at the given work factor.
    ///
    /// An empty password is refused as `InvalidPassword`, a work factor
    /// outside `MIN_COST..=MAX_COST` as `HashError`. Two calls on one
    /// password give different hashes; each hash that is returned verifies
    /// the password it was made from.
    pub fn hash_password(password: &str, cost: u32) -> (r: Result<String, PasswordError>)
        ensures
            password@.len() == 0 ==> r matches Err(PasswordError::InvalidPassword),
            password@.len() > 0 && (cost < MIN_COST || cost > MAX_COST) ==> r matches Err(
                PasswordError::HashError(_),
            ),
            r matches Err(e) ==> (e is InvalidPassword <==> password@.len() == 0) && !(e
                is VerificationFailed),
            r matches Ok(hash) ==> hash@.len() == 60 && Self::spec_verify(password@, hash@)
                == Some(true),
    {
        if password.is_empty() {
            return Err(PasswordError::InvalidPassword);
        }
        match bcrypt_hash(password, cost) {
            Ok(hash) => Ok(hash),
            Err(e) => Err(PasswordError::HashError(e)),
        }
    }

    /// Checks a password against a stored hash.
    ///
    /// Fails with `InvalidPassword` when either argument is empty and with
    /// `HashError` when the hash is not one that bcrypt can read; otherwise
    /// says whether the password matches.
    pub fn verify_password(password: &str, hash: &str) -> (r: Result<bool, PasswordError>)
        ensures
            Self::verify_result(password@, hash@, r),
    {
        if password.is_empty() || hash.is_empty() {
            return Err(PasswordError::InvalidPassword);
        }
        Self::verdict(bcrypt_verify(password, hash))
    }

    /// How a result of `verify_password` relates to its arguments.
    pub open spec fn verify_result(
        password: Seq<char>,
        hash: Seq<char>,
        r: Result<bool, PasswordError>,
    ) -> bool {
        if password.len() == 0 || hash.len() == 0 {
            r matches Err(PasswordError::InvalidPassword)
        } else {
            match bcrypt_verdict(password, hash) {
                Some(matches) => r matches Ok(v) && v == matches,
                None => r matches Err(PasswordError::HashError(_)),
            }
        }
    }

    /// Turns bcrypt's answer into the service's: a verdict passes through, a
    /// failure becomes `HashError`.
    pub fn verdict(answer: Result<bool, bcrypt::BcryptError>) -> (r: Result<bool, PasswordError>)
        ensures
            match answer {
                Ok(matches) => r matches Ok(v) && v == matches,
                Err(e) => r matches Err(PasswordError::HashError(x)) && x == e,
            },
    {
        match answer {
            Ok(matches) => Ok(matches),
            Err(e) => Err(PasswordError::HashError(e)),
        }
    }

    /// Accepts a password of at least eight bytes with at least one
    /// alphabetic and one numeric character, and refuses every other one as
    /// `InvalidPassword`.
    pub fn validate_password_strength(password: &str) -> (r: Result<(), PasswordError>)
        ensures
            r is Ok <==> Self::is_strong(password@),
            r is Err ==> r matches Err(PasswordError::InvalidPassword),
    {
        if password.as_bytes().len() < 8 {
            return Err(PasswordError::InvalidPassword);
        }
        let mut has_letter = false;
        let mut has_number = false;
        for c in it: password.chars()
            invariant
                it.seq() == password@,
                has_letter <==> exists|i: int|
                    0 <= i < it.index() && is_alphabetic(#[trigger] password@[i]),
                has_number <==> exists|i: int|
                    0 <= i < it.index() && is_numeric(#[trigger] password@[i]),
        {
            if c.is_alphabetic() {
                has_letter = true;
            }
            if c.is_numeric() {
                has_number = true;
            }
        }
        if !has_letter || !has_number {
            return Err(PasswordError::InvalidPassword);
        }
        Ok(())
    }

    /// Draws `length` characters, each one taken at random from `charset`.
    fn draw(charset: &str, length: usize) -> (password: String)
        requires
            charset@.len() > 0,
        ensures
            password@.len() == length,
            forall|i: int| 0 <= i < length ==> charset@.contains(#[trigger] password@[i]),
    {
        let size: usize = charset.unicode_len();
        let mut password = String::new();
        let mut made: usize = 0;
        while made < length
            invariant
                made <= length,
                size == charset@.len(),
                size > 0,
                password@.len() == made,
                forall|i: int| 0 <= i < made ==> charset@.contains(#[trigger] password@[i]),
            decreases length - made,
        {
            let idx: usize = random_below(size);
            let c: char = charset.get_char(idx);
            push_char(&mut password, c);
            made = made + 1;
        }
        password
    }

    /// Draws a password of `length` characters, each one taken at random
    /// from `PASSWORD_CHARSET`.
    pub fn generate_random_password(length: usize) -> (password: String)
        ensures
            password@.len() == length,
            forall|i: int|
                0 <= i < length ==> PASSWORD_CHARSET@.contains(#[trigger] password@[i]),
    {
        proof {
            reveal_strlit(
                "ABCDEFGHIJKLMNOPQRSTUVWXYZabcdefghijklmnopqrstuvwxyz0123456789!@#$%^&*",
            );
        }
        Self::draw(PASSWORD_CHARSET, length)
    }

    /// Draws a temporary password for an administrator's reset: twelve
    /// letters and digits.
    pub fn generate_temp_password() -> (password: String)
        ensures
            password@.len() == TEMP_PASSWORD_LENGTH,
            forall|i: int|
                0 <= i < TEMP_PASSWORD_LENGTH ==> TEMP_PASSWORD_CHARSET@.contains(
                    #[trigger] password@[i],
                ),
    {
        proof {
            reveal_strlit("ABCDEFGHIJKLMNOPQRSTUVWXYZabcdefghijklmnopqrstuvwxyz0123456789");
        }
        Self::draw(TEMP_PASSWORD_CHARSET, TEMP_PASSWORD_LENGTH)
    }
}

} // verus!
