//! One-way password hashes: deriving a stored string from a password, and
//! checking a candidate password against a stored string.

use crate::error::AppError;
use argon2::password_hash::rand_core::OsRng;
use argon2::password_hash::{Salt, SaltString};
use argon2::{Argon2, PasswordHash, PasswordHasher, PasswordVerifier};
use vstd::prelude::*;
use vstd::string::*;

verus! {

/// What `PasswordHash::new` makes of `stored`: `None` where it does not parse
/// as a PHC string, else the parameters of the parsed hash, each with its
/// name and the text of its value, in the order in which the string gives
/// them.
pub uninterp spec fn phc_params(stored: Seq<char>) -> Option<Seq<(Seq<char>, Seq<char>)>>;

/// Whether `Argon2::default().verify_password` accepts `password` for the
/// hash that the PHC string `stored` parses to.
pub uninterp spec fn argon2_accepts(password: Seq<char>, stored: Seq<char>) -> bool;

/// What `Argon2::default().hash_password` makes of `password` under the salt
/// with the text `salt`, printed as a PHC string; `None` where it fails.
pub uninterp spec fn argon2_phc(password: Seq<char>, salt: Seq<char>) -> Option<Seq<char>>;

/// Whether `stored` parses as a PHC string.
pub open spec fn phc_well_formed(stored: Seq<char>) -> bool {
    phc_params(stored) is Some
}

/// The smallest number of lanes whose eightfold, which `argon2` computes
/// before it looks at the number itself, goes beyond what its integer holds.
pub const OVERFLOWING_LANES: u32 = 0x2000_0000;

/// The longest password, in characters, for which hashing is promised to
/// succeed: at four bytes to the character it stays below the four gibibytes
/// that Argon2 takes.
pub const LONGEST_PASSWORD: usize = 0x3FFF_FFFF;

/// Whether `c` is one of the ten digits.
pub open spec fn is_digit(c: char) -> bool {
    '0' <= c <= '9'
}

/// The number that the digits of `text` write in base ten.
pub open spec fn number(text: Seq<char>) -> nat
    decreases text.len(),
{
    if text.len() == 0 {
        0
    } else {
        number(text.drop_last()) * 10 + (text.last() as nat - '0' as nat) as nat
    }
}

/// Whether `value` writes a number of lanes at which `argon2` overflows: a
/// decimal as `argon2` reads one, so digits without a leading zero that fit
/// its 32-bit integer, of `OVERFLOWING_LANES` or more.
pub open spec fn lanes_overflow(value: Seq<char>) -> bool {
    &&& forall|i: int| 0 <= i < value.len() ==> is_digit(#[trigger] value[i])
    &&& value.len() > 0
    &&& value[0] != '0'
    &&& OVERFLOWING_LANES <= number(value) <= u32::MAX
}

/// The value of the last parameter named `p`, the number of lanes. A string
/// may name `p` more than once, and `argon2` goes by the last.
pub open spec fn last_lanes(params: Seq<(Seq<char>, Seq<char>)>) -> Option<Seq<char>>
    decreases params.len(),
{
    if params.len() == 0 {
        None
    } else if params.last().0 == seq!['p'] {
        Some(params.last().1)
    } else {
        last_lanes(params.drop_last())
    }
}

/// Whether the parameters ask for a number of lanes at which `argon2`
/// overflows. Nothing else is held against a string: a number of lanes that
/// is merely too large or too small, or no number at all, is for the
/// verifier to refuse.
pub open spec fn params_overflow(params: Seq<(Seq<char>, Seq<char>)>) -> bool {
    last_lanes(params) matches Some(value) && lanes_overflow(value)
}

/// Whether `c` is one of the sixty-four characters of Base64.
pub open spec fn is_b64(c: char) -> bool {
    ||| 'A' <= c <= 'Z'
    ||| 'a' <= c <= 'z'
    ||| '0' <= c <= '9'
    ||| c == '+'
    ||| c == '/'
}

/// Whether `salt` has the shape of a salt that is drawn here: the Base64 of
/// sixteen bytes without padding, so twenty-two characters of which the last
/// carries four unused bits, all zero.
pub open spec fn drawn_salt(salt: Seq<char>) -> bool {
    &&& salt.len() == 22
    &&& forall|i: int| 0 <= i < salt.len() ==> is_b64(#[trigger] salt[i])
    &&& (salt[21] == 'A' || salt[21] == 'Q' || salt[21] == 'g' || salt[21] == 'w')
}

/// Parameters as they are handed round: the views of each name and value.
pub open spec fn params_view(params: Seq<(String, String)>) -> Seq<(Seq<char>, Seq<char>)> {
    params.map_values(|pair: (String, String)| (pair.0@, pair.1@))
}

/// What checking `password` against `stored` comes to: `None` where `stored`
/// does not parse; `Some(false)` where it asks for a number of lanes at which
/// `argon2` overflows, and so for a hash that cannot be derived; else whether
/// the password is accepted.
pub open spec fn check(password: Seq<char>, stored: Seq<char>) -> Option<bool> {
    match phc_params(stored) {
        None => None,
        Some(params) => Some(!params_overflow(params) && argon2_accepts(password, stored)),
    }
}

/// How every stored string that is derived here begins: the algorithm
/// Argon2id, its version 19, and the default cost parameters.
pub open spec fn argon2id_header() -> Seq<char> {
    "$argon2id$v=19$m=19456,t=2,p=1$"@
}

/// What holds of the string `stored` that `password` is hashed to under the
/// salt with the text `salt`: it is what the two determine; it names the
/// algorithm and its parameters, then the salt, which holds no `$`, then `$`
/// and the digest; and checking the password against it succeeds.
pub open spec fn hash_under(password: Seq<char>, salt: Seq<char>, stored: Seq<char>) -> bool {
    &&& argon2_phc(password, salt) == Some(stored)
    &&& !salt.contains('$')
    &&& (argon2id_header() + salt + seq!['$']).is_prefix_of(stored)
    &&& check(password, stored) == Some(true)
}

/// What holds of a stored string that was derived from `password`: it is the
/// hash of the password under some salt.
pub open spec fn hash_of(password: Seq<char>, stored: Seq<char>) -> bool {
    exists|salt: Seq<char>| hash_under(password, salt, stored)
}

/// Calls `SaltString::generate` with the operating system's random source,
/// and hands out the salt's text. Each call draws sixteen new random bytes,
/// so nothing is claimed of which text comes back, only of its shape: the
/// unpadded Base64 of sixteen bytes. The call panics where the operating
/// system has no random bytes to give.
#[verifier::external_body]
fn fresh_salt() -> (salt: String)
    ensures
        drawn_salt(salt@),
{
    SaltString::generate(&mut OsRng).as_str().to_owned()
}

/// Reads `salt` with `Salt::from_b64`, calls `hash_password` of
/// `Argon2::default()` and prints the hash as a PHC string. The outcome
/// depends on the two texts alone. Claimed of a string that comes back: the
/// salt was accepted, so it holds no `$`; the string is the names of the
/// default algorithm, version and cost parameters, the salt's text, `$`, and
/// the digest; and it parses again to a hash that asks for one lane and that
/// accepts `password`, since verification derives the digest anew from the
/// salt and the parameters that the string carries. Claimed of success: a
/// salt of the shape that is drawn here decodes to sixteen bytes, and with
/// it only a password of more than `u32::MAX` bytes is refused, which one of
/// at most `LONGEST_PASSWORD` characters is not.
#[verifier::external_body]
fn derive(password: &str, salt: &str) -> (res: Result<String, argon2::password_hash::Error>)
    ensures
        match argon2_phc(password@, salt@) {
            Some(text) => res matches Ok(stored) && stored@ == text && hash_under(
                password@,
                salt@,
                text,
            ),
            None => res is Err,
        },
        drawn_salt(salt@) && password@.len() <= LONGEST_PASSWORD ==> res is Ok,
{
    let salt = Salt::from_b64(salt)?;
    let hash = Argon2::default().hash_password(password.as_bytes(), salt)?;
    Ok(hash.to_string())
}

/// Calls `PasswordHash::new` on `stored` and hands out the parameters of the
/// parsed hash, each as the text of its name and of its value.
#[verifier::external_body]
fn parse_params(stored: &str) -> (res: Result<
    Vec<(String, String)>,
    argon2::password_hash::Error,
>)
    ensures
        match phc_params(stored@) {
            Some(params) => res matches Ok(found) && params_view(found@) == params,
            None => res is Err,
        },
{
    let parsed = PasswordHash::new(stored)?;
    let mut found = Vec::new();
    for (name, value) in parsed.params.iter() {
        found.push((name.as_str().to_owned(), value.as_str().to_owned()));
    }
    Ok(found)
}

/// Calls `PasswordHash::new` on `stored` and `verify_password` of
/// `Argon2::default()` with `password`; the answer depends on the two strings
/// alone. Left out are the strings that do not parse and those whose last
/// `p` is a decimal of 536870912 or more: `argon2` goes by the last `p`, and
/// multiplies it by eight in a 32-bit integer before it compares it with the
/// largest number of lanes. The call takes the memory that the string asks
/// for, and as long as its passes take.
#[verifier::external_body]
fn verify_parsed(password: &str, stored: &str) -> (res: Result<(), argon2::password_hash::Error>)
    requires
        phc_params(stored@) matches Some(params) && !params_overflow(params),
    ensures
        res.is_ok() == argon2_accepts(password@, stored@),
{
    let parsed = PasswordHash::new(stored)?;
    Argon2::default().verify_password(password.as_bytes(), &parsed)
}

/// A prefix of digits writes no larger a number than the whole text.
proof fn lemma_number_grows(text: Seq<char>, i: int)
    requires
        0 <= i <= text.len(),
        forall|j: int| 0 <= j < text.len() ==> is_digit(#[trigger] text[j]),
    ensures
        number(text.take(i)) <= number(text),
    decreases text.len(),
{
    if i == text.len() {
        assert(text.take(i) == text);
    } else {
        lemma_number_grows(text.drop_last(), i);
        assert(text.drop_last().take(i) == text.take(i));
    }
}

/// Whether `value` writes a number of lanes at which `argon2` overflows.
pub fn overflows_lanes(value: &str) -> (res: bool)
    ensures
        res == lanes_overflow(value@),
{
    let n = value.unicode_len();
    if n == 0 {
        return false;
    }
    if value.get_char(0) == '0' {
        return false;
    }
    let mut total: u64 = 0;
    let mut i: usize = 0;
    while i < n
        invariant
            i <= n == value@.len(),
            forall|j: int| 0 <= j < i ==> is_digit(#[trigger] value@[j]),
            total == number(value@.take(i as int)),
            total <= u32::MAX,
        decreases n - i,
    {
        let c = value.get_char(i);
        if c < '0' || c > '9' {
            return false;
        }
        let next = total * 10 + (c as u64 - '0' as u64);
        proof {
            let upto = value@.take(i + 1);
            assert(upto.drop_last() == value@.take(i as int));
            assert(upto.last() == c);
        }
        if next > u32::MAX as u64 {
            proof {
                if forall|j: int| 0 <= j < value@.len() ==> is_digit(#[trigger] value@[j]) {
                    lemma_number_grows(value@, i + 1);
                }
            }
            return false;
        }
        total = next;
        i += 1;
    }
    assert(value@.take(n as int) == value@);
    total >= OVERFLOWING_LANES as u64
}

/// Whether the verifier can be handed a string with these parameters:
/// whether the last one named `p`, if there is one, is no number of lanes at
/// which `argon2` overflows.
pub fn admits(params: &Vec<(String, String)>) -> (res: bool)
    ensures
        res == !params_overflow(params_view(params@)),
{
    let mut overflow = false;
    let mut i: usize = 0;
    while i < params.len()
        invariant
            i <= params.len(),
            overflow == params_overflow(params_view(params@).take(i as int)),
        decreases params.len() - i,
    {
        let name = params[i].0.as_str();
        let named_lanes = name.unicode_len() == 1 && name.get_char(0) == 'p';
        proof {
            let seen = params_view(params@).take(i + 1);
            let written = seen.last().0;
            assert(seen.drop_last() == params_view(params@).take(i as int));
            assert(seen.last() == params_view(params@)[i as int]);
            assert(written == name@);
            if named_lanes {
                assert(written =~= seq!['p']);
            } else if written == seq!['p'] {
                assert(written.len() == 1 && written[0] == 'p');
            }
        }
        if named_lanes {
            overflow = overflows_lanes(params[i].1.as_str());
        }
        i += 1;
    }
    assert(params_view(params@).take(params.len() as int) == params_view(params@));
    !overflow
}

/// What a hashing attempt means for the caller: the stored string, or the
/// primitive's failure as `PasswordHashError`.
pub fn hash_outcome(derived: Result<String, argon2::password_hash::Error>) -> (res: Result<
    String,
    AppError,
>)
    ensures
        match derived {
            Ok(stored) => res matches Ok(same) && same == stored,
            Err(cause) => res matches Err(AppError::PasswordHashError(same)) && same == cause,
        },
{
    match derived {
        Ok(stored) => Ok(stored),
        Err(cause) => Err(AppError::PasswordHashError(cause)),
    }
}

/// What a check means for the caller. `checked` holds the parse of the
/// stored string; inside, `None` where the verifier was not called for the
/// string's number of lanes, else the verification. A stored string that does not parse is
/// `PasswordHashError`; a refused string is `Ok(false)`; a verification that
/// fails, for a wrong password or for any other reason, is `Ok(false)`.
pub fn check_outcome(
    checked: Result<Option<Result<(), argon2::password_hash::Error>>, argon2::password_hash::Error>,
) -> (res: Result<bool, AppError>)
    ensures
        match checked {
            Ok(Some(verdict)) => res matches Ok(valid) && valid == verdict.is_ok(),
            Ok(None) => res matches Ok(false),
            Err(cause) => res matches Err(AppError::PasswordHashError(same)) && same == cause,
        },
{
    match checked {
        Ok(Some(verdict)) => Ok(verdict.is_ok()),
        Ok(None) => Ok(false),
        Err(cause) => Err(AppError::PasswordHashError(cause)),
    }
}

/// Derives a stored string from `password` under the salt with the text
/// `salt`. The outcome is a function of the two: the same password and salt
/// give the same string, and the string carries the salt. With a salt of the
/// shape that is drawn here, a password of at most `LONGEST_PASSWORD`
/// characters is always hashed.
pub fn hash_with_salt(password: &str, salt: &str) -> (res: Result<String, AppError>)
    ensures
        match argon2_phc(password@, salt@) {
            Some(text) => res matches Ok(stored) && stored@ == text && hash_under(
                password@,
                salt@,
                text,
            ),
            None => res matches Err(e) && e is PasswordHashError,
        },
        drawn_salt(salt@) && password@.len() <= LONGEST_PASSWORD ==> res is Ok,
{
    hash_outcome(derive(password, salt))
}

/// Derives a stored string from `password` under a salt drawn for this call.
/// A password of at most `LONGEST_PASSWORD` characters is always hashed.
/// Whatever string comes back is the hash of the password under some salt,
/// so an Argon2id string that accepts `password`; a failure of the primitive
/// is reported as `PasswordHashError`.
pub fn hash_password(password: &str) -> (res: Result<String, AppError>)
    ensures
        password@.len() <= LONGEST_PASSWORD ==> res is Ok,
        res matches Ok(stored) ==> hash_of(password@, stored@),
        res matches Err(e) ==> e is PasswordHashError,
{
    let salt = fresh_salt();
    let res = hash_with_salt(password, salt.as_str());
    assert(res matches Ok(stored) ==> hash_under(password@, salt@, stored@));
    res
}

/// Checks `password` against the stored string `password_hash`. A mismatch is
/// `Ok(false)`, never an error, and so is a stored string that asks for a
/// number of lanes at which `argon2` overflows; a stored string that does
/// not parse is `PasswordHashError`.
pub fn verify_password(password: &str, password_hash: &str) -> (res: Result<bool, AppError>)
    ensures
        match check(password@, password_hash@) {
            Some(valid) => res matches Ok(answer) && answer == valid,
            None => res matches Err(e) && e is PasswordHashError,
        },
{
    let checked = match parse_params(password_hash) {
        Ok(params) => if admits(&params) {
            Ok(Some(verify_parsed(password, password_hash)))
        } else {
            Ok(None)
        },
        Err(cause) => Err(cause),
    };
    check_outcome(checked)
}

/// Two hashes under different salts are different strings, whatever the
/// passwords: each string carries its salt.
pub proof fn law_salts_tell_hashes_apart(
    first_password: Seq<char>,
    first_salt: Seq<char>,
    first: Seq<char>,
    second_password: Seq<char>,
    second_salt: Seq<char>,
    second: Seq<char>,
)
    requires
        hash_under(first_password, first_salt, first),
        hash_under(second_password, second_salt, second),
        first_salt != second_salt,
    ensures
        first != second,
{
    if first == second {
        let head = argon2id_header();
        let a = head + first_salt + seq!['$'];
        let b = head + second_salt + seq!['$'];
        let k = head.len() as int;
        if first_salt.len() == second_salt.len() {
            assert forall|i: int| 0 <= i < first_salt.len() implies first_salt[i]
                == second_salt[i] by {
                assert(a[k + i] == first[k + i]);
                assert(b[k + i] == first[k + i]);
            }
            assert(first_salt =~= second_salt);
        } else if first_salt.len() < second_salt.len() {
            let at = k + first_salt.len();
            assert(a[at] == first[at]);
            assert(b[at] == first[at]);
            assert(second_salt[at - k] == '$');
        } else {
            let at = k + second_salt.len();
            assert(a[at] == first[at]);
            assert(b[at] == first[at]);
            assert(first_salt[at - k] == '$');
        }
    }
}

/// The same password under the same salt gives the same string.
pub proof fn law_same_salt_same_hash(
    password: Seq<char>,
    salt: Seq<char>,
    first: Seq<char>,
    second: Seq<char>,
)
    requires
        hash_under(password, salt, first),
        hash_under(password, salt, second),
    ensures
        first == second,
{
}

/// Checking a password against a string that was derived from it succeeds.
pub proof fn law_hash_accepts_its_password(password: Seq<char>, stored: Seq<char>)
    requires
        hash_of(password, stored),
    ensures
        check(password, stored) == Some(true),
{
}

} // verus!
