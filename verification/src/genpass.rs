//! Random passwords of letters and digits.

use rand::Rng;
use vstd::prelude::*;

verus! {

/// Whether `c` is one of the sixty-two characters a-z, A-Z and 0-9.
pub open spec fn is_alphanumeric(c: char) -> bool {
    ||| 'a' <= c <= 'z'
    ||| 'A' <= c <= 'Z'
    ||| '0' <= c <= '9'
}

/// Draws one byte from `rand`'s `Alphanumeric` distribution with the thread's
/// generator. Claimed of every draw: the byte is an ASCII letter or digit.
#[verifier::external_body]
fn sample_alphanumeric() -> (byte: u8)
    ensures
        is_alphanumeric(byte as char),
{
    rand::thread_rng().sample(rand::distributions::Alphanumeric)
}

/// Appends `c` to `text`, by `String::push`.
#[verifier::external_body]
fn push_char(text: &mut String, c: char)
    ensures
        final(text)@ == old(text)@.push(c),
{
    text.push(c)
}

/// A random password of `length` characters, each a letter or a digit.
pub fn generate_password(length: u8) -> (password: String)
    ensures
        password@.len() == length,
        forall|i: int| 0 <= i < length ==> is_alphanumeric(#[trigger] password@[i]),
{
    let mut password = String::new();
    let mut drawn: u8 = 0;
    while drawn < length
        invariant
            drawn <= length,
            password@.len() == drawn,
            forall|i: int| 0 <= i < drawn ==> is_alphanumeric(#[trigger] password@[i]),
        decreases length - drawn,
    {
        let byte = sample_alphanumeric();
        push_char(&mut password, byte as char);
        drawn += 1;
    }
    password
}

} // verus!
