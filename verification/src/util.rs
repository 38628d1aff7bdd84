//! Random room codes.

use vstd::prelude::*;
use rand::rngs::ThreadRng;
use rand::Rng;

verus! {

/// The random-number generator that `rand` keeps for the current thread.
#[verifier::external_type_specification]
#[verifier::external_body]
pub struct ExThreadRng(ThreadRng);

/// An ASCII digit or ASCII letter of either case.
pub open spec fn is_ascii_alphanumeric(b: u8) -> bool {
    (48 <= b <= 57) || (65 <= b <= 90) || (97 <= b <= 122)
}

/// ASCII lower-casing of one byte: `A`..`Z` become `a`..`z`, every other byte
/// stays as it is.
pub open spec fn ascii_lower(b: u8) -> u8 {
    if 65 <= b <= 90 {
        (b + 32) as u8
    } else {
        b
    }
}

/// A character that may appear in a room code: an ASCII digit or a
/// lower-case ASCII letter.
pub open spec fn is_code_char(c: char) -> bool {
    ('0' <= c && c <= '9') || ('a' <= c && c <= 'z')
}

/// `rand::thread_rng`: a handle to the thread's generator. Nothing is
/// claimed of it.
#[verifier::external_body]
fn thread_rng() -> ThreadRng {
    rand::thread_rng()
}

/// `Rng::sample` with `rand::distributions::Alphanumeric`: draws one byte.
/// The crate's source picks it from `A..Z`, `a..z` and `0..9`; which one it
/// picks depends on the generator and is not stated.
#[verifier::external_body]
fn sample_alphanumeric(rng: &mut ThreadRng) -> (b: u8)
    ensures
        is_ascii_alphanumeric(b),
{
    rng.sample(rand::distributions::Alphanumeric)
}

/// `String::push`: appends one character.
#[verifier::external_body]
pub(crate) fn push_char(s: &mut String, c: char)
    ensures
        final(s)@ == old(s)@.push(c),
{
    s.push(c)
}

/// Turns the drawn bytes into the lower-case string of their characters.
pub fn lowercase_alphanumeric(bytes: &Vec<u8>) -> (s: String)
    ensures
        s@ == bytes@.map_values(|b: u8| ascii_lower(b) as char),
{
    let mut s = String::new();
    let mut i: usize = 0;
    while i < bytes.len()
        invariant
            i <= bytes.len(),
            s@ == bytes@.subrange(0, i as int).map_values(|b: u8| ascii_lower(b) as char),
        decreases bytes.len() - i,
    {
        let b: u8 = bytes[i];
        let l: u8 = if 65 <= b && b <= 90 { b + 32 } else { b };
        push_char(&mut s, l as char);
        assert(bytes@.subrange(0, i + 1) =~= bytes@.subrange(0, i as int).push(b));
        i = i + 1;
    }
    assert(bytes@.subrange(0, bytes.len() as int) =~= bytes@);
    s
}

/// A random string of `length` characters, each an ASCII digit or a
/// lower-case ASCII letter.
pub fn generate_random_string(length: usize) -> (s: String)
    ensures
        s@.len() == length,
        forall|i: int| 0 <= i < s@.len() ==> is_code_char(#[trigger] s@[i]),
{
    let mut rng = thread_rng();
    let mut bytes: Vec<u8> = Vec::new();
    let mut i: usize = 0;
    while i < length
        invariant
            i <= length,
            bytes@.len() == i,
            forall|j: int| 0 <= j < i ==> is_ascii_alphanumeric(#[trigger] bytes@[j]),
        decreases length - i,
    {
        let b: u8 = sample_alphanumeric(&mut rng);
        bytes.push(b);
        i = i + 1;
    }
    let s = lowercase_alphanumeric(&bytes);
    assert forall|i: int| 0 <= i < s@.len() implies is_code_char(#[trigger] s@[i]) by {
        let b = bytes@[i];
        assert(is_ascii_alphanumeric(b));
        assert(s@[i] == ascii_lower(b) as char);
    }
    s
}

} // verus!
