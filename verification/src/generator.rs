//! Random passwords: each character is drawn from the pool by the thread's
//! random number generator.

use crate::charset::{build_pool, in_pool, is_special, lemma_pool_membership, pool_chars};
use crate::error::PassError;
use rand::rngs::ThreadRng;
use rand::seq::IteratorRandom;
use vstd::prelude::*;
use vstd::string::*;

verus! {

/// The handle to the thread-local random number generator of `rand`.
#[verifier::external_type_specification]
#[verifier::external_body]
pub struct ExThreadRng(rand::rngs::ThreadRng);

/// `String::push` appends the one character to the end of the string.
pub assume_specification[ String::push ](s: &mut String, ch: char)
    ensures
        final(s)@ == old(s)@.push(ch),
;

/// Calls `rand::thread_rng`, which hands out the calling thread's generator.
/// Nothing is claimed of the handle. (`rand` aborts the thread if the system
/// cannot seed the generator at its first use.)
#[verifier::external_body]
fn thread_generator() -> ThreadRng {
    rand::thread_rng()
}

/// Calls `rand::seq::IteratorRandom::choose` on the characters of `pool`.
/// Trusted: the call returns `None` exactly when `pool` is empty, and
/// otherwise a character that occurs in `pool`. Which one is left open.
#[verifier::external_body]
fn choose_char(pool: &str, rng: &mut ThreadRng) -> (choice: Option<char>)
    ensures
        choice is None <==> pool@.len() == 0,
        choice is Some ==> pool@.contains(choice->0),
{
    pool.chars().choose(rng)
}

/// Every character of `s` occurs in `pool`.
pub open spec fn drawn_from(s: Seq<char>, pool: Seq<char>) -> bool {
    forall|i: int| 0 <= i < s.len() ==> pool.contains(#[trigger] s[i])
}

/// Every character of `s` belongs to a class that the setting admits.
pub open spec fn all_in_pool(s: Seq<char>, include_specials: bool) -> bool {
    forall|i: int| 0 <= i < s.len() ==> in_pool(#[trigger] s[i], include_specials)
}

/// Adds the outcome of one draw to `password`: the character that was
/// drawn, or nothing where the draw came back empty.
pub fn push_choice(password: &mut String, choice: Option<char>)
    ensures
        final(password)@ == match choice {
            Some(c) => old(password)@.push(c),
            None => old(password)@,
        },
{
    if let Some(c) = choice {
        password.push(c);
    }
}

/// Draws `length` characters from a pool that is not empty.
fn sample(length: u32, pool: &str) -> (password: String)
    requires
        pool@.len() > 0,
    ensures
        password@.len() == length,
        drawn_from(password@, pool@),
{
    let mut rng = thread_generator();
    let mut password = String::new();
    let mut drawn: u32 = 0;
    while drawn < length
        invariant
            drawn <= length,
            pool@.len() > 0,
            password@.len() == drawn,
            drawn_from(password@, pool@),
        decreases length - drawn,
    {
        let choice = choose_char(pool, &mut rng);
        push_choice(&mut password, choice);
        drawn = drawn + 1;
    }
    password
}

/// A password of `length` characters drawn from `pool`. With nothing to
/// draw from, a password of nonzero length is a configuration error.
pub fn generate_from_pool(length: u32, pool: &str) -> (result: Result<String, PassError>)
    ensures
        result is Ok <==> (length == 0 || pool@.len() > 0),
        result is Ok ==> result->Ok_0@.len() == length && drawn_from(result->Ok_0@, pool@),
        result is Err ==> result->Err_0 == PassError::Config,
{
    if length == 0 {
        Ok(String::new())
    } else if pool.is_empty() {
        Err(PassError::Config)
    } else {
        Ok(sample(length, pool))
    }
}

/// A password of exactly `length` characters, each a lowercase letter, an
/// uppercase letter, a digit or, where `include_specials` holds, a special
/// character. Without `include_specials` no special character occurs.
pub fn generate_password(length: u32, include_specials: bool) -> (password: String)
    ensures
        password@.len() == length,
        drawn_from(password@, pool_chars(include_specials)),
        all_in_pool(password@, include_specials),
        !include_specials ==> forall|i: int|
            0 <= i < password@.len() ==> !is_special(#[trigger] password@[i]),
{
    let pool = build_pool(include_specials);
    proof {
        lemma_pool_membership(include_specials);
    }
    sample(length, pool.as_str())
}

} // verus!
