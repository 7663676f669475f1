//! Salts: random challenges, written in base 62, of which the server keeps
//! the last few.

use rand::rngs::StdRng;
use rand::Rng;
use std::collections::VecDeque;
use vstd::prelude::*;

verus! {

/// The standard generator of `rand`. Nothing is known of what it holds.
#[verifier::external_type_specification]
#[verifier::external_body]
pub struct ExStdRng(rand::rngs::StdRng);

/// The digit of base 62 with the given value: `0` to `9`, then `A` to `Z`,
/// then `a` to `z`.
pub open spec fn base62_digit(value: nat) -> char {
    if value < 10 {
        (0x30 + value) as u8 as char
    } else if value < 36 {
        (0x41 + value - 10) as u8 as char
    } else {
        (0x61 + value - 36) as u8 as char
    }
}

/// The numeral of a number in base 62, most significant digit first, with
/// no leading zero.
pub open spec fn base62_numeral(number: nat) -> Seq<char>
    decreases number,
{
    if number < 62 {
        seq![base62_digit(number)]
    } else {
        base62_numeral(number / 62).push(base62_digit(number % 62))
    }
}

/// Whether the text is the base 62 numeral of some 128-bit number.
pub open spec fn is_salt(text: Seq<char>) -> bool {
    exists|number: u128| text == base62_numeral(number as nat)
}

/// Draws a 128-bit number with `Rng::gen`. Any number may come.
#[verifier::external_body]
fn random_u128(rng: &mut StdRng) -> (number: u128) {
    rng.gen()
}

/// Writes a number with `base62::encode`, which gives its numeral in base
/// 62 with the digits `0` to `9`, `A` to `Z`, `a` to `z`.
#[verifier::external_body]
fn base62_encode(number: u128) -> (text: String)
    ensures
        text@ == base62_numeral(number as nat),
{
    base62::encode(number)
}

/// The salt that stands for a number.
pub fn salt_of(number: u128) -> (salt: String)
    ensures
        salt@ == base62_numeral(number as nat),
        is_salt(salt@),
{
    base62_encode(number)
}

/// A trait to help generate valid salts for the server.
pub trait SaltExt {
    /// Generate a salt.
    fn salt(&mut self) -> (salt: String)
        ensures
            is_salt(salt@),
    ;
}

impl SaltExt for StdRng {
    fn salt(&mut self) -> (salt: String) {
        let number = random_u128(self);
        salt_of(number)
    }
}

/// The salts of a history, oldest first.
pub open spec fn salts_of(history: Seq<String>) -> Seq<Seq<char>> {
    history.map_values(|salt: String| salt@)
}

/// The most recent `capacity` entries of a history, or all of it where it
/// has no more.
pub open spec fn most_recent(history: Seq<Seq<char>>, capacity: nat) -> Seq<Seq<char>> {
    if history.len() <= capacity {
        history
    } else {
        history.skip(history.len() - capacity)
    }
}

/// The history after one more salt was issued.
pub open spec fn issued(history: Seq<Seq<char>>, salt: Seq<char>, capacity: nat) -> Seq<
    Seq<char>,
> {
    most_recent(history.push(salt), capacity)
}

/// The history after several salts were issued, one after another.
pub open spec fn issued_all(history: Seq<Seq<char>>, salts: Seq<Seq<char>>, capacity: nat) -> Seq<
    Seq<char>,
>
    decreases salts.len(),
{
    if salts.len() == 0 {
        history
    } else {
        issued(issued_all(history, salts.drop_last(), capacity), salts.last(), capacity)
    }
}

/// After salts were issued, the history holds the most recent entries of
/// the old history followed by the new salts. Where as many salts were
/// issued as the capacity or more, it holds exactly the last `capacity` of
/// them, oldest first; with a capacity of zero it is empty.
pub proof fn lemma_issued_all(history: Seq<Seq<char>>, salts: Seq<Seq<char>>, capacity: nat)
    requires
        salts.len() > 0 || history.len() <= capacity,
    ensures
        issued_all(history, salts, capacity) == most_recent(history + salts, capacity),
        issued_all(history, salts, capacity).len() <= capacity,
        salts.len() >= capacity ==> issued_all(history, salts, capacity) == salts.skip(
            salts.len() - capacity,
        ),
        capacity == 0 ==> issued_all(history, salts, capacity).len() == 0,
    decreases salts.len(),
{
    if salts.len() == 0 {
        assert(history + salts =~= history);
        if salts.len() >= capacity {
            assert(history =~= salts.skip(salts.len() - capacity));
        }
    } else {
        let front = salts.drop_last();
        let before = issued_all(history, front, capacity);
        if front.len() > 0 {
            lemma_issued_all(history, front, capacity);
        } else {
            assert(history + front =~= history);
        }
        assert(issued(before, salts.last(), capacity) =~= most_recent(history + salts, capacity));
        if salts.len() >= capacity {
            assert(most_recent(history + salts, capacity) =~= salts.skip(salts.len() - capacity));
        }
    }
}

/// Adds a salt to the history and drops the oldest entries until no more
/// than `capacity` are left.
pub fn push_salt(history: &mut VecDeque<String>, salt: String, capacity: usize)
    ensures
        salts_of(final(history)@) == issued(salts_of(old(history)@), salt@, capacity as nat),
{
    let ghost pushed = salts_of(history@).push(salt@);
    history.push_back(salt);
    assert(salts_of(history@) =~= pushed);
    while history.len() > capacity
        invariant
            salts_of(history@).len() <= pushed.len(),
            history@.len() >= capacity || history@.len() == pushed.len(),
            salts_of(history@) == pushed.skip(pushed.len() - salts_of(history@).len()),
        decreases history@.len(),
    {
        let ghost before = salts_of(history@);
        let _ = history.pop_front();
        assert(salts_of(history@) =~= before.skip(1));
        assert(salts_of(history@) =~= pushed.skip(pushed.len() - salts_of(history@).len()));
    }
    assert(salts_of(history@) =~= issued(salts_of(old(history)@), salt@, capacity as nat));
}

} // verus!
