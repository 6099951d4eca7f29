//! The identifiers under which lobbies are registered: a token, written out
//! in decimal. Two tokens never give the same identifier, so identifiers
//! collide only where tokens do; a token drawn at random out of all the
//! 64-bit numbers makes that as good as impossible.

use vstd::prelude::*;

use crate::random::random_token;

verus! {

/// `String::push` of std appends the character to the end of the string.
pub assume_specification[ String::push ](text: &mut String, c: char)
    ensures
        final(text)@ == old(text)@.push(c),
;

/// The character that stands for the digit `d`; meant for `d < 10`.
pub open spec fn digit_char(d: nat) -> char {
    if d == 0 {
        '0'
    } else if d == 1 {
        '1'
    } else if d == 2 {
        '2'
    } else if d == 3 {
        '3'
    } else if d == 4 {
        '4'
    } else if d == 5 {
        '5'
    } else if d == 6 {
        '6'
    } else if d == 7 {
        '7'
    } else if d == 8 {
        '8'
    } else {
        '9'
    }
}

/// The number `n` written in decimal, without leading zeros.
pub open spec fn decimal(n: nat) -> Seq<char>
    decreases n,
{
    if n < 10 {
        seq![digit_char(n)]
    } else {
        decimal(n / 10).push(digit_char(n % 10))
    }
}

/// The identifier that belongs to `token`.
pub open spec fn spec_lobby_id(token: u64) -> Seq<char> {
    decimal(token as nat)
}

proof fn lemma_decimal_has_digits(n: nat)
    ensures
        decimal(n).len() >= 1,
        n >= 10 ==> decimal(n).len() >= 2,
    decreases n,
{
    if n >= 10 {
        lemma_decimal_has_digits(n / 10);
    }
}

/// Two numbers that are written alike in decimal are the same number.
pub proof fn lemma_decimal_is_one_to_one(a: nat, b: nat)
    requires
        decimal(a) == decimal(b),
    ensures
        a == b,
    decreases a,
{
    lemma_decimal_has_digits(a);
    lemma_decimal_has_digits(b);
    if a < 10 {
        assert(decimal(a)[0] == digit_char(a));
        assert(decimal(b)[0] == digit_char(b));
    } else {
        let front_a = decimal(a / 10);
        let front_b = decimal(b / 10);
        assert(decimal(a).drop_last() =~= front_a);
        assert(decimal(b).drop_last() =~= front_b);
        assert(decimal(a).last() == digit_char(a % 10));
        assert(decimal(b).last() == digit_char(b % 10));
        lemma_decimal_is_one_to_one(a / 10, b / 10);
    }
}

/// Two different tokens have different identifiers.
pub proof fn lemma_lobby_ids_differ(a: u64, b: u64)
    requires
        a != b,
    ensures
        spec_lobby_id(a) != spec_lobby_id(b),
{
    if spec_lobby_id(a) == spec_lobby_id(b) {
        lemma_decimal_is_one_to_one(a as nat, b as nat);
    }
}

fn digit(d: u64) -> (c: char)
    requires
        d < 10,
    ensures
        c == digit_char(d as nat),
{
    match d {
        0 => '0',
        1 => '1',
        2 => '2',
        3 => '3',
        4 => '4',
        5 => '5',
        6 => '6',
        7 => '7',
        8 => '8',
        _ => '9',
    }
}

fn push_decimal(text: &mut String, n: u64)
    ensures
        final(text)@ == old(text)@ + decimal(n as nat),
    decreases n,
{
    if n >= 10 {
        push_decimal(text, n / 10);
    }
    let ghost front = text@;
    text.push(digit(n % 10));
    proof {
        if n >= 10 {
            assert(front.push(digit_char((n % 10) as nat)) =~= old(text)@ + decimal(n as nat));
        } else {
            assert(front.push(digit_char(n as nat)) =~= old(text)@ + decimal(n as nat));
        }
    }
}

/// The identifier that belongs to `token`: the token in decimal.
pub fn lobby_id_from(token: u64) -> (id: String)
    ensures
        id@ == spec_lobby_id(token),
{
    let mut id = String::new();
    push_decimal(&mut id, token);
    proof {
        assert(Seq::<char>::empty() + decimal(token as nat) =~= decimal(token as nat));
    }
    id
}

/// A fresh identifier for a new lobby: the identifier of a token drawn at
/// random. Which token is drawn is left open.
pub fn generate_lobby_id() -> (id: String)
    ensures
        exists|token: u64| id@ == #[trigger] spec_lobby_id(token),
{
    let mut rng = rand::thread_rng();
    let token = random_token(&mut rng);
    lobby_id_from(token)
}

} // verus!
