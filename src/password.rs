use vstd::prelude::*;

use crate::text::push_char;

verus! {

/// Draws a value of `T` from the thread-local generator of `rand::random`.
/// Nothing is known of the value drawn.
pub assume_specification<T>[ rand::random::<T> ]() -> (r: T)
    where
        rand::distributions::Standard: rand::distributions::Distribution<T>,
;

/// The number of characters in the range `'A'..'z'`.
pub const ALPHABET_LEN: usize = 57;

/// The character at position `k` of the range `'A'..'z'`, where `k < 57`.
pub open spec fn alphabet_char(k: nat) -> char {
    ((65 + k) as u8) as char
}

/// Whether `c` lies in the range `'A'..'z'`.
pub open spec fn in_alphabet(c: char) -> bool {
    65 <= (c as u32) && (c as u32) < 122
}

/// The password character that the random number `r` selects: the one at
/// position `r % 57` of the range `'A'..'z'`.
pub fn password_char(r: usize) -> (c: char)
    ensures
        c == alphabet_char((r % 57) as nat),
        in_alphabet(c),
{
    let k: u8 = (r % ALPHABET_LEN) as u8;
    (65 + k) as char
}

/// A random password of `n` characters, each from the range `'A'..'z'`.
pub fn generate_password(n: usize) -> (r: String)
    ensures
        r@.len() == n,
        forall|i: int| 0 <= i < n ==> in_alphabet(#[trigger] r@[i]),
{
    let mut s = String::new();
    let mut i: usize = 0;
    while i < n
        invariant
            i <= n,
            s@.len() == i,
            forall|j: int| 0 <= j < i ==> in_alphabet(#[trigger] s@[j]),
        decreases n - i,
    {
        let r: usize = rand::random::<usize>();
        push_char(&mut s, password_char(r));
        i += 1;
    }
    s
}

} // verus!
