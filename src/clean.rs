use vstd::prelude::*;

use crate::text::push_char;

verus! {

/// Whether `c` is one of the punctuation marks that `strip_punctuation`
/// removes: `! . ` ; * , ? / \`.
pub open spec fn is_stripped(c: char) -> bool {
    c == '!' || c == '.' || c == '`' || c == ';' || c == '*' || c == ',' || c == '?' || c == '/'
        || c == '\\'
}

/// `s` without the characters that `is_stripped` names.
pub open spec fn stripped(s: Seq<char>) -> Seq<char> {
    s.filter(|c: char| !is_stripped(c))
}

/// The characters of `s` in order, without the punctuation marks
/// `! . ` ; * , ? / \`.
pub fn strip_punctuation(s: &str) -> (r: String)
    ensures
        r@ == stripped(s@),
{
    let n = s.unicode_len();
    let mut out = String::new();
    let mut i: usize = 0;
    while i < n
        invariant
            n == s@.len(),
            i <= n,
            out@ == stripped(s@.take(i as int)),
        decreases n - i,
    {
        let c = s.get_char(i);
        if !(c == '!' || c == '.' || c == '`' || c == ';' || c == '*' || c == ',' || c == '?' || c
            == '/' || c == '\\') {
            push_char(&mut out, c);
        }
        proof {
            reveal(Seq::filter);
            assert(s@.take(i + 1).drop_last() =~= s@.take(i as int));
        }
        i += 1;
    }
    assert(s@.take(n as int) =~= s@);
    out
}

} // verus!
