use vstd::arithmetic::div_mod::lemma_fundamental_div_mod_converse;
use vstd::prelude::*;

verus! {

/// The number of distinct values of a machine word: `usize::MAX + 1`.
pub open spec fn word_modulus() -> int {
    usize::MAX as int + 1
}

/// The sum of two machine words in modular arithmetic of the word's width.
pub open spec fn wrapped_sum(a: int, b: int) -> int {
    (a + b) % word_modulus()
}

/// Adds two machine words, wrapping around on overflow.
///
/// Where the mathematical sum fits in a word it is returned exactly;
/// otherwise the result is that sum reduced modulo `usize::MAX + 1`.
pub fn sum(a: usize, b: usize) -> (r: usize)
    ensures
        r as int == wrapped_sum(a as int, b as int),
        a + b <= usize::MAX ==> r == a + b,
        a + b > usize::MAX ==> r as int == a + b - word_modulus(),
{
    proof {
        lemma_wrapped_sum_cases(a, b);
    }
    a.wrapping_add(b)
}

/// The reduction leaves a sum of two words unchanged where it fits in a word,
/// and takes off exactly one modulus where it does not.
pub proof fn lemma_wrapped_sum_cases(a: usize, b: usize)
    ensures
        a + b <= usize::MAX ==> wrapped_sum(a as int, b as int) == a + b,
        a + b > usize::MAX ==> wrapped_sum(a as int, b as int) == a + b - word_modulus(),
{
    let m = word_modulus();
    if a + b <= usize::MAX {
        lemma_fundamental_div_mod_converse(a + b, m, 0, a + b);
    } else {
        lemma_fundamental_div_mod_converse(a + b, m, 1, a + b - m);
    }
}

} // verus!
