//! Code-point level string utilities.
use vstd::prelude::*;

verus! {

/// The characters of `s` in the opposite order.
pub open spec fn reversed(s: Seq<char>) -> Seq<char> {
    Seq::new(s.len(), |i: int| s[s.len() - 1 - i])
}

/// Each character equals its mirror image across the middle of `s`.
pub open spec fn palindrome(s: Seq<char>) -> bool {
    forall|j: int| 0 <= j < s.len() ==> #[trigger] s[j] == s[s.len() - 1 - j]
}

/// Relies on `String`'s `FromIterator<char>`: the string holds the characters in order.
#[verifier::external_body]
fn string_from_chars(cs: &Vec<char>) -> (r: String)
    ensures
        r@ == cs@,
{
    cs.iter().collect()
}

/// The characters of `text`, in order.
fn chars_of(text: &str) -> (r: Vec<char>)
    ensures
        r@ == text@,
{
    broadcast use vstd::string::axiom_spec_iter;

    let mut out: Vec<char> = Vec::new();
    for c in it: text.chars()
        invariant
            it.seq() == text@,
            out@ == text@.take(it.index() as int),
    {
        out.push(c);
    }
    assert(out@ =~= text@);
    out
}

/// Reverses `text` code point by code point (not by grapheme cluster).
pub fn reverse(text: &str) -> (r: String)
    ensures
        r@ == reversed(text@),
{
    let cs = chars_of(text);
    let mut out: Vec<char> = Vec::new();
    let n = cs.len();
    let mut i: usize = n;
    while i > 0
        invariant
            cs@ == text@,
            n == text@.len(),
            i <= n,
            out@ == reversed(text@).take((n - i) as int),
        decreases i,
    {
        i = i - 1;
        out.push(cs[i]);
        assert(out@ =~= reversed(text@).take((n - i) as int));
    }
    assert(out@ =~= reversed(text@));
    string_from_chars(&out)
}

/// Whether `text` reads the same backwards, comparing code points exactly
/// (no case folding, no whitespace normalisation).
pub fn is_palindrome(text: &str) -> (r: bool)
    ensures
        r == palindrome(text@),
{
    let cs = chars_of(text);
    let n = cs.len();
    let mut i: usize = 0;
    while i < n
        invariant
            cs@ == text@,
            n == text@.len(),
            i <= n,
            forall|j: int| 0 <= j < i ==> #[trigger] text@[j] == text@[n - 1 - j],
        decreases n - i,
    {
        if cs[i] != cs[n - 1 - i] {
            return false;
        }
        i = i + 1;
    }
    true
}

/// Reversing twice gives back the original characters.
pub proof fn lemma_reverse_involution(s: Seq<char>)
    ensures
        reversed(reversed(s)) == s,
{
    assert(reversed(reversed(s)) =~= s);
}

/// A text is a palindrome exactly when it equals its own reverse.
pub proof fn lemma_palindrome_iff_equals_reverse(s: Seq<char>)
    ensures
        palindrome(s) <==> (s == reversed(s)),
{
    if palindrome(s) {
        assert(s =~= reversed(s));
    }
    if s == reversed(s) {
        assert forall|j: int| 0 <= j < s.len() implies #[trigger] s[j] == s[s.len() - 1 - j] by {
            assert(reversed(s)[j] == s[s.len() - 1 - j]);
        }
    }
}

} // verus!
