//! Trusted conversions between `String`/`&str` and `Vec<char>`.
//!
//! The renderers in this crate build their output as `Vec<char>`, whose view
//! is the same `Seq<char>` that `String` and `&str` use; these two helpers
//! move between the representations without changing the character sequence.

use vstd::prelude::*;

verus! {

/// Relies on `str::chars`: the iterator yields exactly the characters of the
/// string, in order.
#[verifier::external_body]
pub fn str_chars(s: &str) -> (r: Vec<char>)
    ensures
        r@ == s@,
{
    s.chars().collect()
}

/// Relies on `String`'s `FromIterator<char>` impl: collecting characters
/// builds the string holding exactly those characters, in order.
#[verifier::external_body]
pub fn chars_to_string(v: &Vec<char>) -> (r: String)
    ensures
        r@ == v@,
{
    v.iter().collect()
}

/// Relies on `str`'s `PartialEq` impl: two string slices compare equal
/// exactly when they hold the same characters.
#[verifier::external_body]
pub fn str_eq(a: &str, b: &str) -> (r: bool)
    ensures
        r <==> a@ == b@,
{
    a == b
}

/// Appends the characters of `s` to `out`.
pub fn push_str_chars(out: &mut Vec<char>, s: &str)
    ensures
        final(out)@ == old(out)@ + s@,
{
    let mut cs = str_chars(s);
    out.append(&mut cs);
}

/// Whether `n` occurs as a contiguous subsequence of `h`.
pub open spec fn contains_seq(h: Seq<char>, n: Seq<char>) -> bool {
    exists|j: int| 0 <= j && j + n.len() <= h.len() && #[trigger] h.subrange(j, j + n.len() as int)
        == n
}

fn matches_at(h: &Vec<char>, n: &Vec<char>, j: usize) -> (r: bool)
    requires
        j + n@.len() <= h@.len(),
    ensures
        r == (h@.subrange(j as int, j + n@.len()) == n@),
{
    let hlen: usize = h.len();
    let mut t: usize = 0;
    while t < n.len()
        invariant
            t <= n@.len(),
            hlen == h@.len(),
            j + n@.len() <= h@.len(),
            forall|u: int| 0 <= u < t ==> h@[j + u] == n@[u],
        decreases n@.len() - t,
    {
        if h[j + t] != n[t] {
            proof {
                assert(h@.subrange(j as int, j + n@.len())[t as int] == h@[j + t]);
            }
            return false;
        }
        t = t + 1;
    }
    proof {
        assert(h@.subrange(j as int, j + n@.len()) =~= n@);
    }
    true
}

/// Naive substring search over characters.
pub fn contains_chars(h: &Vec<char>, n: &Vec<char>) -> (r: bool)
    ensures
        r == contains_seq(h@, n@),
{
    if n.len() > h.len() {
        return false;
    }
    if n.len() == 0 {
        proof {
            assert(h@.subrange(0, 0 + n@.len() as int) =~= n@);
        }
        return true;
    }
    let last: usize = h.len() - n.len();
    let mut j: usize = 0;
    while j <= last
        invariant
            n@.len() >= 1,
            h@.len() <= usize::MAX,
            last == h@.len() - n@.len(),
            j <= last + 1,
            forall|k: int| 0 <= k < j ==> #[trigger] h@.subrange(k, k + n@.len()) != n@,
        decreases last - j + 1,
    {
        if matches_at(h, n, j) {
            return true;
        }
        j = j + 1;
    }
    proof {
        assert forall|k: int| 0 <= k && k + n@.len() <= h@.len() implies #[trigger] h@.subrange(
            k,
            k + n@.len(),
        ) != n@ by {
            assert(k < j);
        }
    }
    false
}

} // verus!
