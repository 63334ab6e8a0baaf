//! ASCII case-insensitive comparison of id strings: two ids name the
//! same process when they agree character by character once ASCII
//! upper-case letters are folded to lower case.

use vstd::prelude::*;

verus! {

/// The code point of a character with ASCII upper-case letters folded
/// to their lower-case counterparts; every other character is kept.
pub open spec fn fold_cp(c: char) -> int {
    if 'A' <= c && c <= 'Z' {
        c as int + 32
    } else {
        c as int
    }
}

/// Equality of two strings up to ASCII case.
pub open spec fn eq_fold(a: Seq<char>, b: Seq<char>) -> bool {
    &&& a.len() == b.len()
    &&& forall|i: int| 0 <= i < a.len() ==> fold_cp(a[i]) == fold_cp(b[i])
}

/// Folding compares equal in either order.
pub proof fn lemma_eq_fold_symmetric(a: Seq<char>, b: Seq<char>)
    ensures
        eq_fold(a, b) == eq_fold(b, a),
{
}

/// Strings equal up to ASCII case are interchangeable in any further
/// comparison up to ASCII case.
pub proof fn lemma_eq_fold_transitive(a: Seq<char>, b: Seq<char>, c: Seq<char>)
    requires
        eq_fold(a, b),
        eq_fold(b, c),
    ensures
        eq_fold(a, c),
{
}

/// On decimal digits the folding changes nothing, so two digit strings
/// are equal up to ASCII case exactly when they are equal.
pub proof fn lemma_eq_fold_digits(a: Seq<char>, b: Seq<char>)
    requires
        forall|i: int| 0 <= i < a.len() ==> crate::decimal::is_digit(#[trigger] a[i]),
        forall|i: int| 0 <= i < b.len() ==> crate::decimal::is_digit(#[trigger] b[i]),
    ensures
        eq_fold(a, b) == (a == b),
{
    if eq_fold(a, b) {
        assert forall|i: int| 0 <= i < a.len() implies a[i] == b[i] by {
            assert(crate::decimal::is_digit(a[i]));
            assert(crate::decimal::is_digit(b[i]));
            assert(fold_cp(a[i]) == fold_cp(b[i]));
        }
        assert(a =~= b);
    }
}

/// Compare two strings for equality up to ASCII case.
pub fn str_eq_fold(a: &str, b: &str) -> (r: bool)
    ensures
        r == eq_fold(a@, b@),
{
    let la = a.unicode_len();
    let lb = b.unicode_len();
    if la != lb {
        return false;
    }
    let mut i: usize = 0;
    while i < la
        invariant
            la == a@.len(),
            la == b@.len(),
            i <= la,
            forall|j: int| 0 <= j < i ==> fold_cp(a@[j]) == fold_cp(b@[j]),
        decreases la - i,
    {
        let ca = a.get_char(i) as u32;
        let cb = b.get_char(i) as u32;
        let fa = if 65 <= ca && ca <= 90 {
            ca + 32
        } else {
            ca
        };
        let fb = if 65 <= cb && cb <= 90 {
            cb + 32
        } else {
            cb
        };
        if fa != fb {
            assert(fold_cp(a@[i as int]) != fold_cp(b@[i as int]));
            return false;
        }
        assert(fold_cp(a@[i as int]) == fold_cp(b@[i as int]));
        i = i + 1;
    }
    true
}

} // verus!
