//! Character-level helpers over message text, viewed as `Seq<char>`.

use vstd::prelude::*;

verus! {

/// The code of `c` with an ASCII upper-case letter mapped to its lower-case
/// form; every other character keeps its own code.
pub open spec fn fold_ascii(c: char) -> u32 {
    let n = c as u32;
    if 65 <= n && n <= 90 {
        (n + 32) as u32
    } else {
        n
    }
}

/// `a` and `b` are equal once ASCII letters are compared without regard to case.
pub open spec fn eq_ignore_ascii_case(a: Seq<char>, b: Seq<char>) -> bool {
    &&& a.len() == b.len()
    &&& forall|i: int| 0 <= i < a.len() ==> #[trigger] fold_ascii(a[i]) == fold_ascii(b[i])
}

/// Compares two characters as `fold_ascii` does.
pub fn chars_eq_ignore_ascii_case(a: char, b: char) -> (r: bool)
    ensures
        r == (fold_ascii(a) == fold_ascii(b)),
{
    let x = a as u32;
    let y = b as u32;
    let fx: u32 = if 65 <= x && x <= 90 { x + 32 } else { x };
    let fy: u32 = if 65 <= y && y <= 90 { y + 32 } else { y };
    fx == fy
}

/// Whether `a` and `b` are equal without regard to the case of ASCII letters.
pub fn str_eq_ignore_ascii_case(a: &str, b: &str) -> (r: bool)
    ensures
        r == eq_ignore_ascii_case(a@, b@),
{
    let n = a.unicode_len();
    if n != b.unicode_len() {
        return false;
    }
    let mut i: usize = 0;
    while i < n
        invariant
            n == a@.len(),
            n == b@.len(),
            i <= n,
            forall|j: int| 0 <= j < i ==> #[trigger] fold_ascii(a@[j]) == fold_ascii(b@[j]),
        decreases n - i,
    {
        if !chars_eq_ignore_ascii_case(a.get_char(i), b.get_char(i)) {
            return false;
        }
        i = i + 1;
    }
    true
}

} // verus!
