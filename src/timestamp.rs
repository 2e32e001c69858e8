//! Order of stored instants. Instants are stored as text in a sortable form,
//! so the store and this library compare them as text, character by character.

use vstd::prelude::*;
use vstd::string::*;

verus! {

/// `a` comes after `b` in text order, looking from position `i` on, where the
/// two agree before `i`.
pub open spec fn later_from(a: Seq<char>, b: Seq<char>, i: int) -> bool
    decreases a.len() - i,
{
    if i < 0 || i >= a.len() {
        false
    } else if i >= b.len() {
        true
    } else if a[i] != b[i] {
        (a[i] as u32) > (b[i] as u32)
    } else {
        later_from(a, b, i + 1)
    }
}

/// `a` comes strictly after `b` in text order: at the first position where
/// they differ `a` holds the greater character, or `b` is a proper prefix of `a`.
pub open spec fn later_text(a: Seq<char>, b: Seq<char>) -> bool {
    later_from(a, b, 0)
}

/// Whether `a` comes strictly after `b` in text order.
pub fn is_later(a: &str, b: &str) -> (r: bool)
    ensures
        r == later_text(a@, b@),
{
    let la = a.unicode_len();
    let lb = b.unicode_len();
    let mut i: usize = 0;
    while i < la && i < lb
        invariant
            la == a@.len(),
            lb == b@.len(),
            i <= la,
            i <= lb,
            later_from(a@, b@, 0) == later_from(a@, b@, i as int),
        decreases la - i,
    {
        let ca = a.get_char(i);
        let cb = b.get_char(i);
        if ca != cb {
            return (ca as u32) > (cb as u32);
        }
        i = i + 1;
    }
    la > lb
}

} // verus!
