use vstd::prelude::*;

verus! {

/// Number of characters in a well-formed identifier of the Record Store.
pub const ID_LENGTH: usize = 24;

/// A hexadecimal digit, in either case.
pub open spec fn is_hex_digit(c: char) -> bool {
    ('0' <= c && c <= '9') || ('a' <= c && c <= 'f') || ('A' <= c && c <= 'F')
}

/// The Record Store's identifier scheme: a hexadecimal string of exactly
/// `ID_LENGTH` characters. The orchestration consults this predicate as the
/// store's own notion of a well-formed identifier; it never invents one.
pub open spec fn valid_id(s: Seq<char>) -> bool {
    s.len() == ID_LENGTH && (forall|i: int| 0 <= i < s.len() ==> is_hex_digit(#[trigger] s[i]))
}

/// Decides whether `id` is well formed under the store's identifier scheme.
pub fn is_well_formed_id(id: &str) -> (r: bool)
    ensures
        r == valid_id(id@),
{
    let n = id.unicode_len();
    if n != ID_LENGTH {
        return false;
    }
    let mut i: usize = 0;
    while i < n
        invariant
            n == id@.len(),
            n == ID_LENGTH,
            i <= n,
            forall|j: int| 0 <= j < i ==> is_hex_digit(#[trigger] id@[j]),
        decreases n - i,
    {
        let c = id.get_char(i);
        let hex = ('0' <= c && c <= '9') || ('a' <= c && c <= 'f') || ('A' <= c && c <= 'F');
        if !hex {
            return false;
        }
        i = i + 1;
    }
    true
}

} // verus!
