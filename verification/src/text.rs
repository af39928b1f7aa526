//! Text helpers: comparison, prefixes and the wide strings that CNG takes.
use vstd::prelude::*;

verus! {

/// Whether two texts are the same.
pub fn same_text(a: &str, b: &str) -> (same: bool)
    ensures
        same == (a@ == b@),
{
    a.to_owned() == b.to_owned()
}

/// Whether `text` starts with `prefix`.
pub fn has_prefix(text: &str, prefix: &str) -> (found: bool)
    ensures
        found == prefix@.is_prefix_of(text@),
{
    let n: usize = prefix.unicode_len();
    if n <= text.unicode_len() {
        same_text(text.substring_char(0, n), prefix)
    } else {
        false
    }
}

/// The zero-terminated UTF-16 code units of an ASCII text.
pub open spec fn wide(text: Seq<char>) -> Seq<u16> {
    text.map_values(|c: char| c as u16).push(0)
}

/// Encodes an ASCII text as a zero-terminated UTF-16 string.
pub fn to_wide(text: &str) -> (units: Vec<u16>)
    requires
        vstd::utf8::is_ascii_chars(text@),
    ensures
        units@ == wide(text@),
{
    let n: usize = text.unicode_len();
    let mut units: Vec<u16> = Vec::new();
    let mut i: usize = 0;
    while i < n
        invariant
            n == text@.len(),
            i <= n,
            vstd::utf8::is_ascii_chars(text@),
            units@ == text@.take(i as int).map_values(|c: char| c as u16),
        decreases n - i,
    {
        let unit: u16 = text.get_ascii(i) as u16;
        units.push(unit);
        i += 1;
    }
    units.push(0);
    assert(text@.take(n as int) =~= text@);
    units
}

/// A wide string holds the code of each character in turn, and a zero at its end.
pub proof fn law_wide_text_ends_with_zero(text: Seq<char>)
    ensures
        wide(text).len() == text.len() + 1,
        forall|i: int| 0 <= i < text.len() ==> #[trigger] wide(text)[i] == text[i] as u16,
        wide(text)[text.len() as int] == 0,
{
}

} // verus!
