//! Where the compressed copy of an input file is written.
use vstd::prelude::*;

use crate::format::{format_name, OutputFormat};

verus! {

/// The text that stands in for each `.` of the input path.
pub open spec fn dot_replacement(f: OutputFormat) -> Seq<char> {
    seq!['_', 'c', 'o', 'm', 'p', 'r', 'e', 's', 's', 'e', 'd', '.'] + format_name(f)
}

/// `s` with every `.` replaced by `rep`, all other characters kept in order.
pub open spec fn replace_dots(s: Seq<char>, rep: Seq<char>) -> Seq<char>
    decreases s.len(),
{
    if s.len() == 0 {
        Seq::empty()
    } else {
        let piece = if s.last() == '.' { rep } else { seq![s.last()] };
        replace_dots(s.drop_last(), rep) + piece
    }
}

/// The text that stands in for each `.` of the input path.
fn replacement(format: OutputFormat) -> (r: String)
    ensures
        r@ == dot_replacement(format),
{
    proof {
        reveal_strlit("_compressed.");
    }
    let mut r = String::from_str("_compressed.");
    let name = format.name();
    r.append(name.as_str());
    assert(r@ =~= dot_replacement(format));
    r
}

/// The path of the compressed copy: every `.` of `input` becomes
/// `_compressed.` followed by the format's name, so `photo.png` turned into
/// JPEG is written to `photo_compressed.jpegpng`. Dots in directory names are
/// replaced too.
pub fn derive_output_path(input: &str, format: OutputFormat) -> (r: String)
    ensures
        r@ == replace_dots(input@, dot_replacement(format)),
{
    let rep = replacement(format);
    let n = input.unicode_len();
    let mut r = String::new();
    let mut i: usize = 0;
    while i < n
        invariant
            n == input@.len(),
            0 <= i <= n,
            rep@ == dot_replacement(format),
            r@ == replace_dots(input@.subrange(0, i as int), rep@),
        decreases n - i,
    {
        let c = input.get_char(i);
        let ghost prefix = input@.subrange(0, i + 1);
        assert(prefix.drop_last() =~= input@.subrange(0, i as int));
        if c == '.' {
            r.append(rep.as_str());
        } else {
            let one = input.substring_char(i, i + 1);
            assert(one@ =~= seq![c]);
            r.append(one);
        }
        i = i + 1;
    }
    assert(input@.subrange(0, n as int) =~= input@);
    r
}

} // verus!
