//! The closed set of output formats and how they are named.
use vstd::prelude::*;

verus! {

/// An encoding that the compressor can produce.
#[derive(Clone, Copy, Debug, PartialEq, Eq, Structural)]
pub enum OutputFormat {
    Jpeg,
    Png,
    WebP,
}

/// `c` equals the lower-case ASCII letter or digit `t`, ignoring ASCII case.
pub open spec fn char_matches(c: char, t: char) -> bool {
    c == t || ('A' <= c && c <= 'Z' && c as u32 + 32 == t as u32)
}

/// `s` spells the lower-case word `t`, ignoring ASCII case.
pub open spec fn word_matches(s: Seq<char>, t: Seq<char>) -> bool {
    s.len() == t.len() && forall|i: int| 0 <= i < s.len() ==> char_matches(#[trigger] s[i], t[i])
}

/// The lower-case name of each format, which is also its file extension.
pub open spec fn format_name(f: OutputFormat) -> Seq<char> {
    match f {
        OutputFormat::Jpeg => seq!['j', 'p', 'e', 'g'],
        OutputFormat::Png => seq!['p', 'n', 'g'],
        OutputFormat::WebP => seq!['w', 'e', 'b', 'p'],
    }
}

/// The format that `s` names, case-insensitively, if any.
pub open spec fn format_named(s: Seq<char>) -> Option<OutputFormat> {
    if word_matches(s, format_name(OutputFormat::Jpeg)) {
        Some(OutputFormat::Jpeg)
    } else if word_matches(s, format_name(OutputFormat::Png)) {
        Some(OutputFormat::Png)
    } else if word_matches(s, format_name(OutputFormat::WebP)) {
        Some(OutputFormat::WebP)
    } else {
        None
    }
}

impl OutputFormat {
    /// The lower-case name of the format, which is also its file extension.
    pub fn name(self) -> (r: String)
        ensures
            r@ == format_name(self),
    {
        match self {
            OutputFormat::Jpeg => {
                proof {
                    reveal_strlit("jpeg");
                }
                String::from_str("jpeg")
            },
            OutputFormat::Png => {
                proof {
                    reveal_strlit("png");
                }
                String::from_str("png")
            },
            OutputFormat::WebP => {
                proof {
                    reveal_strlit("webp");
                }
                String::from_str("webp")
            },
        }
    }
}

/// Whether `s` spells the lower-case word `t`, ignoring ASCII case.
fn word_matches_exec(s: &str, t: &str) -> (r: bool)
    ensures
        r == word_matches(s@, t@),
{
    let n = s.unicode_len();
    if n != t.unicode_len() {
        return false;
    }
    let mut i: usize = 0;
    while i < n
        invariant
            n == s@.len(),
            n == t@.len(),
            0 <= i <= n,
            forall|j: int| 0 <= j < i ==> char_matches(#[trigger] s@[j], t@[j]),
        decreases n - i,
    {
        let c = s.get_char(i);
        let d = t.get_char(i);
        let ok = c == d || ('A' <= c && c <= 'Z' && c as u32 + 32 == d as u32);
        if !ok {
            return false;
        }
        i = i + 1;
    }
    true
}

/// Reads a format name, ignoring ASCII case: `jpeg`, `png` or `webp`.
pub fn parse_format(s: &str) -> (r: Option<OutputFormat>)
    ensures
        r == format_named(s@),
{
    proof {
        reveal_strlit("jpeg");
        reveal_strlit("png");
        reveal_strlit("webp");
        assert("jpeg"@ =~= format_name(OutputFormat::Jpeg));
        assert("png"@ =~= format_name(OutputFormat::Png));
        assert("webp"@ =~= format_name(OutputFormat::WebP));
    }
    if word_matches_exec(s, "jpeg") {
        Some(OutputFormat::Jpeg)
    } else if word_matches_exec(s, "png") {
        Some(OutputFormat::Png)
    } else if word_matches_exec(s, "webp") {
        Some(OutputFormat::WebP)
    } else {
        None
    }
}

} // verus!
