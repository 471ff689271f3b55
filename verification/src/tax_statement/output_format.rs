//! The format of a written statement, chosen by the output file's extension.
use vstd::prelude::*;

verus! {

/// What `std::path::Path::extension` gives for a path: the text after the last `.` of its file
/// name, where there is one.
pub uninterp spec fn path_extension(path: Seq<char>) -> Option<Seq<char>>;

/// `std::path::Path::extension`, as text.
#[verifier::external_body]
fn extension_of(path: &str) -> (r: Option<String>)
    ensures
        r matches Some(e) ==> path_extension(path@) == Some(e@),
        r is None <==> path_extension(path@) is None,
{
    std::path::Path::new(path).extension().and_then(|e| e.to_str()).map(|e| e.to_string())
}

pub open spec fn ascii_lower(c: char) -> char {
    if 'A' <= c && c <= 'Z' {
        ((c as u32) + 32) as char
    } else {
        c
    }
}

/// Whether `s`, with ASCII letters lowered, is `lower`.
pub open spec fn equals_ignoring_ascii_case(s: Seq<char>, lower: Seq<char>) -> bool {
    s.len() == lower.len() && forall|i: int| 0 <= i < s.len() ==> #[trigger] ascii_lower(s[i]) == lower[i]
}

fn lowered_equals(s: &str, lower: &str) -> (r: bool)
    ensures
        r == equals_ignoring_ascii_case(s@, lower@),
{
    let n = s.unicode_len();
    if n != lower.unicode_len() {
        return false;
    }
    let mut i: usize = 0;
    while i < n
        invariant
            n == s@.len(),
            n == lower@.len(),
            i <= n,
            forall|j: int| 0 <= j < i ==> #[trigger] ascii_lower(s@[j]) == lower@[j],
        decreases n - i,
    {
        let c = s.get_char(i);
        let l = if 'A' <= c && c <= 'Z' {
            ((c as u32) + 32) as u8 as char
        } else {
            c
        };
        assert(l == ascii_lower(c));
        if l != lower.get_char(i) {
            return false;
        }
        i = i + 1;
    }
    true
}

#[derive(Clone, Copy, Debug, PartialEq, Eq, Structural)]
pub enum OutputFormat {
    Csv,
    Html,
}

/// `.html` or `.htm`, in any case, selects the printable report; anything else the CSV.
pub open spec fn format_of(extension: Option<Seq<char>>) -> OutputFormat {
    match extension {
        Some(e) => if equals_ignoring_ascii_case(e, "html"@) || equals_ignoring_ascii_case(e, "htm"@) {
            OutputFormat::Html
        } else {
            OutputFormat::Csv
        },
        None => OutputFormat::Csv,
    }
}

impl OutputFormat {
    /// The format an output path selects by its extension.
    pub fn from_path(path: &str) -> (r: OutputFormat)
        ensures
            r == format_of(path_extension(path@)),
    {
        match extension_of(path) {
            Some(e) => if lowered_equals(e.as_str(), "html") || lowered_equals(e.as_str(), "htm") {
                OutputFormat::Html
            } else {
                OutputFormat::Csv
            },
            None => OutputFormat::Csv,
        }
    }

    pub fn description(self) -> (r: &'static str)
        ensures
            r@ == (match self {
                OutputFormat::Csv => "statement (CSV)"@,
                OutputFormat::Html => "report (HTML)"@,
            }),
    {
        match self {
            OutputFormat::Csv => "statement (CSV)",
            OutputFormat::Html => "report (HTML)",
        }
    }
}

} // verus!
