//! Validation of article content before publication: long-form content must
//! not hard line-break its paragraphs with literal backslash-n escapes, and
//! must not contain HTML markup.

use vstd::prelude::*;

verus! {

/// Why a piece of content was rejected.
#[derive(Clone, Copy, PartialEq, Eq, Structural, Debug)]
pub enum ContentError {
    /// The content holds a literal backslash-n: a hard line break escape.
    HardLineBreak,
    /// The content holds HTML markup.
    HtmlMarkup,
}

/// Whether `s` holds the two consecutive characters backslash and `n`: a hard
/// line-break escape written into the text itself.
pub open spec fn has_escaped_line_break(s: Seq<char>) -> bool {
    exists|i: int| 0 <= i && i + 1 < s.len() && #[trigger] s[i] == '\\' && s[i + 1] == 'n'
}

/// Whether the characters of `s` from position `i` to position `j` form a
/// markup span: a `<`, then at least one character none of which is `>`, then
/// a `>`.
pub open spec fn is_markup_span(s: Seq<char>, i: int, j: int) -> bool {
    &&& 0 <= i
    &&& i + 1 < j
    &&& j < s.len()
    &&& s[i] == '<'
    &&& s[j] == '>'
    &&& forall|k: int| i < k < j ==> s[k] != '>'
}

/// Whether `s` holds HTML markup: some span `<`…`>` with a non-empty body.
pub open spec fn has_markup(s: Seq<char>) -> bool {
    exists|i: int, j: int| is_markup_span(s, i, j)
}

/// Relies on regex::Regex::new and regex::Regex::is_match: the fixed pattern
/// `<[^>]+>` matches a haystack exactly when it holds a `<`, then one or more
/// characters other than `>`, then a `>` — that is, a markup span. The
/// pattern is valid, so compiling it cannot fail.
#[verifier::external_body]
fn contains_markup(content: &str) -> (r: bool)
    ensures
        r == has_markup(content@),
{
    let re = regex::Regex::new("<[^>]+>").unwrap();
    re.is_match(content)
}

/// Scans for a literal backslash immediately followed by `n`.
fn contains_escaped_line_break(content: &str) -> (r: bool)
    ensures
        r == has_escaped_line_break(content@),
{
    let n = content.unicode_len();
    if n < 2 {
        return false;
    }
    let mut i: usize = 0;
    while i < n - 1
        invariant
            n == content@.len(),
            2 <= n,
            i <= n,
            forall|k: int| 0 <= k < i ==> !(#[trigger] content@[k] == '\\' && content@[k + 1]
                == 'n'),
        decreases n - i,
    {
        if content.get_char(i) == '\\' && content.get_char(i + 1) == 'n' {
            assert(has_escaped_line_break(content@));
            return true;
        }
        i += 1;
    }
    false
}

/// Validates article content: rejects a hard line-break escape first, then
/// HTML markup, and accepts exactly the content with neither.
pub fn validate_content(content: &String) -> (r: Result<(), ContentError>)
    ensures
        r is Ok <==> !has_escaped_line_break(content@) && !has_markup(content@),
        r == Result::<(), ContentError>::Err(ContentError::HardLineBreak) <==> has_escaped_line_break(content@),
        r == Result::<(), ContentError>::Err(ContentError::HtmlMarkup) <==> !has_escaped_line_break(content@) && has_markup(content@),
{
    if contains_escaped_line_break(content.as_str()) {
        return Err(ContentError::HardLineBreak);
    }
    if contains_markup(content.as_str()) {
        return Err(ContentError::HtmlMarkup);
    }
    Ok(())
}

} // verus!
