//! Superscript and subscript in the text of a manuscript: a word between
//! two carets or two tildes becomes a span of its own.

use crate::bundle::{regex_replace_all, regex_replaced};
use vstd::prelude::*;
use vstd::string::*;

verus! {

/// Whether a pattern matches somewhere in a text, as
/// `regex::Regex::is_match` finds it; nothing where the pattern is not a
/// regular expression.
pub uninterp spec fn regex_matches(text: Seq<char>, pattern: Seq<char>) -> Option<bool>;

/// `regex::Regex::new` on the pattern, then `is_match` on the text: the
/// result is whether the pattern matches somewhere in the text, which is
/// given a name and not spelled out; nothing where the pattern is refused.
#[verifier::external_body]
pub(crate) fn regex_is_match(text: &str, pattern: &str) -> (r: Option<bool>)
    ensures
        r == regex_matches(text@, pattern@),
{
    match regex::Regex::new(pattern) {
        Ok(re) => Some(re.is_match(text)),
        Err(_) => None,
    }
}

/// The pattern of superscript: letters and digits between two carets.
pub open spec fn superscript_pattern() -> Seq<char> {
    "\\^([[:alnum:]]+)\\^"@
}

/// The pattern of subscript: letters and digits between two tildes.
pub open spec fn subscript_pattern() -> Seq<char> {
    "~([[:alnum:]]+)~"@
}

/// Whether a text holds a superscript or a subscript.
pub open spec fn holds_script(text: Seq<char>) -> bool {
    regex_matches(text, superscript_pattern()) == Some(true) || regex_matches(
        text,
        subscript_pattern(),
    ) == Some(true)
}

/// Whether a text holds a superscript or a subscript.
pub fn has_script(text: &str) -> (r: bool)
    ensures
        r == holds_script(text@),
{
    let superscript = match regex_is_match(text, "\\^([[:alnum:]]+)\\^") {
        Some(b) => b,
        None => false,
    };
    let subscript = match regex_is_match(text, "~([[:alnum:]]+)~") {
        Some(b) => b,
        None => false,
    };
    superscript || subscript
}

/// A text with every match of a pattern replaced; the text itself where
/// the pattern is not a regular expression.
pub open spec fn replaced_or_same(
    text: Seq<char>,
    pattern: Seq<char>,
    replacement: Seq<char>,
) -> Seq<char> {
    match regex_replaced(text, pattern, replacement) {
        Some(t) => t,
        None => text,
    }
}

/// A text with its superscripts and subscripts written as spans.
pub open spec fn disambiguated(text: Seq<char>) -> Seq<char> {
    replaced_or_same(
        replaced_or_same(
            text,
            superscript_pattern(),
            "<span class=\"superscript\">${1}</span>"@,
        ),
        subscript_pattern(),
        "<span class=\"subscript\">${1}</span>"@,
    )
}

fn replace(text: String, pattern: &str, replacement: &str) -> (r: String)
    ensures
        r@ == replaced_or_same(text@, pattern@, replacement@),
{
    match regex_replace_all(text.as_str(), pattern, replacement) {
        Some(t) => t,
        None => text,
    }
}

/// Writes the superscripts and subscripts of a text as spans, which the
/// reader of the manuscript then takes as formatting.
pub fn disambiguate_sub_and_superscript(text: &str) -> (r: String)
    ensures
        r@ == disambiguated(text@),
{
    let text = replace(
        String::from_str(text),
        "\\^([[:alnum:]]+)\\^",
        "<span class=\"superscript\">${1}</span>",
    );
    replace(text, "~([[:alnum:]]+)~", "<span class=\"subscript\">${1}</span>")
}

/// What a span of the manuscript stands for.
#[derive(Debug, PartialEq, Eq, Structural, Clone, Copy)]
pub enum CurrentSpan {
    Generic,
    Sans,
    SmallCaps,
    Centred,
    RightAligned,
    Superscript,
    Subscript,
}

} // verus!
