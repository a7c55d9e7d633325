//! Escaping text for the two output formats: markup characters for HTML,
//! control characters and typographic marks for LaTeX.

use vstd::prelude::*;

verus! {

/// A text in which every match of one of `patterns` is replaced by the
/// replacement at the index of the pattern, as
/// `aho_corasick::AhoCorasick::replace_all` does it.
pub uninterp spec fn replaced_all(
    text: Seq<char>,
    patterns: Seq<Seq<char>>,
    replacements: Seq<Seq<char>>,
) -> Seq<char>;

/// `aho_corasick::AhoCorasick::new` on the patterns, then `replace_all` on
/// the text: the result is the text with every match of a pattern replaced
/// by the replacement of the same index, which is given a name and not
/// spelled out. The outside function panics unless there is a replacement
/// for every pattern; and an empty pattern matches between any two bytes,
/// where the text cannot always be cut, so every pattern must hold a
/// character.
#[verifier::external_body]
pub(crate) fn replace_all(text: &str, patterns: &Vec<&str>, replacements: &Vec<&str>) -> (r: String)
    requires
        patterns.len() == replacements.len(),
        forall|i: int| 0 <= i < patterns.len() ==> (#[trigger] patterns[i])@.len() > 0,
    ensures
        r@ == replaced_all(text@, patterns.deep_view(), replacements.deep_view()),
{
    aho_corasick::AhoCorasick::new(patterns).replace_all(text, replacements)
}

/// The characters that HTML needs escaped.
pub open spec fn html_targets() -> Seq<Seq<char>> {
    seq!["<"@, ">"@, "&"@, "'"@]
}

/// What stands for each of them.
pub open spec fn html_replacements() -> Seq<Seq<char>> {
    seq!["&lt;"@, "&gt;"@, "&amp;"@, "’"@]
}

/// Every character that HTML needs escaped is a character.
proof fn lemma_html_targets()
    ensures
        forall|i: int| 0 <= i < html_targets().len() ==> (#[trigger] html_targets()[i]).len() > 0,
{
    reveal_strlit("<");
    reveal_strlit(">");
    reveal_strlit("&");
    reveal_strlit("'");
}

/// A text escaped for HTML.
pub open spec fn html_escaped(text: Seq<char>) -> Seq<char> {
    replaced_all(text, html_targets(), html_replacements())
}

/// The characters that LaTeX needs escaped or written out.
pub open spec fn latex_targets() -> Seq<Seq<char>> {
    seq![
        "…"@,
        "–"@,
        "—"@,
        "\u{a0}"@,
        "&"@,
        "%"@,
        "$"@,
        "#"@,
        "_"@,
        "{"@,
        "}"@,
        "["@,
        "]"@,
        "~"@,
        "^"@,
        "\\"@,
    ]
}

/// What stands for each of them.
pub open spec fn latex_replacements() -> Seq<Seq<char>> {
    seq![
        "\\ldots{}"@,
        "--"@,
        "---"@,
        "~"@,
        "\\&"@,
        "\\%"@,
        "\\$"@,
        "\\#"@,
        "\\_"@,
        "\\{"@,
        "\\}"@,
        "{[}"@,
        "{]}"@,
        "\\textasciitilde{}"@,
        "\\textasciicircum{}"@,
        "\\textbackslash{}"@,
    ]
}

/// Every mark that LaTeX needs escaped or written out is a character.
proof fn lemma_latex_targets()
    ensures
        forall|i: int|
            0 <= i < latex_targets().len() ==> (#[trigger] latex_targets()[i]).len() > 0,
{
    reveal_strlit("…");
    reveal_strlit("–");
    reveal_strlit("—");
    reveal_strlit("\u{a0}");
    reveal_strlit("&");
    reveal_strlit("%");
    reveal_strlit("$");
    reveal_strlit("#");
    reveal_strlit("_");
    reveal_strlit("{");
    reveal_strlit("}");
    reveal_strlit("[");
    reveal_strlit("]");
    reveal_strlit("~");
    reveal_strlit("^");
    reveal_strlit("\\");
}

/// A text escaped for LaTeX.
pub open spec fn latex_escaped(text: Seq<char>) -> Seq<char> {
    replaced_all(text, latex_targets(), latex_replacements())
}

/// Escapes a text for HTML.
pub fn escape_to_html(input: &str) -> (r: String)
    ensures
        r@ == html_escaped(input@),
{
    let targets: Vec<&str> = vec!["<", ">", "&", "'"];
    let replacements: Vec<&str> = vec!["&lt;", "&gt;", "&amp;", "’"];
    assert(targets.deep_view() =~= html_targets());
    assert(replacements.deep_view() =~= html_replacements());
    proof {
        lemma_html_targets();
        assert forall|i: int| 0 <= i < targets.len() implies (#[trigger] targets[i])@.len()
            > 0 by {
            assert(targets[i]@ == targets.deep_view()[i]);
            assert(html_targets()[i].len() > 0);
        }
    }
    replace_all(input, &targets, &replacements)
}

/// Escapes a text for LaTeX.
pub fn escape_to_latex(input: &str) -> (r: String)
    ensures
        r@ == latex_escaped(input@),
{
    let targets: Vec<&str> = vec![
        "…",
        "–",
        "—",
        "\u{a0}",
        "&",
        "%",
        "$",
        "#",
        "_",
        "{",
        "}",
        "[",
        "]",
        "~",
        "^",
        "\\",
    ];
    let replacements: Vec<&str> = vec![
        "\\ldots{}",
        "--",
        "---",
        "~",
        "\\&",
        "\\%",
        "\\$",
        "\\#",
        "\\_",
        "\\{",
        "\\}",
        "{[}",
        "{]}",
        "\\textasciitilde{}",
        "\\textasciicircum{}",
        "\\textbackslash{}",
    ];
    assert(targets.deep_view() =~= latex_targets());
    assert(replacements.deep_view() =~= latex_replacements());
    proof {
        lemma_latex_targets();
        assert forall|i: int| 0 <= i < targets.len() implies (#[trigger] targets[i])@.len()
            > 0 by {
            assert(targets[i]@ == targets.deep_view()[i]);
            assert(latex_targets()[i].len() > 0);
        }
    }
    replace_all(input, &targets, &replacements)
}

} // verus!
