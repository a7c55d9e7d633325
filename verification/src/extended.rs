//! The tokens of a book from the plain tokens of a manuscript: the plain
//! tokens are read in chunks, what is set apart in a chunk is read again
//! by the token source, and every chunk is then read for quotations and
//! spans.

use crate::assembler::tokenized;
use crate::chunks::{chunked, chunks_of, text_piece, ChunkView, Piece, PieceView};
use crate::events::{Event, EventView, Tag, TagView};
use crate::scripts::{
    disambiguate_sub_and_superscript, disambiguated, has_script, CurrentSpan,
};
use crate::seqs::group_views;
use crate::spans::{finish_buffer, finished};
use crate::text::{chars_of, owned, string_of};
use vstd::prelude::*;
use vstd::string::*;

verus! {

broadcast use group_views;

/// The character that a text begins with, where that is a space or a line
/// break: the token source drops it, and it is put back.
pub open spec fn reinserted(text: Seq<char>) -> Option<char> {
    if text.len() > 0 && (text[0] == ' ' || text[0] == '\n') {
        Some(text[0])
    } else {
        None
    }
}

/// Tokens with a character put back in front of them as a text.
pub open spec fn put_back(tokens: Seq<EventView>, reinsert: Option<char>) -> Seq<EventView> {
    match reinsert {
        Some(c) => seq![EventView::Text(seq![c])] + tokens,
        None => tokens,
    }
}

/// What is handed to the token source for a text with superscript or
/// subscript, which are written as spans in it, and the character that is
/// to be put back in front of its tokens.
pub fn script_split(text: &str) -> (r: (String, Option<char>))
    ensures
        r.0@ == disambiguated(text@),
        r.1 == reinserted(disambiguated(text@)),
{
    let d = disambiguate_sub_and_superscript(text);
    let chars = chars_of(d.as_str());
    let reinsert = if chars.len() > 0 && (chars[0] == ' ' || chars[0] == '\n') {
        Some(chars[0])
    } else {
        None
    };
    (d, reinsert)
}

/// Puts a character back in front of tokens as a text.
pub fn with_reinserted(tokens: Vec<Event>, reinsert: Option<char>) -> (r: Vec<Event>)
    ensures
        r.deep_view() == put_back(tokens.deep_view(), reinsert),
{
    match reinsert {
        Some(c) => {
            let mut one: Vec<char> = Vec::new();
            one.push(c);
            let mut out: Vec<Event> = Vec::new();
            out.push(Event::Text(string_of(&one)));
            let mut tokens = tokens;
            let ghost behind = tokens.deep_view();
            assert(one@ =~= seq![c]);
            assert(out.deep_view() =~= seq![EventView::Text(seq![c])]);
            out.append(&mut tokens);
            assert(out.deep_view() =~= seq![EventView::Text(seq![c])] + behind);
            out
        },
        None => tokens,
    }
}

/// Whether `answer` is what a text with superscript or subscript comes to
/// when the token source reads it again.
pub open spec fn answers_scripts<F: Fn(&str) -> Vec<Event>>(
    inline: &F,
    text: Seq<char>,
    answer: Seq<EventView>,
) -> bool {
    exists|tokens: Vec<Event>| #[trigger]
        tokenized(*inline, disambiguated(text), tokens) && answer == put_back(
            tokens.deep_view(),
            reinserted(disambiguated(text)),
        )
}

/// The tokens of the first `n` pieces, with an answer in the place of
/// each piece that was read again.
pub open spec fn resolved(pieces: Seq<PieceView>, answers: Seq<Seq<EventView>>, n: int) -> Seq<
    EventView,
>
    decreases n,
{
    if n <= 0 {
        Seq::empty()
    } else {
        resolved(pieces, answers, n - 1) + (match pieces[n - 1] {
            PieceView::Token(e) => seq![e],
            _ => answers[n - 1],
        })
    }
}

/// The tokens of a footnote as pieces: a text that holds superscript or
/// subscript is set apart.
pub open spec fn footnote_pieces(tokens: Seq<EventView>) -> Seq<PieceView> {
    Seq::new(
        tokens.len(),
        |k: int|
            match tokens[k] {
                EventView::Text(t) => text_piece(t),
                e => PieceView::Token(e),
            },
    )
}

/// Whether the answers are what the texts among the pieces come to when
/// the token source reads them again.
pub open spec fn scripts_answered<F: Fn(&str) -> Vec<Event>>(
    inline: &F,
    pieces: Seq<PieceView>,
    answers: Seq<Seq<EventView>>,
) -> bool {
    &&& answers.len() == pieces.len()
    &&& forall|j: int|
        0 <= j < pieces.len() && (#[trigger] pieces[j]) is Scripts ==> answers_scripts(
            inline,
            pieces[j]->Scripts_0,
            answers[j],
        )
}

/// Whether `answer` is what the indented text of a footnote comes to when
/// the token source reads it again, and then the texts in it.
pub open spec fn answers_footnote<F: Fn(&str) -> Vec<Event>, G: Fn(&str) -> Vec<Event>>(
    inline: &F,
    reparse: &G,
    text: Seq<char>,
    answer: Seq<EventView>,
) -> bool {
    exists|tokens: Vec<Event>, answers: Seq<Seq<EventView>>| #[trigger]
        tokenized(*reparse, text, tokens) && #[trigger] scripts_answered(
            inline,
            footnote_pieces(tokens.deep_view()),
            answers,
        ) && answer == resolved(
            footnote_pieces(tokens.deep_view()),
            answers,
            tokens.deep_view().len() as int,
        )
}

/// Whether the answers are what the pieces that were set apart come to
/// when the token source reads them again.
pub open spec fn answered<F: Fn(&str) -> Vec<Event>, G: Fn(&str) -> Vec<Event>>(
    inline: &F,
    reparse: &G,
    pieces: Seq<PieceView>,
    answers: Seq<Seq<EventView>>,
) -> bool {
    &&& scripts_answered(inline, pieces, answers)
    &&& forall|j: int|
        0 <= j < pieces.len() && (#[trigger] pieces[j]) is Footnote ==> answers_footnote(
            inline,
            reparse,
            pieces[j]->Footnote_0,
            answers[j],
        )
}

fn read_scripts<F: Fn(&str) -> Vec<Event>>(inline: &F, text: &str) -> (r: Vec<Event>)
    requires
        forall|s: &str| call_requires(*inline, (s,)),
    ensures
        answers_scripts(inline, text@, r.deep_view()),
{
    let (d, reinsert) = script_split(text);
    let asked = d.as_str();
    let tokens = inline(asked);
    let ghost witness = tokens;
    assert(tokenized(*inline, disambiguated(text@), witness)) by {
        assert(asked@ == disambiguated(text@) && call_ensures(*inline, (asked,), witness));
    }
    with_reinserted(tokens, reinsert)
}

/// Sets apart the texts of a footnote that hold superscript or subscript.
pub fn pieces_of_footnote(tokens: Vec<Event>) -> (r: Vec<Piece>)
    ensures
        r.deep_view() == footnote_pieces(tokens.deep_view()),
{
    let mut out: Vec<Piece> = Vec::new();
    let ghost all = tokens.deep_view();
    let n = tokens.len();
    let mut i: usize = 0;
    while i < n
        invariant
            i <= n,
            n == tokens.len(),
            all == tokens.deep_view(),
            out.deep_view() == footnote_pieces(all).take(i as int),
        decreases n - i,
    {
        let piece = match &tokens[i] {
            Event::Text(t) => {
                if has_script(t.as_str()) {
                    Piece::Scripts(t.clone())
                } else {
                    Piece::Token(Event::Text(t.clone()))
                }
            },
            e => Piece::Token(e.clone()),
        };
        out.push(piece);
        assert(out.deep_view() =~= footnote_pieces(all).take(i + 1));
        i += 1;
    }
    assert(footnote_pieces(all).take(n as int) =~= footnote_pieces(all));
    out
}

fn resolve_scripts<F: Fn(&str) -> Vec<Event>>(inline: &F, pieces: &Vec<Piece>) -> (r: (
    Vec<Event>,
    Ghost<Seq<Seq<EventView>>>,
))
    requires
        forall|s: &str| call_requires(*inline, (s,)),
    ensures
        r.0.deep_view() == resolved(pieces.deep_view(), r.1@, pieces.deep_view().len() as int),
        scripts_answered(inline, pieces.deep_view(), r.1@),
{
    let ghost all = pieces.deep_view();
    let ghost mut answers: Seq<Seq<EventView>> = Seq::empty();
    let mut out: Vec<Event> = Vec::new();
    let n = pieces.len();
    let mut i: usize = 0;
    while i < n
        invariant
            i <= n,
            n == pieces.len(),
            all == pieces.deep_view(),
            forall|s: &str| call_requires(*inline, (s,)),
            answers.len() == i,
            out.deep_view() == resolved(all, answers, i as int),
            forall|j: int|
                0 <= j < i && (#[trigger] all[j]) is Scripts ==> answers_scripts(
                    inline,
                    all[j]->Scripts_0,
                    answers[j],
                ),
        decreases n - i,
    {
        let ghost before = answers;
        let ghost earlier = out.deep_view();
        match &pieces[i] {
            Piece::Token(e) => {
                out.push(e.clone());
                proof {
                    answers = answers.push(Seq::empty());
                }
                assert(out.deep_view() =~= earlier + seq![e.deep_view()]);
            },
            Piece::Scripts(t) => {
                let mut answer = read_scripts(inline, t.as_str());
                proof {
                    answers = answers.push(answer.deep_view());
                }
                let ghost given = answer.deep_view();
                out.append(&mut answer);
                assert(out.deep_view() =~= earlier + given);
            },
            Piece::Footnote(_) => {
                proof {
                    answers = answers.push(Seq::empty());
                }
                assert(out.deep_view() =~= earlier + Seq::<EventView>::empty());
            },
        }
        proof {
            lemma_resolved_prefix(all, before, answers, i as int);
        }
        i += 1;
    }
    (out, Ghost(answers))
}

/// The tokens of the first pieces depend on the answers to the first
/// pieces alone.
pub proof fn lemma_resolved_prefix(
    pieces: Seq<PieceView>,
    a: Seq<Seq<EventView>>,
    b: Seq<Seq<EventView>>,
    n: int,
)
    requires
        0 <= n <= a.len() <= b.len(),
        forall|j: int| 0 <= j < n ==> a[j] == b[j],
    ensures
        resolved(pieces, a, n) == resolved(pieces, b, n),
    decreases n,
{
    if n > 0 {
        lemma_resolved_prefix(pieces, a, b, n - 1);
    }
}

fn read_footnote<F: Fn(&str) -> Vec<Event>, G: Fn(&str) -> Vec<Event>>(
    inline: &F,
    reparse: &G,
    text: &str,
) -> (r: Vec<Event>)
    requires
        forall|s: &str| call_requires(*inline, (s,)),
        forall|s: &str| call_requires(*reparse, (s,)),
    ensures
        answers_footnote(inline, reparse, text@, r.deep_view()),
{
    let tokens = reparse(text);
    let ghost witness = tokens;
    assert(tokenized(*reparse, text@, witness)) by {
        assert(text@ == text@ && call_ensures(*reparse, (text,), witness));
    }
    let pieces = pieces_of_footnote(tokens);
    let (out, Ghost(answers)) = resolve_scripts(inline, &pieces);
    assert(tokenized(*reparse, text@, witness) && scripts_answered(
        inline,
        footnote_pieces(witness.deep_view()),
        answers,
    ) && out.deep_view() == resolved(
        footnote_pieces(witness.deep_view()),
        answers,
        witness.deep_view().len() as int,
    ));
    out
}

fn resolve<F: Fn(&str) -> Vec<Event>, G: Fn(&str) -> Vec<Event>>(
    inline: &F,
    reparse: &G,
    pieces: &Vec<Piece>,
) -> (r: (Vec<Event>, Ghost<Seq<Seq<EventView>>>))
    requires
        forall|s: &str| call_requires(*inline, (s,)),
        forall|s: &str| call_requires(*reparse, (s,)),
    ensures
        r.0.deep_view() == resolved(pieces.deep_view(), r.1@, pieces.deep_view().len() as int),
        answered(inline, reparse, pieces.deep_view(), r.1@),
{
    let ghost all = pieces.deep_view();
    let ghost mut answers: Seq<Seq<EventView>> = Seq::empty();
    let mut out: Vec<Event> = Vec::new();
    let n = pieces.len();
    let mut i: usize = 0;
    while i < n
        invariant
            i <= n,
            n == pieces.len(),
            all == pieces.deep_view(),
            forall|s: &str| call_requires(*inline, (s,)),
            forall|s: &str| call_requires(*reparse, (s,)),
            answers.len() == i,
            out.deep_view() == resolved(all, answers, i as int),
            forall|j: int|
                0 <= j < i && (#[trigger] all[j]) is Scripts ==> answers_scripts(
                    inline,
                    all[j]->Scripts_0,
                    answers[j],
                ),
            forall|j: int|
                0 <= j < i && (#[trigger] all[j]) is Footnote ==> answers_footnote(
                    inline,
                    reparse,
                    all[j]->Footnote_0,
                    answers[j],
                ),
        decreases n - i,
    {
        let ghost before = answers;
        let ghost earlier = out.deep_view();
        match &pieces[i] {
            Piece::Token(e) => {
                out.push(e.clone());
                proof {
                    answers = answers.push(Seq::empty());
                }
                assert(out.deep_view() =~= earlier + seq![e.deep_view()]);
            },
            Piece::Scripts(t) => {
                let mut answer = read_scripts(inline, t.as_str());
                proof {
                    answers = answers.push(answer.deep_view());
                }
                let ghost given = answer.deep_view();
                out.append(&mut answer);
                assert(out.deep_view() =~= earlier + given);
            },
            Piece::Footnote(t) => {
                let mut answer = read_footnote(inline, reparse, t.as_str());
                proof {
                    answers = answers.push(answer.deep_view());
                }
                let ghost given = answer.deep_view();
                out.append(&mut answer);
                assert(out.deep_view() =~= earlier + given);
            },
        }
        proof {
            lemma_resolved_prefix(all, before, answers, i as int);
        }
        i += 1;
    }
    (out, Ghost(answers))
}

/// The tokens of the first `n` chunks as tokens of a book, with the
/// answers of the token source in the places of what was read again, and
/// the spans that are open behind them. A chunk that is handed on as it
/// is stays; any other is read for quotations and spans.
pub open spec fn assembled(
    chunks: Seq<ChunkView>,
    answers: Seq<Seq<Seq<EventView>>>,
    smarten: bool,
    n: int,
) -> (Seq<CurrentSpan>, Seq<EventView>)
    decreases n,
{
    if n <= 0 {
        (Seq::empty(), Seq::empty())
    } else {
        let before = assembled(chunks, answers, smarten, n - 1);
        let tokens = resolved(
            chunks[n - 1].pieces,
            answers[n - 1],
            chunks[n - 1].pieces.len() as int,
        );
        if chunks[n - 1].finish {
            let read = finished(tokens, smarten, before.0);
            (read.0, before.1 + read.1)
        } else {
            (before.0, before.1 + tokens)
        }
    }
}

/// Whether the answers are what the token source made of what was set
/// apart in the chunks.
pub open spec fn all_answered<F: Fn(&str) -> Vec<Event>, G: Fn(&str) -> Vec<Event>>(
    inline: &F,
    reparse: &G,
    chunks: Seq<ChunkView>,
    answers: Seq<Seq<Seq<EventView>>>,
) -> bool {
    &&& answers.len() == chunks.len()
    &&& forall|k: int|
        0 <= k < chunks.len() ==> answered(
            inline,
            reparse,
            (#[trigger] chunks[k]).pieces,
            answers[k],
        )
}

/// Whether `out` is what plain tokens come to as tokens of a book, with
/// the help of the token source.
pub open spec fn is_extension<F: Fn(&str) -> Vec<Event>, G: Fn(&str) -> Vec<Event>>(
    inline: &F,
    reparse: &G,
    raw: Seq<EventView>,
    smarten: bool,
    out: Seq<EventView>,
) -> bool {
    exists|answers: Seq<Seq<Seq<EventView>>>| #[trigger]
        all_answered(inline, reparse, chunked(raw), answers) && out == assembled(
            chunked(raw),
            answers,
            smarten,
            chunked(raw).len() as int,
        ).1
}

/// The tokens of the first chunks depend on the answers to the first
/// chunks alone.
pub proof fn lemma_assembled_prefix(
    chunks: Seq<ChunkView>,
    a: Seq<Seq<Seq<EventView>>>,
    b: Seq<Seq<Seq<EventView>>>,
    smarten: bool,
    n: int,
)
    requires
        0 <= n <= a.len() <= b.len(),
        forall|j: int| 0 <= j < n ==> a[j] == b[j],
    ensures
        assembled(chunks, a, smarten, n) == assembled(chunks, b, smarten, n),
    decreases n,
{
    if n > 0 {
        lemma_assembled_prefix(chunks, a, b, smarten, n - 1);
    }
}

/// Makes tokens of a book of the plain tokens of a manuscript. The
/// token source reads again what is set apart: `inline` a text with
/// superscript or subscript, `reparse` the indented text of a footnote.
pub fn extend<F: Fn(&str) -> Vec<Event>, G: Fn(&str) -> Vec<Event>>(
    raw: Vec<Event>,
    smarten: bool,
    inline: &F,
    reparse: &G,
) -> (r: Vec<Event>)
    requires
        forall|s: &str| call_requires(*inline, (s,)),
        forall|s: &str| call_requires(*reparse, (s,)),
    ensures
        is_extension(inline, reparse, raw.deep_view(), smarten, r.deep_view()),
{
    let chunks = chunks_of(raw);
    let ghost all = chunks.deep_view();
    let ghost mut answers: Seq<Seq<Seq<EventView>>> = Seq::empty();
    let mut current_spans: Vec<CurrentSpan> = Vec::new();
    let mut out: Vec<Event> = Vec::new();
    let n = chunks.len();
    let mut k: usize = 0;
    while k < n
        invariant
            k <= n,
            n == chunks.len(),
            all == chunks.deep_view(),
            forall|s: &str| call_requires(*inline, (s,)),
            forall|s: &str| call_requires(*reparse, (s,)),
            answers.len() == k,
            (current_spans@, out.deep_view()) == assembled(all, answers, smarten, k as int),
            forall|j: int|
                0 <= j < k ==> answered(inline, reparse, (#[trigger] all[j]).pieces, answers[j]),
        decreases n - k,
    {
        let ghost before = answers;
        let ghost earlier = out.deep_view();
        let (tokens, Ghost(given)) = resolve(inline, reparse, &chunks[k].pieces);
        proof {
            answers = answers.push(given);
            lemma_assembled_prefix(all, before, answers, smarten, k as int);
        }
        let ghost resolved_tokens = tokens.deep_view();
        let mut read = if chunks[k].finish {
            finish_buffer(tokens, smarten, &mut current_spans)
        } else {
            tokens
        };
        let ghost added = read.deep_view();
        out.append(&mut read);
        assert(out.deep_view() =~= earlier + added);
        k += 1;
    }
    assert(all_answered(inline, reparse, all, answers));
    out
}

/// Whether nothing is set apart in the chunks.
pub open spec fn all_tokens(chunks: Seq<ChunkView>) -> bool {
    forall|k: int, j: int|
        0 <= k < chunks.len() && 0 <= j < chunks[k].pieces.len() ==> (
        #[trigger] chunks[k].pieces[j]) is Token
}

/// Where nothing is set apart in the pieces, their tokens do not depend
/// on the answers.
pub proof fn lemma_resolved_tokens(
    pieces: Seq<PieceView>,
    a: Seq<Seq<EventView>>,
    b: Seq<Seq<EventView>>,
    n: int,
)
    requires
        0 <= n <= pieces.len(),
        forall|j: int| 0 <= j < pieces.len() ==> (#[trigger] pieces[j]) is Token,
    ensures
        resolved(pieces, a, n) == resolved(pieces, b, n),
    decreases n,
{
    if n > 0 {
        lemma_resolved_tokens(pieces, a, b, n - 1);
        assert(pieces[n - 1] is Token);
    }
}

/// Where nothing is set apart in the chunks of a manuscript, the token
/// source has no say in its tokens: whatever the answers, the tokens are
/// the same.
pub proof fn law_tokens_need_no_answers(
    chunks: Seq<ChunkView>,
    a: Seq<Seq<Seq<EventView>>>,
    b: Seq<Seq<Seq<EventView>>>,
    smarten: bool,
    n: int,
)
    requires
        all_tokens(chunks),
        0 <= n <= chunks.len(),
    ensures
        assembled(chunks, a, smarten, n) == assembled(chunks, b, smarten, n),
    decreases n,
{
    if n > 0 {
        law_tokens_need_no_answers(chunks, a, b, smarten, n - 1);
        let pieces = chunks[n - 1].pieces;
        assert forall|j: int| 0 <= j < pieces.len() implies (#[trigger] pieces[j]) is Token by {
            assert(chunks[n - 1].pieces[j] is Token);
        }
        lemma_resolved_tokens(pieces, a[n - 1], b[n - 1], pieces.len() as int);
    }
}

/// Whether a tag is one that plain markdown has, or one that plain
/// markdown writes as a span or as a block quote.
pub open spec fn writable_plainly(t: TagView) -> bool {
    !(t is Strikethrough || t is FlattenedFootnote || t is UnindentedParagraph)
}

/// A span as raw markup opens it.
pub open spec fn span_markup(t: TagView) -> Option<Seq<char>> {
    match t {
        TagView::Sans => Some("<span class=\"sans\">"@),
        TagView::Centred => Some("<span class=\"centred\">"@),
        TagView::SmallCaps => Some("<span class=\"smallcaps\">"@),
        TagView::RightAligned => Some("<span class=\"right-aligned\">"@),
        TagView::Superscript => Some("<span class=\"superscript\">"@),
        TagView::Subscript => Some("<span class=\"subscript\">"@),
        _ => None,
    }
}

/// A tag as plain markdown has it: a long quotation is a block quote.
pub open spec fn plain_tag(t: TagView) -> TagView {
    match t {
        TagView::BlockQuotation => TagView::BlockQuote,
        _ => t,
    }
}

/// A token of a book as a plain token: a span that says how its text is
/// set is raw markup, and a long quotation is a block quote.
pub open spec fn plain_token(e: EventView) -> EventView {
    match e {
        EventView::Start(t) => match span_markup(t) {
            Some(m) => EventView::Html(m),
            None => EventView::Start(plain_tag(t)),
        },
        EventView::End(t) => match span_markup(t) {
            Some(_) => EventView::Html("</span>"@),
            None => EventView::End(plain_tag(t)),
        },
        _ => e,
    }
}

/// Whether a token of a book can be written as a plain token.
pub open spec fn has_plain_token(e: EventView) -> bool {
    match e {
        EventView::Start(t) => writable_plainly(t),
        EventView::End(t) => writable_plainly(t),
        _ => true,
    }
}

fn markup_of(t: &Tag) -> (r: Option<&'static str>)
    ensures
        match span_markup(t.deep_view()) {
            Some(m) => r is Some && r->0@ == m,
            None => r is None,
        },
{
    match t {
        Tag::Sans => Some("<span class=\"sans\">"),
        Tag::Centred => Some("<span class=\"centred\">"),
        Tag::SmallCaps => Some("<span class=\"smallcaps\">"),
        Tag::RightAligned => Some("<span class=\"right-aligned\">"),
        Tag::Superscript => Some("<span class=\"superscript\">"),
        Tag::Subscript => Some("<span class=\"subscript\">"),
        _ => None,
    }
}

fn to_plain_tag(t: Tag) -> (r: Tag)
    ensures
        r.deep_view() == plain_tag(t.deep_view()),
{
    match t {
        Tag::BlockQuotation => Tag::BlockQuote,
        other => other,
    }
}

/// Writes a token of a book as a plain token.
pub fn to_plain(e: Event) -> (r: Event)
    requires
        has_plain_token(e.deep_view()),
    ensures
        r.deep_view() == plain_token(e.deep_view()),
{
    match e {
        Event::Start(t) => match markup_of(&t) {
            Some(m) => Event::Html(owned(m)),
            None => Event::Start(to_plain_tag(t)),
        },
        Event::End(t) => match markup_of(&t) {
            Some(_) => Event::Html(owned("</span>")),
            None => Event::End(to_plain_tag(t)),
        },
        other => other,
    }
}

/// Whether a token of a book can be written as a plain token.
pub fn can_be_plain(e: &Event) -> (r: bool)
    ensures
        r == has_plain_token(e.deep_view()),
{
    match e {
        Event::Start(Tag::Strikethrough) | Event::End(Tag::Strikethrough) => false,
        Event::Start(Tag::FlattenedFootnote) | Event::End(Tag::FlattenedFootnote) => false,
        Event::Start(Tag::UnindentedParagraph) | Event::End(Tag::UnindentedParagraph) => false,
        _ => true,
    }
}

/// How a manuscript is read.
#[derive(Debug)]
pub struct Options {
    /// Whether footnotes are read.
    pub enable_footnotes: bool,
    /// Whether punctuation is smartened and quotes are made curly.
    pub smarten: bool,
    /// Whether text that is struck through is read.
    pub enable_strikethrough: bool,
}

impl Default for Options {
    fn default() -> (r: Self)
        ensures
            r.enable_footnotes,
            r.smarten,
            !r.enable_strikethrough,
    {
        Options { enable_footnotes: true, smarten: true, enable_strikethrough: false }
    }
}

impl Options {
    /// How a single line of text is read: smartened, without footnotes.
    pub fn inline() -> (r: Self)
        ensures
            !r.enable_footnotes,
            r.smarten,
            !r.enable_strikethrough,
    {
        Options { enable_footnotes: false, smarten: true, enable_strikethrough: false }
    }
}

} // verus!
