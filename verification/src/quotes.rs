//! Typographic smartening of the text of a manuscript: straight quotes
//! become curly ones, or stay apostrophes; rows of hyphens become dashes,
//! and three full stops an ellipsis.

use crate::text::{chars_of, string_of};
use vstd::prelude::*;
use vstd::string::*;

verus! {

/// Whether a character is a letter or a digit, as `char::is_alphanumeric`
/// has it.
pub uninterp spec fn alphanumeric(c: char) -> bool;

/// `char::is_alphanumeric`: the result is given a name and not spelled
/// out.
#[verifier::external_body]
pub(crate) fn is_alphanumeric(c: char) -> (r: bool)
    ensures
        r == alphanumeric(c),
{
    c.is_alphanumeric()
}

/// Whether a character is one of the punctuation marks of the first 128
/// characters.
pub open spec fn ascii_punctuation(c: char) -> bool {
    ('!' <= c <= '/') || (':' <= c <= '@') || ('[' <= c <= '`') || ('{' <= c <= '~')
}

/// Whether a character is one of the punctuation marks of the first 128
/// characters.
pub fn is_ascii_punctuation(c: char) -> (r: bool)
    ensures
        r == ascii_punctuation(c),
{
    ('!' <= c && c <= '/') || (':' <= c && c <= '@') || ('[' <= c && c <= '`') || ('{' <= c
        && c <= '~')
}

/// Whether a character is a dash or an ellipsis.
pub open spec fn dash_or_ellipsis(c: char) -> bool {
    c == '…' || c == '—' || c == '–'
}

/// A piece of text as the smartening sees it.
#[derive(Debug, PartialEq, Eq)]
pub enum TextComponent {
    LeftQuote,
    /// A single quote that opens a quotation if one closes later, and is
    /// an apostrophe if none does.
    LeftQuoteOrApostrophe,
    RightQuote,
    /// A single quote that closes the quotation that is open, unless a
    /// later one does, and is an apostrophe outside quotations.
    RightQuoteOrApostrophe,
    /// Text without single quotes.
    NonQuote(Vec<char>),
    Apostrophe,
    /// The end of a line.
    Break,
}

/// What a `TextComponent` holds, as mathematics.
pub enum ComponentView {
    LeftQuote,
    LeftQuoteOrApostrophe,
    RightQuote,
    RightQuoteOrApostrophe,
    NonQuote(Seq<char>),
    Apostrophe,
    Break,
}

impl DeepView for TextComponent {
    type V = ComponentView;

    open spec fn deep_view(&self) -> ComponentView {
        match self {
            TextComponent::LeftQuote => ComponentView::LeftQuote,
            TextComponent::LeftQuoteOrApostrophe => ComponentView::LeftQuoteOrApostrophe,
            TextComponent::RightQuote => ComponentView::RightQuote,
            TextComponent::RightQuoteOrApostrophe => ComponentView::RightQuoteOrApostrophe,
            TextComponent::NonQuote(s) => ComponentView::NonQuote(s@),
            TextComponent::Apostrophe => ComponentView::Apostrophe,
            TextComponent::Break => ComponentView::Break,
        }
    }
}

/// What a single straight quote is, between the character before it and
/// the character behind it.
pub open spec fn quote_between(before: char, behind: char) -> ComponentView {
    if alphanumeric(before) && alphanumeric(behind) {
        ComponentView::Apostrophe
    } else if before == '“' {
        ComponentView::LeftQuote
    } else if behind == '”' {
        ComponentView::RightQuote
    } else if before == ' ' || before == '\n' {
        ComponentView::LeftQuoteOrApostrophe
    } else if (behind == ' ' || behind == '\n') && alphanumeric(before) {
        ComponentView::RightQuoteOrApostrophe
    } else if behind == ' ' || behind == '\n' {
        ComponentView::RightQuote
    } else if alphanumeric(behind) {
        if dash_or_ellipsis(before) || ascii_punctuation(before) {
            ComponentView::LeftQuote
        } else {
            ComponentView::Apostrophe
        }
    } else if alphanumeric(before) || ascii_punctuation(before) {
        if dash_or_ellipsis(behind) || ascii_punctuation(behind) {
            ComponentView::RightQuote
        } else {
            ComponentView::Apostrophe
        }
    } else {
        ComponentView::Apostrophe
    }
}

fn is_dash_or_ellipsis(c: char) -> (r: bool)
    ensures
        r == dash_or_ellipsis(c),
{
    c == '…' || c == '—' || c == '–'
}

/// Decides what a single straight quote is, between the character before
/// it and the character behind it.
pub fn classify_quote(before: char, behind: char) -> (r: TextComponent)
    ensures
        r.deep_view() == quote_between(before, behind),
{
    let before_alnum = is_alphanumeric(before);
    let behind_alnum = is_alphanumeric(behind);
    if before_alnum && behind_alnum {
        TextComponent::Apostrophe
    } else if before == '“' {
        TextComponent::LeftQuote
    } else if behind == '”' {
        TextComponent::RightQuote
    } else if before == ' ' || before == '\n' {
        TextComponent::LeftQuoteOrApostrophe
    } else if (behind == ' ' || behind == '\n') && before_alnum {
        TextComponent::RightQuoteOrApostrophe
    } else if behind == ' ' || behind == '\n' {
        TextComponent::RightQuote
    } else if behind_alnum {
        if is_dash_or_ellipsis(before) || is_ascii_punctuation(before) {
            TextComponent::LeftQuote
        } else {
            TextComponent::Apostrophe
        }
    } else if before_alnum || is_ascii_punctuation(before) {
        if is_dash_or_ellipsis(behind) || is_ascii_punctuation(behind) {
            TextComponent::RightQuote
        } else {
            TextComponent::Apostrophe
        }
    } else {
        TextComponent::Apostrophe
    }
}

/// The reader of the texts of a run of the manuscript: the texts that are
/// still to come, what was read of them, and the pieces made so far.
#[derive(Debug)]
pub struct Replacer {
    pub sources: Vec<Vec<char>>,
    /// How many of the sources were opened.
    pub opened: usize,
    /// Whether the source that was opened last is still being read.
    pub reading: bool,
    /// How far it was read.
    pub position: usize,
    /// A character that was looked at ahead of its turn.
    pub next_char: Option<char>,
    pub components: Vec<TextComponent>,
    pub str_buffer: Option<Vec<char>>,
    pub in_double_quote: bool,
}

/// What a `Replacer` holds, as mathematics.
pub struct ReplacerView {
    /// The sources that were not opened yet.
    pub pending: Seq<Seq<char>>,
    /// What is left of the source that is being read.
    pub current: Option<Seq<char>>,
    pub next_char: Option<char>,
    pub components: Seq<ComponentView>,
    pub str_buffer: Option<Seq<char>>,
    pub in_double_quote: bool,
}

impl Replacer {
    /// Whether the reader is where its sources allow it to be.
    pub open spec fn wf(&self) -> bool {
        &&& self.opened <= self.sources.len()
        &&& self.reading ==> self.opened >= 1 && self.position <= self.sources[self.opened
            - 1].len()
    }
}

impl DeepView for Replacer {
    type V = ReplacerView;

    open spec fn deep_view(&self) -> ReplacerView {
        ReplacerView {
            pending: texts_of(self.sources@).skip(self.opened as int),
            current: if self.reading {
                Some(self.sources[self.opened - 1]@.skip(self.position as int))
            } else {
                None
            },
            next_char: self.next_char,
            components: self.components.deep_view(),
            str_buffer: match self.str_buffer {
                Some(b) => Some(b@),
                None => None,
            },
            in_double_quote: self.in_double_quote,
        }
    }
}

impl ReplacerView {
    /// The next character, and the reader behind it. Between two sources a
    /// line end is read, unless nothing was made of the sources so far.
    pub open spec fn next(self) -> (Option<char>, ReplacerView)
        decreases self.pending.len(),
    {
        if self.next_char is Some {
            (self.next_char, ReplacerView { next_char: None, ..self })
        } else if self.current is Some && self.current->0.len() > 0 {
            (
                Some(self.current->0[0]),
                ReplacerView { current: Some(self.current->0.skip(1)), ..self },
            )
        } else if self.pending.len() > 0 {
            let opened = ReplacerView {
                current: Some(self.pending[0]),
                pending: self.pending.skip(1),
                ..self
            };
            if self.components.len() == 0 && self.str_buffer is None {
                opened.next()
            } else {
                (Some('\n'), opened)
            }
        } else {
            (None, ReplacerView { current: None, ..self })
        }
    }

    /// The next character without passing it, and the reader that has
    /// looked at it.
    pub open spec fn peek(self) -> (Option<char>, ReplacerView) {
        if self.next_char is Some {
            (self.next_char, self)
        } else {
            let (n, st) = self.next();
            (n, ReplacerView { next_char: n, ..st })
        }
    }

    /// The character that was buffered last.
    pub open spec fn prev_char(self) -> Option<char> {
        match self.str_buffer {
            Some(b) => if b.len() > 0 {
                Some(b.last())
            } else {
                None
            },
            None => None,
        }
    }

    /// The reader with one more character in its buffer.
    pub open spec fn buffering(self, c: char) -> ReplacerView {
        ReplacerView {
            str_buffer: match self.str_buffer {
                Some(b) => Some(b.push(c)),
                None => Some(seq![c]),
            },
            ..self
        }
    }

    /// The reader without the character that was buffered last.
    pub open spec fn unbuffering(self) -> ReplacerView {
        ReplacerView {
            str_buffer: match self.str_buffer {
                Some(b) => if b.len() > 0 {
                    Some(b.drop_last())
                } else {
                    Some(b)
                },
                None => None,
            },
            ..self
        }
    }

    /// The reader with its buffer made a piece of text.
    pub open spec fn flushed(self) -> ReplacerView {
        match self.str_buffer {
            Some(b) => ReplacerView {
                components: self.components.push(ComponentView::NonQuote(b)),
                str_buffer: None,
                ..self
            },
            None => self,
        }
    }

    /// The reader with one more piece.
    pub open spec fn with_component(self, c: ComponentView) -> ReplacerView {
        ReplacerView { components: self.components.push(c), ..self }
    }

    /// The reader with another piece in the place of its last one.
    pub open spec fn with_last_component(self, c: ComponentView) -> ReplacerView {
        if self.components.len() > 0 {
            ReplacerView {
                components: self.components.update(self.components.len() - 1, c),
                ..self
            }
        } else {
            self
        }
    }

    /// Whether the last pieces are an undecided left quote and the letter
    /// `n`, before a space or the end of a line: the `n` of rock 'n' roll.
    pub open spec fn is_n_between_apostrophes(self, behind: char) -> bool {
        &&& self.components.len() >= 2
        &&& self.components.last() == ComponentView::NonQuote(seq!['n'])
        &&& self.components[self.components.len() - 2] == ComponentView::LeftQuoteOrApostrophe
        &&& (behind == ' ' || behind == '\n')
    }

    /// The reader behind a single straight quote. At the start of the
    /// text it opens a quotation, and at its end it closes one; behind a
    /// quote it is decided together with that quote; else it is decided by
    /// the characters around it.
    pub open spec fn straight_single_quote_handled(self) -> ReplacerView {
        let (next, st) = self.flushed().peek();
        if st.components.len() == 0 {
            match next {
                Some(_) => st.with_component(ComponentView::LeftQuote),
                None => st.with_component(ComponentView::Apostrophe),
            }
        } else {
            match next {
                None => st.with_component(ComponentView::RightQuote),
                Some(behind) => match st.components.last() {
                    ComponentView::LeftQuote => st.with_component(ComponentView::Apostrophe),
                    ComponentView::LeftQuoteOrApostrophe => st.with_last_component(
                        ComponentView::LeftQuote,
                    ).with_component(ComponentView::Apostrophe),
                    ComponentView::RightQuoteOrApostrophe
                    | ComponentView::RightQuote => st.with_last_component(
                        ComponentView::Apostrophe,
                    ).with_component(ComponentView::RightQuote),
                    ComponentView::Apostrophe => st.with_component(ComponentView::RightQuote),
                    ComponentView::Break => st.with_component(quote_between('\n', behind)),
                    ComponentView::NonQuote(s) => if st.is_n_between_apostrophes(behind) {
                        ReplacerView {
                            components: st.components.update(
                                st.components.len() - 2,
                                ComponentView::Apostrophe,
                            ).push(ComponentView::Apostrophe),
                            ..st
                        }
                    } else {
                        st.with_component(
                            quote_between(
                                if s.len() > 0 {
                                    s.last()
                                } else {
                                    ' '
                                },
                                behind,
                            ),
                        )
                    },
                },
            }
        }
    }

    /// The reader behind a character.
    pub open spec fn handled(self, c: char) -> ReplacerView {
        if c == '\n' {
            self.flushed().with_component(ComponentView::Break)
        } else if c == '.' {
            if self.prev_char() == Some('.') {
                let (behind, st) = self.peek();
                if behind == Some('.') {
                    (ReplacerView { next_char: None, ..st }).unbuffering().buffering('…')
                } else {
                    st.buffering('.')
                }
            } else {
                self.buffering('.')
            }
        } else if c == '-' {
            if self.prev_char() == Some('-') {
                self.unbuffering().buffering('–')
            } else if self.prev_char() == Some('–') {
                self.unbuffering().buffering('—')
            } else {
                self.buffering('-')
            }
        } else if c == '“' {
            ReplacerView { in_double_quote: true, ..self.buffering('“') }
        } else if c == '”' {
            ReplacerView { in_double_quote: false, ..self.buffering('”') }
        } else if c == '"' {
            if self.in_double_quote {
                ReplacerView { in_double_quote: false, ..self.buffering('”') }
            } else {
                ReplacerView { in_double_quote: true, ..self.buffering('“') }
            }
        } else if c == '‘' {
            self.flushed().with_component(ComponentView::LeftQuote)
        } else if c == '’' {
            self.flushed().with_component(ComponentView::RightQuote)
        } else if c == '\'' {
            self.straight_single_quote_handled()
        } else {
            self.buffering(c)
        }
    }

    /// One step of the reader: the next character is read and handled;
    /// where there is none, the buffer becomes the last piece.
    pub open spec fn step(self) -> (bool, ReplacerView) {
        let (n, st) = self.next();
        match n {
            Some(c) => (true, st.handled(c)),
            None => (false, st.flushed()),
        }
    }

    /// How much there is still to read.
    pub open spec fn left(self) -> nat {
        (if self.next_char is Some {
            1nat
        } else {
            0nat
        }) + (match self.current {
            Some(c) => c.len(),
            None => 0nat,
        }) + total_left(self.pending)
    }

    /// The reader at the end of its sources.
    pub open spec fn parsed(self) -> ReplacerView
        decreases self.left(),
    {
        let (more, st) = self.step();
        if more && st.left() < self.left() {
            st.parsed()
        } else {
            st
        }
    }

}

/// How many characters and line ends a list of sources still holds.
pub open spec fn total_left(sources: Seq<Seq<char>>) -> nat
    decreases sources.len(),
{
    if sources.len() == 0 {
        0
    } else {
        sources[0].len() + 1 + total_left(sources.skip(1))
    }
}

/// The texts of a list of sources.
pub open spec fn texts_of(sources: Seq<Vec<char>>) -> Seq<Seq<char>> {
    Seq::new(sources.len(), |i: int| sources[i]@)
}

/// Reading a character, where there is one, leaves less to read.
pub proof fn lemma_next_reads(st: ReplacerView)
    ensures
        st.next().0 is Some ==> st.next().1.left() < st.left(),
        st.next().0 is None ==> st.next().1.left() == 0,
        st.next().1.next_char is None,
        st.next().1.components == st.components,
        st.next().1.str_buffer == st.str_buffer,
        st.next().1.in_double_quote == st.in_double_quote,
    decreases st.pending.len(),
{
    if st.next_char is Some {
    } else if st.current is Some && st.current->0.len() > 0 {
    } else if st.pending.len() > 0 {
        let opened = ReplacerView {
            current: Some(st.pending[0]),
            pending: st.pending.skip(1),
            ..st
        };
        if st.components.len() == 0 && st.str_buffer is None {
            lemma_next_reads(opened);
        }
    } else {
    }
}

/// A step that goes on leaves less to read.
pub proof fn lemma_step_reads(st: ReplacerView)
    ensures
        st.step().0 ==> st.step().1.left() < st.left(),
{
    lemma_next_reads(st);
    let (n, st1) = st.next();
    if n is Some {
        lemma_next_reads(st1);
        lemma_next_reads(st1.flushed());
    }
}

/// The lines that the pieces make, given what was made of the pieces
/// before.
pub struct Finishing {
    pub in_quote: bool,
    pub out: Seq<char>,
    pub collated: Seq<Seq<char>>,
}

/// Whether a quotation that is open closes in the pieces ahead, before
/// another one opens.
pub open spec fn closes_ahead(rest: Seq<ComponentView>, undecided_opens: bool) -> bool
    decreases rest.len(),
{
    if rest.len() == 0 {
        false
    } else {
        match rest[0] {
            ComponentView::LeftQuote => false,
            ComponentView::LeftQuoteOrApostrophe => if undecided_opens {
                false
            } else {
                closes_ahead(rest.skip(1), undecided_opens)
            },
            ComponentView::RightQuote | ComponentView::RightQuoteOrApostrophe => true,
            _ => closes_ahead(rest.skip(1), undecided_opens),
        }
    }
}

/// What the piece at `i` adds to the lines. An undecided left quote opens
/// a quotation if none is open and one closes ahead; an undecided right
/// quote closes the quotation that is open unless a later quote does.
pub open spec fn finish_step(f: Finishing, pieces: Seq<ComponentView>, i: int) -> Finishing {
    let ahead = pieces.skip(i + 1);
    match pieces[i] {
        ComponentView::Break => if f.out.len() > 0 {
            Finishing { out: Seq::empty(), collated: f.collated.push(f.out), ..f }
        } else {
            f
        },
        ComponentView::Apostrophe => Finishing { out: f.out.push('\''), ..f },
        ComponentView::LeftQuote => Finishing { in_quote: true, out: f.out.push('‘'), ..f },
        ComponentView::LeftQuoteOrApostrophe => if !f.in_quote && closes_ahead(ahead, false) {
            Finishing { in_quote: true, out: f.out.push('‘'), ..f }
        } else {
            Finishing { out: f.out.push('\''), ..f }
        },
        ComponentView::RightQuote => Finishing { in_quote: false, out: f.out.push('’'), ..f },
        ComponentView::RightQuoteOrApostrophe => if f.in_quote && !closes_ahead(ahead, true) {
            Finishing { in_quote: false, out: f.out.push('’'), ..f }
        } else {
            Finishing { out: f.out.push('\''), ..f }
        },
        ComponentView::NonQuote(s) => Finishing { out: f.out + s, ..f },
    }
}

/// What the first `n` pieces make.
pub open spec fn finishing(pieces: Seq<ComponentView>, n: int) -> Finishing
    decreases n,
{
    if n <= 0 {
        Finishing { in_quote: false, out: Seq::empty(), collated: Seq::empty() }
    } else {
        finish_step(finishing(pieces, n - 1), pieces, n - 1)
    }
}

/// The lines that the pieces make.
pub open spec fn finished(pieces: Seq<ComponentView>) -> Seq<Seq<char>> {
    let f = finishing(pieces, pieces.len() as int);
    if f.out.len() > 0 {
        f.collated.push(f.out)
    } else {
        f.collated
    }
}

/// The reader before its first source.
pub open spec fn new_reader() -> ReplacerView {
    ReplacerView {
        pending: Seq::empty(),
        current: None,
        next_char: None,
        components: Seq::empty(),
        str_buffer: None,
        in_double_quote: false,
    }
}

/// The text with its quotes, dashes and ellipses smartened, line by line.
pub open spec fn smartened(sources: Seq<Seq<char>>) -> Seq<Seq<char>> {
    finished((ReplacerView { pending: sources, ..new_reader() }).parsed().components)
}

fn copy_chars(chars: &Vec<char>) -> (r: Vec<char>)
    ensures
        r@ == chars@,
{
    let mut out: Vec<char> = Vec::new();
    let mut i: usize = 0;
    while i < chars.len()
        invariant
            i <= chars.len(),
            out@ == chars@.take(i as int),
        decreases chars.len() - i,
    {
        out.push(chars[i]);
        assert(out@ =~= chars@.take(i + 1));
        i += 1;
    }
    assert(chars@.take(chars.len() as int) =~= chars@);
    out
}

fn push_component(components: &mut Vec<TextComponent>, c: TextComponent)
    ensures
        final(components).deep_view() == old(components).deep_view().push(c.deep_view()),
{
    proof {
        broadcast use crate::seqs::group_views;

    }
    components.push(c);
}

fn set_component(components: &mut Vec<TextComponent>, i: usize, c: TextComponent)
    requires
        i < old(components).len(),
    ensures
        final(components).deep_view() == old(components).deep_view().update(
            i as int,
            c.deep_view(),
        ),
{
    components.set(i, c);
    assert(components.deep_view() =~= old(components).deep_view().update(
        i as int,
        c.deep_view(),
    ));
}

impl Replacer {
    /// A reader without sources.
    pub fn new() -> (r: Replacer)
        ensures
            r.wf(),
            r.deep_view() == new_reader(),
    {
        let r = Replacer {
            sources: Vec::new(),
            opened: 0,
            reading: false,
            position: 0,
            next_char: None,
            components: Vec::new(),
            str_buffer: None,
            in_double_quote: false,
        };
        proof {
            assert(texts_of(r.sources@).skip(0) =~= Seq::empty());
            assert(r.components.deep_view() =~= Seq::empty());
        }
        r
    }

    /// Adds a text to the sources.
    pub fn add_str(&mut self, s: &str)
        requires
            old(self).wf(),
        ensures
            final(self).wf(),
            final(self).deep_view() == (ReplacerView {
                pending: old(self).deep_view().pending.push(s@),
                ..old(self).deep_view()
            }),
    {
        self.sources.push(chars_of(s));
        proof {
            assert(texts_of(self.sources@).skip(self.opened as int) =~= texts_of(
                old(self).sources@,
            ).skip(self.opened as int).push(s@));
        }
    }

    /// Reads the next character.
    pub fn next(&mut self) -> (r: Option<char>)
        requires
            old(self).wf(),
        ensures
            final(self).wf(),
            (r, final(self).deep_view()) == old(self).deep_view().next(),
    {
        match self.next_char {
            Some(c) => {
                self.next_char = None;
                return Some(c);
            },
            None => {},
        }
        loop
            invariant
                self.wf(),
                self.next_char is None,
                self.deep_view().next() == old(self).deep_view().next(),
            decreases self.sources.len() - self.opened,
        {
            if self.reading && self.position < self.sources[self.opened - 1].len() {
                let c = self.sources[self.opened - 1][self.position];
                proof {
                    let current = self.sources[self.opened - 1]@.skip(self.position as int);
                    assert(current[0] == c);
                    assert(current.skip(1) =~= self.sources[self.opened - 1]@.skip(
                        self.position + 1,
                    ));
                }
                self.position += 1;
                return Some(c);
            }
            let ghost before = self.deep_view();
            if self.opened < self.sources.len() {
                proof {
                    let pending = texts_of(self.sources@).skip(self.opened as int);
                    assert(pending[0] == self.sources[self.opened as int]@);
                    assert(pending.skip(1) =~= texts_of(self.sources@).skip(self.opened + 1));
                    assert(self.sources[self.opened as int]@.skip(0) =~= self.sources[self.opened as int]@);
                }
                self.opened += 1;
                self.reading = true;
                self.position = 0;
                if !(self.components.len() == 0 && self.str_buffer.is_none()) {
                    assert(before.components.len() == self.components.len());
                    return Some('\n');
                }
                assert(before.components.len() == self.components.len());
            } else {
                proof {
                    assert(texts_of(self.sources@).skip(self.opened as int).len() == 0);
                }
                self.reading = false;
                return None;
            }
        }
    }

    /// Looks at the next character without passing it.
    pub fn peek(&mut self) -> (r: Option<char>)
        requires
            old(self).wf(),
        ensures
            final(self).wf(),
            (r, final(self).deep_view()) == old(self).deep_view().peek(),
    {
        match self.next_char {
            Some(c) => Some(c),
            None => {
                let n = self.next();
                self.next_char = n;
                n
            },
        }
    }

    /// The character that was buffered last.
    pub fn prev_char(&self) -> (r: Option<char>)
        ensures
            r == self.deep_view().prev_char(),
    {
        match &self.str_buffer {
            Some(b) => if b.len() > 0 {
                Some(b[b.len() - 1])
            } else {
                None
            },
            None => None,
        }
    }

    fn push_to_buffer(&mut self, c: char)
        requires
            old(self).wf(),
        ensures
            final(self).wf(),
            final(self).deep_view() == old(self).deep_view().buffering(c),
    {
        let mut buffer: Option<Vec<char>> = None;
        core::mem::swap(&mut buffer, &mut self.str_buffer);
        let b = match buffer {
            Some(mut b) => {
                b.push(c);
                b
            },
            None => {
                let mut b: Vec<char> = Vec::new();
                b.push(c);
                assert(b@ =~= seq![c]);
                b
            },
        };
        self.str_buffer = Some(b);
    }

    fn pop_from_buffer(&mut self)
        requires
            old(self).wf(),
        ensures
            final(self).wf(),
            final(self).deep_view() == old(self).deep_view().unbuffering(),
    {
        let mut buffer: Option<Vec<char>> = None;
        core::mem::swap(&mut buffer, &mut self.str_buffer);
        match buffer {
            Some(mut b) => {
                if b.len() > 0 {
                    let _ = b.pop();
                }
                self.str_buffer = Some(b);
            },
            None => {},
        }
    }

    fn push_buffer_to_components(&mut self)
        requires
            old(self).wf(),
        ensures
            final(self).wf(),
            final(self).deep_view() == old(self).deep_view().flushed(),
    {
        let mut buffer: Option<Vec<char>> = None;
        core::mem::swap(&mut buffer, &mut self.str_buffer);
        match buffer {
            Some(b) => {
                push_component(&mut self.components, TextComponent::NonQuote(b));
            },
            None => {},
        }
    }

    fn push(&mut self, c: TextComponent)
        requires
            old(self).wf(),
        ensures
            final(self).wf(),
            final(self).deep_view() == old(self).deep_view().with_component(c.deep_view()),
    {
        push_component(&mut self.components, c);
    }

    fn replace_last(&mut self, c: TextComponent)
        requires
            old(self).wf(),
        ensures
            final(self).wf(),
            final(self).deep_view() == old(self).deep_view().with_last_component(c.deep_view()),
    {
        let n = self.components.len();
        assert(self.components.deep_view().len() == n);
        if n > 0 {
            set_component(&mut self.components, n - 1, c);
        }
    }

    fn is_n_between_apostrophes(&self, behind: char) -> (r: bool)
        ensures
            r == self.deep_view().is_n_between_apostrophes(behind),
    {
        let n = self.components.len();
        let ghost pieces = self.components.deep_view();
        assert(pieces.len() == n);
        if n < 2 {
            return false;
        }
        proof {
            assert(pieces[n - 1] == self.components[n - 1].deep_view());
            assert(pieces[n - 2] == self.components[n - 2].deep_view());
        }
        let is_n = match &self.components[n - 1] {
            TextComponent::NonQuote(s) => {
                let r = s.len() == 1 && s[0] == 'n';
                proof {
                    if r {
                        assert(s@ =~= seq!['n']);
                    }
                    if s@ == seq!['n'] {
                        assert(s@.len() == 1);
                        assert(s@[0] == 'n');
                    }
                }
                r
            },
            _ => false,
        };
        let undecided = match &self.components[n - 2] {
            TextComponent::LeftQuoteOrApostrophe => true,
            _ => false,
        };
        is_n && undecided && (behind == ' ' || behind == '\n')
    }

    /// Handles a single straight quote.
    pub fn handle_straight_single_quote(&mut self)
        requires
            old(self).wf(),
        ensures
            final(self).wf(),
            final(self).deep_view() == old(self).deep_view().straight_single_quote_handled(),
    {
        self.push_buffer_to_components();
        let next = self.peek();
        let n = self.components.len();
        let ghost pieces = self.components.deep_view();
        assert(pieces.len() == n);
        if n == 0 {
            match next {
                Some(_) => self.push(TextComponent::LeftQuote),
                None => self.push(TextComponent::Apostrophe),
            }
            return;
        }
        let behind = match next {
            None => {
                self.push(TextComponent::RightQuote);
                return;
            },
            Some(d) => d,
        };
        assert(pieces[n - 1] == self.components[n - 1].deep_view());
        if self.is_n_between_apostrophes(behind) {
            set_component(&mut self.components, n - 2, TextComponent::Apostrophe);
            self.push(TextComponent::Apostrophe);
            return;
        }
        let mut before: Option<char> = None;
        let mut kind: u8 = 0;
        match &self.components[n - 1] {
            TextComponent::LeftQuote => {
                kind = 1;
            },
            TextComponent::LeftQuoteOrApostrophe => {
                kind = 2;
            },
            TextComponent::RightQuoteOrApostrophe | TextComponent::RightQuote => {
                kind = 3;
            },
            TextComponent::Apostrophe => {
                kind = 4;
            },
            TextComponent::Break => {
                before = Some('\n');
            },
            TextComponent::NonQuote(s) => {
                before = Some(
                    if s.len() > 0 {
                        s[s.len() - 1]
                    } else {
                        ' '
                    },
                );
            },
        }
        match before {
            Some(pc) => {
                self.push(classify_quote(pc, behind));
            },
            None => {
                if kind == 1 {
                    self.push(TextComponent::Apostrophe);
                } else if kind == 2 {
                    self.replace_last(TextComponent::LeftQuote);
                    self.push(TextComponent::Apostrophe);
                } else if kind == 3 {
                    self.replace_last(TextComponent::Apostrophe);
                    self.push(TextComponent::RightQuote);
                } else {
                    self.push(TextComponent::RightQuote);
                }
            },
        }
    }

    fn handle(&mut self, c: char)
        requires
            old(self).wf(),
        ensures
            final(self).wf(),
            final(self).deep_view() == old(self).deep_view().handled(c),
    {
        if c == '\n' {
            self.push_buffer_to_components();
            self.push(TextComponent::Break);
        } else if c == '.' {
            if self.prev_char() == Some('.') {
                let behind = self.peek();
                if behind == Some('.') {
                    self.next_char = None;
                    self.pop_from_buffer();
                    self.push_to_buffer('…');
                } else {
                    self.push_to_buffer('.');
                }
            } else {
                self.push_to_buffer('.');
            }
        } else if c == '-' {
            let prev = self.prev_char();
            if prev == Some('-') {
                self.pop_from_buffer();
                self.push_to_buffer('–');
            } else if prev == Some('–') {
                self.pop_from_buffer();
                self.push_to_buffer('—');
            } else {
                self.push_to_buffer('-');
            }
        } else if c == '“' {
            self.in_double_quote = true;
            self.push_to_buffer('“');
        } else if c == '”' {
            self.in_double_quote = false;
            self.push_to_buffer('”');
        } else if c == '"' {
            if self.in_double_quote {
                self.in_double_quote = false;
                self.push_to_buffer('”');
            } else {
                self.in_double_quote = true;
                self.push_to_buffer('“');
            }
        } else if c == '‘' {
            self.push_buffer_to_components();
            self.push(TextComponent::LeftQuote);
        } else if c == '’' {
            self.push_buffer_to_components();
            self.push(TextComponent::RightQuote);
        } else if c == '\'' {
            self.handle_straight_single_quote();
        } else {
            self.push_to_buffer(c);
        }
    }

    /// Reads and handles the next character; says whether there was one.
    pub fn step(&mut self) -> (r: bool)
        requires
            old(self).wf(),
        ensures
            final(self).wf(),
            (r, final(self).deep_view()) == old(self).deep_view().step(),
    {
        match self.next() {
            Some(c) => {
                self.handle(c);
                true
            },
            None => {
                self.push_buffer_to_components();
                false
            },
        }
    }

    /// Reads the sources to their end.
    pub fn parse(&mut self)
        requires
            old(self).wf(),
        ensures
            final(self).wf(),
            final(self).deep_view() == old(self).deep_view().parsed(),
    {
        let mut more = true;
        while more
            invariant
                self.wf(),
                more ==> self.deep_view().parsed() == old(self).deep_view().parsed(),
                !more ==> self.deep_view() == old(self).deep_view().parsed(),
            decreases
                    if more {
                        self.deep_view().left() + 1
                    } else {
                        0
                    },
        {
            proof {
                lemma_step_reads(self.deep_view());
            }
            more = self.step();
        }
    }

    fn closes_ahead(&self, from: usize, undecided_opens: bool) -> (r: bool)
        requires
            from <= self.components.len(),
        ensures
            r == closes_ahead(self.components.deep_view().skip(from as int), undecided_opens),
    {
        let ghost pieces = self.components.deep_view();
        let n = self.components.len();
        assert(pieces.len() == n);
        let mut j: usize = from;
        while j < n
            invariant
                from <= j <= n,
                n == self.components.len(),
                pieces == self.components.deep_view(),
                closes_ahead(pieces.skip(j as int), undecided_opens) == closes_ahead(
                    pieces.skip(from as int),
                    undecided_opens,
                ),
            decreases n - j,
        {
            proof {
                assert(pieces.skip(j as int)[0] == self.components[j as int].deep_view());
                assert(pieces.skip(j as int).skip(1) =~= pieces.skip(j + 1));
            }
            match &self.components[j] {
                TextComponent::LeftQuote => {
                    return false;
                },
                TextComponent::LeftQuoteOrApostrophe => {
                    if undecided_opens {
                        return false;
                    }
                },
                TextComponent::RightQuote | TextComponent::RightQuoteOrApostrophe => {
                    return true;
                },
                _ => {},
            }
            j += 1;
        }
        assert(pieces.skip(n as int).len() == 0);
        false
    }

    /// Makes the lines of the pieces.
    pub fn finish(&mut self) -> (r: Vec<String>)
        requires
            old(self).wf(),
        ensures
            final(self).wf(),
            r.deep_view() == finished(old(self).deep_view().components),
    {
        let ghost pieces = self.components.deep_view();
        let n = self.components.len();
        assert(pieces.len() == n);
        let mut in_quote = false;
        let mut collated: Vec<String> = Vec::new();
        let mut out: Vec<char> = Vec::new();
        let mut i: usize = 0;
        proof {
            assert(collated.deep_view() =~= Seq::empty());
        }
        while i < n
            invariant
                i <= n,
                n == self.components.len(),
                pieces == self.components.deep_view(),
                self.wf(),
                *self == *old(self),
                finishing(pieces, i as int) == (Finishing {
                    in_quote,
                    out: out@,
                    collated: collated.deep_view(),
                }),
            decreases n - i,
        {
            proof {
                assert(pieces[i as int] == self.components[i as int].deep_view());
            }
            match &self.components[i] {
                TextComponent::Break => {
                    if out.len() > 0 {
                        proof {
                            broadcast use crate::seqs::group_views;

                        }
                        collated.push(string_of(&out));
                        out = Vec::new();
                    }
                },
                TextComponent::Apostrophe => {
                    out.push('\'');
                },
                TextComponent::LeftQuote => {
                    in_quote = true;
                    out.push('‘');
                },
                TextComponent::LeftQuoteOrApostrophe => {
                    if !in_quote && self.closes_ahead(i + 1, false) {
                        in_quote = true;
                        out.push('‘');
                    } else {
                        out.push('\'');
                    }
                },
                TextComponent::RightQuote => {
                    in_quote = false;
                    out.push('’');
                },
                TextComponent::RightQuoteOrApostrophe => {
                    if in_quote && !self.closes_ahead(i + 1, true) {
                        in_quote = false;
                        out.push('’');
                    } else {
                        out.push('\'');
                    }
                },
                TextComponent::NonQuote(s) => {
                    let mut copy = copy_chars(s);
                    out.append(&mut copy);
                },
            }
            i += 1;
        }
        if out.len() > 0 {
            proof {
                broadcast use crate::seqs::group_views;

            }
            collated.push(string_of(&out));
        }
        collated
    }
}

/// Smartens a text: its quotes, dashes and ellipses. Every line of the
/// text is a line of the result.
pub fn replace_quotes_ellipsis_and_dashes(src: &str) -> (r: Vec<String>)
    ensures
        r.deep_view() == smartened(seq![src@]),
{
    let mut replacer = Replacer::new();
    replacer.add_str(src);
    proof {
        assert(replacer.deep_view().pending =~= seq![src@]);
    }
    replacer.parse();
    replacer.finish()
}

/// Whether a pattern stands somewhere in a text.
pub open spec fn occurs(text: Seq<char>, pattern: Seq<char>) -> bool {
    exists|i: int|
        0 <= i && i + pattern.len() <= text.len() && #[trigger] text.subrange(
            i,
            i + pattern.len(),
        ) == pattern
}

/// Whether one of the patterns stands somewhere in a text.
pub open spec fn occurs_any(text: Seq<char>, patterns: Seq<Seq<char>>) -> bool {
    exists|p: int| 0 <= p < patterns.len() && occurs(text, #[trigger] patterns[p])
}

/// `aho_corasick::AhoCorasickBuilder::build` on the patterns, configured
/// for them and for the leftmost match, then `is_match` on the text:
/// whether one of the patterns stands somewhere in the text.
#[verifier::external_body]
pub(crate) fn has_match(text: &str, patterns: &Vec<&str>) -> (r: bool)
    ensures
        r == occurs_any(text@, patterns.deep_view()),
{
    aho_corasick::AhoCorasickBuilder::new()
        .auto_configure(patterns)
        .match_kind(aho_corasick::MatchKind::LeftmostFirst)
        .build(patterns)
        .is_match(text)
}

/// The marks that smartening looks for: full stops and hyphens in a row,
/// quotes of every kind, and the marks of superscript and subscript.
pub open spec fn significant_marks() -> Seq<Seq<char>> {
    seq!["..."@, "---"@, "--"@, "'"@, "\""@, "“"@, "”"@, "‘"@, "’"@, "^"@, "~"@]
}

/// Whether a text holds anything for smartening to look at.
pub open spec fn significant(text: Seq<char>) -> bool {
    occurs_any(text, significant_marks())
}

/// Whether a text holds anything for smartening to look at.
pub fn is_significant(text: &str) -> (r: bool)
    ensures
        r == significant(text@),
{
    let marks: Vec<&str> = vec!["...", "---", "--", "'", "\"", "“", "”", "‘", "’", "^", "~"];
    assert(marks.deep_view() =~= significant_marks());
    has_match(text, &marks)
}

/// The texts of a run with their quotes smartened: the texts before the
/// first one that holds a mark stay as they are; the others are read as
/// one text, line by line.
pub open spec fn converted(texts: Seq<Seq<char>>) -> Seq<Seq<char>> {
    let k = crate::seqs::first_index(texts, |t: Seq<char>| significant(t));
    if k < texts.len() {
        texts.take(k) + smartened(texts.skip(k))
    } else {
        texts
    }
}

/// Smartens the texts of a run of the manuscript, within which
/// quotations open and close.
pub fn convert_quotes_in_text_segment(texts: Vec<String>) -> (r: Vec<String>)
    ensures
        r.deep_view() == converted(texts.deep_view()),
{
    let ghost all = texts.deep_view();
    let ghost marked = |t: Seq<char>| significant(t);
    let n = texts.len();
    let mut k: usize = 0;
    while k < n && !is_significant(texts[k].as_str())
        invariant
            k <= n,
            n == texts.len(),
            all == texts.deep_view(),
            forall|j: int| 0 <= j < k ==> !significant(#[trigger] all[j]),
        decreases n - k,
    {
        assert(all[k as int] == texts[k as int]@);
        k += 1;
    }
    proof {
        assert forall|j: int| 0 <= j < k implies !marked(#[trigger] all[j]) by {}
        if k < n {
            assert(all[k as int] == texts[k as int]@);
        }
        crate::seqs::lemma_first_index_is(all, marked, k as int);
    }
    if k == n {
        return texts;
    }
    let mut replacer = Replacer::new();
    let mut good: Vec<String> = Vec::new();
    let mut i: usize = 0;
    proof {
        broadcast use crate::seqs::group_views;

        assert(all.take(0) =~= Seq::empty());
    }
    while i < k
        invariant
            i <= k < n,
            n == texts.len(),
            all == texts.deep_view(),
            good.deep_view() == all.take(i as int),
        decreases k - i,
    {
        good.push(texts[i].clone());
        proof {
            broadcast use crate::seqs::group_views;

            assert(all.take(i + 1) =~= all.take(i as int).push(texts[i as int]@));
        }
        i += 1;
    }
    let mut j: usize = k;
    proof {
        assert(all.subrange(k as int, k as int) =~= Seq::empty());
    }
    while j < n
        invariant
            k <= j <= n,
            n == texts.len(),
            all == texts.deep_view(),
            replacer.wf(),
            replacer.deep_view() == (ReplacerView {
                pending: all.subrange(k as int, j as int),
                ..new_reader()
            }),
        decreases n - j,
    {
        replacer.add_str(texts[j].as_str());
        proof {
            assert(all.subrange(k as int, j + 1) =~= all.subrange(k as int, j as int).push(
                texts[j as int]@,
            ));
        }
        j += 1;
    }
    assert(all.subrange(k as int, n as int) =~= all.skip(k as int));
    replacer.parse();
    let mut fixed = replacer.finish();
    proof {
        broadcast use crate::seqs::group_views;

    }
    good.append(&mut fixed);
    good
}

} // verus!
