//! The reading of plain tokens in chunks: a run of text up to what breaks
//! its quotations, a block quote, a footnote, or a single token. Within a
//! chunk, a text that holds superscript or subscript is set apart to be
//! read again, and so is the indented text of a footnote.

use crate::events::{CodeBlockKind, CodeBlockKindView, Event, EventView, Tag, TagView};
use crate::scripts::{has_script, holds_script};
use crate::seqs::group_views;
use crate::spans::{breaks_quotes, resets_quotes};
use crate::text::{chars_of, string_of};
use vstd::prelude::*;
use vstd::string::*;

verus! {

broadcast use group_views;

/// A piece of a chunk: a token, a text with superscript or subscript that
/// is to be read again, or the text of a footnote that is to be read
/// again.
#[derive(Debug)]
pub enum Piece {
    Token(Event),
    Scripts(String),
    Footnote(String),
}

/// What a `Piece` holds, as mathematics.
pub enum PieceView {
    Token(EventView),
    Scripts(Seq<char>),
    Footnote(Seq<char>),
}

impl DeepView for Piece {
    type V = PieceView;

    open spec fn deep_view(&self) -> PieceView {
        match self {
            Piece::Token(e) => PieceView::Token(e.deep_view()),
            Piece::Scripts(t) => PieceView::Scripts(t@),
            Piece::Footnote(t) => PieceView::Footnote(t@),
        }
    }
}

/// A chunk of the manuscript: its pieces, and whether it is read for
/// quotations and spans or handed on as it is.
#[derive(Debug)]
pub struct Chunk {
    pub pieces: Vec<Piece>,
    pub finish: bool,
}

/// What a `Chunk` holds, as mathematics.
pub struct ChunkView {
    pub pieces: Seq<PieceView>,
    pub finish: bool,
}

impl DeepView for Chunk {
    type V = ChunkView;

    open spec fn deep_view(&self) -> ChunkView {
        ChunkView { pieces: self.pieces.deep_view(), finish: self.finish }
    }
}

/// Where the reading of the tokens stands.
#[derive(Debug, PartialEq, Eq, Structural, Clone, Copy)]
pub enum Mode {
    /// Between two chunks.
    Idle,
    /// In a run of text.
    InText,
    /// In a block quote.
    InQuote,
    /// In the definition of a footnote.
    InFootnote,
    /// In an image within a footnote, which is dropped.
    InImage,
    /// In indented text within a footnote, which is read again.
    InCode,
}

/// What is known while the tokens are read: where the reading stands, how
/// deep in block quotes it is, whether it is within code, in the chunk
/// and at large, the indented text of a footnote so far, the chunks that
/// are complete, and the pieces of the chunk that is open.
pub struct ScanView {
    pub mode: Mode,
    pub score: nat,
    pub local_verbatim: bool,
    pub footnote_text: Seq<char>,
    pub in_verbatim: bool,
    pub chunks: Seq<ChunkView>,
    pub current: Seq<PieceView>,
}

/// A text as a piece: set apart where it holds superscript or subscript.
pub open spec fn text_piece(t: Seq<char>) -> PieceView {
    if holds_script(t) {
        PieceView::Scripts(t)
    } else {
        PieceView::Token(EventView::Text(t))
    }
}

/// A text with every line break doubled.
pub open spec fn doubled(t: Seq<char>) -> Seq<char>
    decreases t.len(),
{
    if t.len() == 0 {
        Seq::empty()
    } else if t.last() == '\n' {
        doubled(t.drop_last()).push('\n').push('\n')
    } else {
        doubled(t.drop_last()).push(t.last())
    }
}

impl ScanView {
    /// The state before anything is read.
    pub open spec fn start() -> ScanView {
        ScanView {
            mode: Mode::Idle,
            score: 0,
            local_verbatim: false,
            footnote_text: Seq::empty(),
            in_verbatim: false,
            chunks: Seq::empty(),
            current: Seq::empty(),
        }
    }

    /// The state with one more piece in the open chunk.
    pub open spec fn with_piece(self, p: PieceView) -> ScanView {
        ScanView { current: self.current.push(p), ..self }
    }

    /// The state with the open chunk complete.
    pub open spec fn closed(self) -> ScanView {
        ScanView {
            mode: Mode::Idle,
            score: 0,
            local_verbatim: false,
            chunks: self.chunks.push(ChunkView { pieces: self.current, finish: true }),
            current: Seq::empty(),
            ..self
        }
    }

    /// The state with a chunk of one token that is handed on as it is, or
    /// read for spans.
    pub open spec fn with_single(self, e: EventView, finish: bool) -> ScanView {
        ScanView {
            chunks: self.chunks.push(ChunkView { pieces: seq![PieceView::Token(e)], finish }),
            ..self
        }
    }

    /// The state with a chunk opened by a piece.
    pub open spec fn opened(self, mode: Mode, p: PieceView) -> ScanView {
        ScanView { mode, score: 0, local_verbatim: false, current: seq![p], ..self }
    }

    /// Between two chunks: a text outside code opens a run of text, a
    /// block quote and the definition of a footnote open a chunk, raw
    /// markup is a chunk of its own that is read for spans, and any other
    /// token is handed on as it is; code begins and ends.
    pub open spec fn idle_step(self, e: EventView) -> ScanView {
        match e {
            EventView::Text(t) => if !self.in_verbatim {
                self.opened(Mode::InText, text_piece(t))
            } else {
                self.with_single(e, false)
            },
            EventView::Start(TagView::BlockQuote) => ScanView {
                score: 1,
                ..self.opened(Mode::InQuote, PieceView::Token(e))
            },
            EventView::Html(_) => self.with_single(e, true),
            EventView::Start(TagView::FootnoteDefinition(_)) => self.opened(
                Mode::InFootnote,
                PieceView::Token(e),
            ),
            EventView::Start(TagView::CodeBlock(_)) => ScanView {
                in_verbatim: true,
                ..self.with_single(e, false)
            },
            EventView::End(TagView::CodeBlock(_)) => ScanView {
                in_verbatim: false,
                ..self.with_single(e, false)
            },
            _ => self.with_single(e, false),
        }
    }

    /// In a run of text: the run goes up to the first token that breaks
    /// quotations, which is its last.
    pub open spec fn text_step(self, e: EventView) -> ScanView {
        match e {
            EventView::Text(t) => self.with_piece(text_piece(t)),
            _ => if breaks_quotes(e) {
                self.with_piece(PieceView::Token(e)).closed()
            } else {
                self.with_piece(PieceView::Token(e))
            },
        }
    }

    /// A token within a block quote or a footnote: a text outside code
    /// that holds superscript or subscript is set apart.
    pub open spec fn inner_piece(self, e: EventView) -> PieceView {
        match e {
            EventView::Text(t) => if !self.local_verbatim {
                text_piece(t)
            } else {
                PieceView::Token(e)
            },
            _ => PieceView::Token(e),
        }
    }

    /// In a block quote: the chunk goes up to the end of the block quote
    /// that opened it.
    pub open spec fn quote_step(self, e: EventView) -> ScanView {
        match e {
            EventView::Start(TagView::CodeBlock(_)) => ScanView {
                local_verbatim: true,
                ..self.with_piece(PieceView::Token(e))
            },
            EventView::End(TagView::CodeBlock(_)) => ScanView {
                local_verbatim: false,
                ..self.with_piece(PieceView::Token(e))
            },
            EventView::Start(TagView::BlockQuote) => ScanView {
                score: self.score + 1,
                ..self.with_piece(PieceView::Token(e))
            },
            EventView::End(TagView::BlockQuote) => if self.score <= 1 {
                self.with_piece(PieceView::Token(e)).closed()
            } else {
                ScanView { score: (self.score - 1) as nat, ..self.with_piece(PieceView::Token(e)) }
            },
            _ => self.with_piece(self.inner_piece(e)),
        }
    }

    /// In the definition of a footnote: an image is dropped, indented
    /// text is read again, and the chunk goes up to the end of the
    /// definition.
    pub open spec fn footnote_step(self, e: EventView) -> ScanView {
        match e {
            EventView::Start(TagView::Image(_, _, _)) => ScanView { mode: Mode::InImage, ..self },
            EventView::Start(TagView::CodeBlock(CodeBlockKindView::Indented)) => ScanView {
                mode: Mode::InCode,
                footnote_text: Seq::empty(),
                ..self
            },
            EventView::Start(TagView::CodeBlock(_)) => ScanView {
                local_verbatim: true,
                ..self.with_piece(PieceView::Token(e))
            },
            EventView::End(TagView::CodeBlock(_)) => ScanView {
                local_verbatim: false,
                ..self.with_piece(PieceView::Token(e))
            },
            EventView::End(TagView::FootnoteDefinition(_)) => self.with_piece(
                PieceView::Token(e),
            ).closed(),
            _ => self.with_piece(self.inner_piece(e)),
        }
    }

    /// In an image within a footnote: everything up to the end of the
    /// image is dropped.
    pub open spec fn image_step(self, e: EventView) -> ScanView {
        match e {
            EventView::End(TagView::Image(_, _, _)) => ScanView { mode: Mode::InFootnote, ..self },
            _ => self,
        }
    }

    /// The state with the indented text of a footnote as a piece.
    pub open spec fn with_footnote_text(self) -> ScanView {
        ScanView {
            mode: Mode::InFootnote,
            footnote_text: Seq::empty(),
            ..self.with_piece(PieceView::Footnote(doubled(self.footnote_text)))
        }
    }

    /// In indented text within a footnote: the texts are gathered up to
    /// the end of the indented text.
    pub open spec fn code_step(self, e: EventView) -> ScanView {
        match e {
            EventView::End(TagView::CodeBlock(CodeBlockKindView::Indented)) => {
                self.with_footnote_text()
            },
            EventView::Text(t) => ScanView { footnote_text: self.footnote_text + t, ..self },
            _ => self,
        }
    }

    /// The state behind one more token.
    pub open spec fn step(self, e: EventView) -> ScanView {
        match self.mode {
            Mode::Idle => self.idle_step(e),
            Mode::InText => self.text_step(e),
            Mode::InQuote => self.quote_step(e),
            Mode::InFootnote => self.footnote_step(e),
            Mode::InImage => self.image_step(e),
            Mode::InCode => self.code_step(e),
        }
    }

    /// The chunks when the tokens are at their end: a chunk that is open
    /// is complete.
    pub open spec fn at_end(self) -> Seq<ChunkView> {
        match self.mode {
            Mode::Idle => self.chunks,
            Mode::InCode => self.with_footnote_text().closed().chunks,
            _ => self.closed().chunks,
        }
    }
}

/// The state behind the first `n` tokens.
pub open spec fn scan_fold(raw: Seq<EventView>, n: int) -> ScanView
    decreases n,
{
    if n <= 0 {
        ScanView::start()
    } else {
        scan_fold(raw, n - 1).step(raw[n - 1])
    }
}

/// The chunks of a sequence of plain tokens.
pub open spec fn chunked(raw: Seq<EventView>) -> Seq<ChunkView> {
    scan_fold(raw, raw.len() as int).at_end()
}

/// Doubles every line break of a text.
pub fn double_breaks(text: &str) -> (r: String)
    ensures
        r@ == doubled(text@),
{
    let chars = chars_of(text);
    let mut out: Vec<char> = Vec::new();
    let mut i: usize = 0;
    assert(chars@.take(0) =~= Seq::<char>::empty());
    while i < chars.len()
        invariant
            i <= chars.len(),
            out@ == doubled(chars@.take(i as int)),
        decreases chars.len() - i,
    {
        proof {
            assert(chars@.take(i + 1).drop_last() =~= chars@.take(i as int));
            assert(chars@.take(i + 1).last() == chars@[i as int]);
        }
        if chars[i] == '\n' {
            out.push('\n');
            out.push('\n');
        } else {
            out.push(chars[i]);
        }
        i += 1;
    }
    assert(chars@.take(chars.len() as int) =~= chars@);
    string_of(&out)
}

fn text_piece_of(e: Event) -> (r: Piece)
    ensures
        r.deep_view() == (match e.deep_view() {
            EventView::Text(t) => text_piece(t),
            other => PieceView::Token(other),
        }),
{
    match e {
        Event::Text(t) => {
            if has_script(t.as_str()) {
                Piece::Scripts(t)
            } else {
                Piece::Token(Event::Text(t))
            }
        },
        other => Piece::Token(other),
    }
}

/// What a token is to the reading in chunks.
#[derive(Debug, PartialEq, Eq, Structural, Clone, Copy)]
pub enum Reading {
    Text,
    BeginsQuote,
    EndsQuote,
    Markup,
    BeginsFootnote,
    EndsFootnote,
    BeginsImage,
    EndsImage,
    BeginsIndented,
    EndsIndented,
    BeginsCode,
    EndsCode,
    Breaks,
    Other,
}

/// What a token is to the reading in chunks.
pub open spec fn reading_of(e: EventView) -> Reading {
    match e {
        EventView::Text(_) => Reading::Text,
        EventView::Start(TagView::BlockQuote) => Reading::BeginsQuote,
        EventView::End(TagView::BlockQuote) => Reading::EndsQuote,
        EventView::Html(_) => Reading::Markup,
        EventView::Start(TagView::FootnoteDefinition(_)) => Reading::BeginsFootnote,
        EventView::End(TagView::FootnoteDefinition(_)) => Reading::EndsFootnote,
        EventView::Start(TagView::Image(_, _, _)) => Reading::BeginsImage,
        EventView::End(TagView::Image(_, _, _)) => Reading::EndsImage,
        EventView::Start(TagView::CodeBlock(CodeBlockKindView::Indented)) => Reading::BeginsIndented,
        EventView::End(TagView::CodeBlock(CodeBlockKindView::Indented)) => Reading::EndsIndented,
        EventView::Start(TagView::CodeBlock(_)) => Reading::BeginsCode,
        EventView::End(TagView::CodeBlock(_)) => Reading::EndsCode,
        _ => if breaks_quotes(e) {
            Reading::Breaks
        } else {
            Reading::Other
        },
    }
}

fn read(e: &Event) -> (r: Reading)
    ensures
        r == reading_of(e.deep_view()),
{
    match e {
        Event::Text(_) => Reading::Text,
        Event::Start(Tag::BlockQuote) => Reading::BeginsQuote,
        Event::End(Tag::BlockQuote) => Reading::EndsQuote,
        Event::Html(_) => Reading::Markup,
        Event::Start(Tag::FootnoteDefinition(_)) => Reading::BeginsFootnote,
        Event::End(Tag::FootnoteDefinition(_)) => Reading::EndsFootnote,
        Event::Start(Tag::Image(_, _, _)) => Reading::BeginsImage,
        Event::End(Tag::Image(_, _, _)) => Reading::EndsImage,
        Event::Start(Tag::CodeBlock(CodeBlockKind::Indented)) => Reading::BeginsIndented,
        Event::End(Tag::CodeBlock(CodeBlockKind::Indented)) => Reading::EndsIndented,
        Event::Start(Tag::CodeBlock(_)) => Reading::BeginsCode,
        Event::End(Tag::CodeBlock(_)) => Reading::EndsCode,
        _ => if resets_quotes(e) {
            Reading::Breaks
        } else {
            Reading::Other
        },
    }
}

/// The reader of plain tokens in chunks.
#[derive(Debug)]
pub struct Scanner {
    pub mode: Mode,
    pub score: usize,
    pub local_verbatim: bool,
    pub footnote_text: String,
    pub in_verbatim: bool,
    pub chunks: Vec<Chunk>,
    pub current: Vec<Piece>,
}

impl DeepView for Scanner {
    type V = ScanView;

    open spec fn deep_view(&self) -> ScanView {
        ScanView {
            mode: self.mode,
            score: self.score as nat,
            local_verbatim: self.local_verbatim,
            footnote_text: self.footnote_text@,
            in_verbatim: self.in_verbatim,
            chunks: self.chunks.deep_view(),
            current: self.current.deep_view(),
        }
    }
}

impl Scanner {
    /// A reader that has read nothing.
    pub fn new() -> (r: Self)
        ensures
            r.deep_view() == ScanView::start(),
    {
        Scanner {
            mode: Mode::Idle,
            score: 0,
            local_verbatim: false,
            footnote_text: String::new(),
            in_verbatim: false,
            chunks: Vec::new(),
            current: Vec::new(),
        }
    }

    fn push(&mut self, p: Piece)
        ensures
            final(self).deep_view() == old(self).deep_view().with_piece(p.deep_view()),
    {
        self.current.push(p);
    }

    fn close(&mut self)
        ensures
            final(self).deep_view() == old(self).deep_view().closed(),
    {
        let mut pieces: Vec<Piece> = Vec::new();
        core::mem::swap(&mut pieces, &mut self.current);
        self.chunks.push(Chunk { pieces, finish: true });
        self.mode = Mode::Idle;
        self.score = 0;
        self.local_verbatim = false;
    }

    fn single(&mut self, e: Event, finish: bool)
        ensures
            final(self).deep_view() == old(self).deep_view().with_single(e.deep_view(), finish),
    {
        let mut pieces: Vec<Piece> = Vec::new();
        pieces.push(Piece::Token(e));
        assert(pieces.deep_view() =~= seq![PieceView::Token(e.deep_view())]);
        self.chunks.push(Chunk { pieces, finish });
    }

    fn open(&mut self, mode: Mode, p: Piece)
        ensures
            final(self).deep_view() == old(self).deep_view().opened(mode, p.deep_view()),
    {
        let mut pieces: Vec<Piece> = Vec::new();
        pieces.push(p);
        assert(pieces.deep_view() =~= seq![p.deep_view()]);
        self.current = pieces;
        self.mode = mode;
        self.score = 0;
        self.local_verbatim = false;
    }

    fn idle_step(&mut self, e: Event)
        ensures
            final(self).deep_view() == old(self).deep_view().idle_step(e.deep_view()),
    {
        match read(&e) {
            Reading::Text => {
                if !self.in_verbatim {
                    self.open(Mode::InText, text_piece_of(e));
                } else {
                    self.single(e, false);
                }
            },
            Reading::BeginsQuote => {
                self.open(Mode::InQuote, Piece::Token(e));
                self.score = 1;
            },
            Reading::Markup => {
                self.single(e, true);
            },
            Reading::BeginsFootnote => {
                self.open(Mode::InFootnote, Piece::Token(e));
            },
            Reading::BeginsIndented | Reading::BeginsCode => {
                self.single(e, false);
                self.in_verbatim = true;
            },
            Reading::EndsIndented | Reading::EndsCode => {
                self.single(e, false);
                self.in_verbatim = false;
            },
            _ => {
                self.single(e, false);
            },
        }
    }

    fn text_step(&mut self, e: Event)
        ensures
            final(self).deep_view() == old(self).deep_view().text_step(e.deep_view()),
    {
        match read(&e) {
            Reading::Text => {
                self.push(text_piece_of(e));
            },
            _ => {
                let breaks = resets_quotes(&e);
                self.push(Piece::Token(e));
                if breaks {
                    self.close();
                }
            },
        }
    }

    fn inner_piece(&self, e: Event) -> (r: Piece)
        ensures
            r.deep_view() == self.deep_view().inner_piece(e.deep_view()),
    {
        if !self.local_verbatim {
            text_piece_of(e)
        } else {
            Piece::Token(e)
        }
    }

    fn quote_step(&mut self, e: Event)
        requires
            old(self).score < usize::MAX,
        ensures
            final(self).deep_view() == old(self).deep_view().quote_step(e.deep_view()),
            final(self).score <= old(self).score + 1,
    {
        match read(&e) {
            Reading::BeginsIndented | Reading::BeginsCode => {
                self.push(Piece::Token(e));
                self.local_verbatim = true;
            },
            Reading::EndsIndented | Reading::EndsCode => {
                self.push(Piece::Token(e));
                self.local_verbatim = false;
            },
            Reading::BeginsQuote => {
                self.push(Piece::Token(e));
                self.score = self.score + 1;
            },
            Reading::EndsQuote => {
                self.push(Piece::Token(e));
                if self.score <= 1 {
                    self.close();
                } else {
                    self.score = self.score - 1;
                }
            },
            _ => {
                let p = self.inner_piece(e);
                self.push(p);
            },
        }
    }

    fn footnote_step(&mut self, e: Event)
        ensures
            final(self).deep_view() == old(self).deep_view().footnote_step(e.deep_view()),
            final(self).score <= old(self).score,
    {
        match read(&e) {
            Reading::BeginsImage => {
                self.mode = Mode::InImage;
            },
            Reading::BeginsIndented => {
                self.mode = Mode::InCode;
                self.footnote_text = String::new();
            },
            Reading::BeginsCode => {
                self.push(Piece::Token(e));
                self.local_verbatim = true;
            },
            Reading::EndsIndented | Reading::EndsCode => {
                self.push(Piece::Token(e));
                self.local_verbatim = false;
            },
            Reading::EndsFootnote => {
                self.push(Piece::Token(e));
                self.close();
            },
            _ => {
                let p = self.inner_piece(e);
                self.push(p);
            },
        }
    }

    fn image_step(&mut self, e: Event)
        ensures
            final(self).deep_view() == old(self).deep_view().image_step(e.deep_view()),
            final(self).score == old(self).score,
    {
        match read(&e) {
            Reading::EndsImage => {
                self.mode = Mode::InFootnote;
            },
            _ => {},
        }
    }

    fn add_footnote_text(&mut self)
        ensures
            final(self).deep_view() == old(self).deep_view().with_footnote_text(),
            final(self).score == old(self).score,
    {
        let text = double_breaks(self.footnote_text.as_str());
        self.push(Piece::Footnote(text));
        self.mode = Mode::InFootnote;
        self.footnote_text = String::new();
    }

    fn code_step(&mut self, e: Event)
        ensures
            final(self).deep_view() == old(self).deep_view().code_step(e.deep_view()),
            final(self).score == old(self).score,
    {
        match e {
            Event::End(Tag::CodeBlock(CodeBlockKind::Indented)) => {
                self.add_footnote_text();
            },
            Event::Text(t) => {
                self.footnote_text.append(t.as_str());
            },
            _ => {},
        }
    }

    /// Reads one more token.
    pub fn step(&mut self, e: Event)
        requires
            old(self).score < usize::MAX,
        ensures
            final(self).deep_view() == old(self).deep_view().step(e.deep_view()),
            final(self).score <= old(self).score + 1,
    {
        match self.mode {
            Mode::Idle => self.idle_step(e),
            Mode::InText => self.text_step(e),
            Mode::InQuote => self.quote_step(e),
            Mode::InFootnote => self.footnote_step(e),
            Mode::InImage => self.image_step(e),
            Mode::InCode => self.code_step(e),
        }
    }

    /// The chunks when the tokens are at their end.
    pub fn finish(self) -> (r: Vec<Chunk>)
        ensures
            r.deep_view() == self.deep_view().at_end(),
    {
        let mut scanner = self;
        match scanner.mode {
            Mode::Idle => {},
            Mode::InCode => {
                scanner.add_footnote_text();
                scanner.close();
            },
            _ => {
                scanner.close();
            },
        }
        scanner.chunks
    }
}

/// Reads plain tokens in chunks.
pub fn chunks_of(raw: Vec<Event>) -> (r: Vec<Chunk>)
    ensures
        r.deep_view() == chunked(raw.deep_view()),
{
    let ghost all = raw.deep_view();
    let mut scanner = Scanner::new();
    let n = raw.len();
    let mut i: usize = 0;
    while i < n
        invariant
            i <= n,
            n == raw.len(),
            all == raw.deep_view(),
            scanner.score <= i,
            scanner.deep_view() == scan_fold(all, i as int),
        decreases n - i,
    {
        scanner.step(raw[i].clone());
        i += 1;
    }
    scanner.finish()
}

} // verus!
