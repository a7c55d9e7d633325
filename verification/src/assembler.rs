//! The stream assembler: puts the parts that the builder holds in their
//! canonical order, generates the structural pages that were not supplied,
//! and hands out the finished book.

use crate::balance::{closings, headings_paired};
use crate::book_event::{append_lifted, balanced, lifted, BookEvent, BookEventView};
use crate::laws::{
    law_balance, law_balance_rests_on_mainmatter, law_expected_counts, law_matter_order,
    matters_in_order,
};
use crate::roles::SemanticRole;
use crate::builder::{
    copyright_division, halftitle_division, make_copyright_division, make_halftitle,
    BookSrcBuilder, BuilderView,
};
use crate::events::{Event, EventView};
use crate::metadata::{titled, Metadata, MetadataView};
use crate::roles::TitlePageContributorRole;
use crate::sections::{dividable, divide_into_sections, divided};
use crate::seqs::group_views;
use crate::tokens::{inline_only, parse_inline_plain};
use crate::stamps::time_text;
use vstd::prelude::*;

verus! {

/// A finished book, ready to be rendered.
#[derive(Debug)]
pub struct BookSrc {
    /// The metadata of the book.
    pub metadata: Metadata,
    /// The events that make up the book.
    pub contents: Vec<BookEvent>,
    /// How many appendices the book has.
    pub expected_appendices_count: usize,
    /// How many epigraphs the book has.
    pub expected_epigraph_count: usize,
}

/// What a `BookSrc` holds, as mathematics.
pub struct BookSrcView {
    pub metadata: MetadataView,
    pub contents: Seq<BookEventView>,
    pub expected_appendices_count: usize,
    pub expected_epigraph_count: usize,
}

impl DeepView for BookSrc {
    type V = BookSrcView;

    open spec fn deep_view(&self) -> BookSrcView {
        BookSrcView {
            metadata: self.metadata.deep_view(),
            contents: self.contents.deep_view(),
            expected_appendices_count: self.expected_appendices_count,
            expected_epigraph_count: self.expected_epigraph_count,
        }
    }
}

/// The tokens of the texts that assembly takes from the metadata: the title
/// and subtitle for the titlepage, the short title for the halftitle and for
/// the head of the copyright page, and the text of the copyright page.
#[derive(Debug)]
pub struct Generated {
    pub title: Vec<Event>,
    pub subtitle: Option<Vec<Event>>,
    pub halftitle: Vec<Event>,
    pub copyright_title: Vec<Event>,
    pub copyright_text: Vec<Event>,
}

/// What a `Generated` holds, as mathematics.
pub struct GeneratedView {
    pub title: Seq<EventView>,
    pub subtitle: Option<Seq<EventView>>,
    pub halftitle: Seq<EventView>,
    pub copyright_title: Seq<EventView>,
    pub copyright_text: Seq<EventView>,
}

impl DeepView for Generated {
    type V = GeneratedView;

    open spec fn deep_view(&self) -> GeneratedView {
        GeneratedView {
            title: self.title.deep_view(),
            subtitle: self.subtitle.deep_view(),
            halftitle: self.halftitle.deep_view(),
            copyright_title: self.copyright_title.deep_view(),
            copyright_text: self.copyright_text.deep_view(),
        }
    }
}

/// What holds of a book however it was put together: its matters come in
/// order, and it ends as many epigraphs and appendices as it expects.
pub open spec fn well_assembled(book: BookSrcView) -> bool {
    &&& matters_in_order(book.contents)
    &&& closings(book.contents, SemanticRole::Epigraph) == book.expected_epigraph_count
    &&& closings(book.contents, SemanticRole::Appendix) == book.expected_appendices_count
}

/// The subtitle of a titlepage between its markers, or nothing.
pub open spec fn titlepage_subtitle(subtitle: Option<Seq<EventView>>) -> Seq<BookEventView> {
    match subtitle {
        Some(s) => seq![BookEventView::BeginTitlePageSubTitle] + lifted(inline_only(s)) + seq![
            BookEventView::EndTitlePageSubTitle,
        ],
        None => Seq::empty(),
    }
}

/// A titlepage: title, subtitle and the table of contributors.
pub open spec fn titlepage(
    title: Seq<EventView>,
    subtitle: Option<Seq<EventView>>,
    contributors: Seq<(TitlePageContributorRole, Seq<Seq<char>>)>,
) -> Seq<BookEventView> {
    seq![BookEventView::BeginTitlePage, BookEventView::BeginTitlePageTitle] + lifted(
        inline_only(title),
    ) + seq![BookEventView::EndTitlePageTitle] + titlepage_subtitle(subtitle) + seq![
        BookEventView::TitlePageContributors(contributors),
        BookEventView::EndTitlePage,
    ]
}

/// A part of the book that a flag leaves out.
pub open spec fn unless(suppressed: bool, part: Seq<BookEventView>) -> Seq<BookEventView> {
    if suppressed {
        Seq::empty()
    } else {
        part
    }
}

impl BuilderView {
    /// The halftitle as it stands at assembly: the one that was set, or one
    /// generated from the short title.
    pub open spec fn halftitle_at_assembly(self, g: GeneratedView) -> Seq<BookEventView> {
        if !self.no_halftitle && self.halftitle.len() == 0 {
            halftitle_division(g.halftitle)
        } else {
            self.halftitle
        }
    }

    /// The copyright page as it stands at assembly: the one that was set, or
    /// one generated from the metadata.
    pub open spec fn copyright_at_assembly(self, g: GeneratedView) -> Seq<BookEventView> {
        if !self.no_copyrightpage && self.copyright_page.len() == 0 {
            copyright_division(g.copyright_text, Some(g.copyright_title))
        } else {
            self.copyright_page
        }
    }

    /// Epigraphs and introductions: the epigraphs come first when the authors
    /// of the book wrote the introduction themselves.
    pub open spec fn epigraphs_and_introductions(self) -> Seq<BookEventView> {
        if self.metadata.no_introduction_authors() {
            self.epigraphs + self.introductions
        } else {
            self.introductions + self.epigraphs
        }
    }

    /// The structural pages at the head of the frontmatter.
    pub open spec fn structural_pages(self, g: GeneratedView) -> Seq<BookEventView> {
        unless(self.no_halftitle, self.halftitle_at_assembly(g)) + unless(
            self.no_titlepage,
            titlepage(g.title, g.subtitle, self.metadata.titlepage_contributors()),
        ) + unless(self.no_copyrightpage, self.copyright_at_assembly(g))
    }

    /// What follows the marker of the frontmatter.
    pub open spec fn frontmatter(self, g: GeneratedView) -> Seq<BookEventView> {
        self.structural_pages(g) + self.dedication + self.forewords
            + self.epigraphs_and_introductions() + self.prefaces
    }

    /// What follows the mainmatter, without the marker.
    pub open spec fn backmatter(self) -> Seq<BookEventView> {
        self.appendices + self.afterwords + self.acknowledgements + self.colophon
    }

    /// The marker of the backmatter, where there is any backmatter.
    pub open spec fn backmatter_marker(self) -> Seq<BookEventView> {
        if self.backmatter().len() > 0 {
            seq![BookEventView::BeginBackmatter]
        } else {
            Seq::empty()
        }
    }

    /// The whole stream: frontmatter, mainmatter in divisions, backmatter.
    pub open spec fn assembled(self, g: GeneratedView) -> Seq<BookEventView> {
        seq![BookEventView::BeginFrontmatter] + self.frontmatter(g) + seq![
            BookEventView::BeginMainmatter,
        ] + divided(self.mainmatter) + self.backmatter_marker() + self.backmatter()
    }

    /// The finished book.
    pub open spec fn book(self, g: GeneratedView) -> BookSrcView {
        BookSrcView {
            metadata: self.metadata,
            contents: self.assembled(g),
            expected_appendices_count: self.appendices_count as usize,
            expected_epigraph_count: self.epigraph_count,
        }
    }

    /// The builder after assembly: its parts are handed out. A halftitle or
    /// copyright page that was set and then suppressed stays behind.
    pub open spec fn emptied(self) -> BuilderView {
        BuilderView {
            halftitle: if self.no_halftitle {
                self.halftitle
            } else {
                Seq::empty()
            },
            copyright_page: if self.no_copyrightpage {
                self.copyright_page
            } else {
                Seq::empty()
            },
            dedication: Seq::empty(),
            forewords: Seq::empty(),
            epigraphs: Seq::empty(),
            introductions: Seq::empty(),
            prefaces: Seq::empty(),
            mainmatter: Seq::empty(),
            appendices: Seq::empty(),
            afterwords: Seq::empty(),
            colophon: Seq::empty(),
            acknowledgements: Seq::empty(),
            metadata: titled(Seq::empty()),
            image_dirs: Seq::empty(),
            appendices_count: self.appendices_count,
            epigraph_count: self.epigraph_count,
            no_titlepage: self.no_titlepage,
            no_copyrightpage: self.no_copyrightpage,
            no_halftitle: self.no_halftitle,
        }
    }
}

/// A titlepage from the tokens of title and subtitle.
pub fn make_titlepage(
    title: &Vec<Event>,
    subtitle: &Option<Vec<Event>>,
    contributors: Vec<(TitlePageContributorRole, Vec<String>)>,
) -> (r: Vec<BookEvent>)
    ensures
        r.deep_view() == titlepage(
            title.deep_view(),
            subtitle.deep_view(),
            contributors.deep_view(),
        ),
{
    proof {
        broadcast use group_views;

    }
    let mut contents: Vec<BookEvent> = Vec::new();
    contents.push(BookEvent::BeginTitlePage);
    contents.push(BookEvent::BeginTitlePageTitle);
    let line = parse_inline_plain(crate::sections::copy_events(title));
    append_lifted(&mut contents, &line);
    contents.push(BookEvent::EndTitlePageTitle);
    let ghost s1 = contents.deep_view();
    match subtitle {
        Some(s) => {
            contents.push(BookEvent::BeginTitlePageSubTitle);
            let line = parse_inline_plain(crate::sections::copy_events(s));
            append_lifted(&mut contents, &line);
            contents.push(BookEvent::EndTitlePageSubTitle);
            assert(contents.deep_view() =~= s1 + titlepage_subtitle(subtitle.deep_view()));
        },
        None => {
            assert(contents.deep_view() =~= s1 + titlepage_subtitle(subtitle.deep_view()));
        },
    }
    contents.push(BookEvent::TitlePageContributors(contributors));
    contents.push(BookEvent::EndTitlePage);
    assert(contents.deep_view() =~= titlepage(
        title.deep_view(),
        subtitle.deep_view(),
        contributors.deep_view(),
    ));
    contents
}

fn take_part(contents: &mut Vec<BookEvent>, part: &mut Vec<BookEvent>, suppressed: bool)
    ensures
        final(contents).deep_view() == old(contents).deep_view() + unless(
            suppressed,
            old(part).deep_view(),
        ),
        final(part).deep_view() == if suppressed {
            old(part).deep_view()
        } else {
            Seq::empty()
        },
{
    proof {
        broadcast use group_views;

    }
    if !suppressed {
        contents.append(part);
        assert(part.deep_view() =~= Seq::empty());
    } else {
        assert(contents.deep_view() =~= old(contents).deep_view() + Seq::empty());
    }
}

fn push_marker(contents: &mut Vec<BookEvent>, marker: BookEvent)
    ensures
        final(contents).deep_view() == old(contents).deep_view() + seq![marker.deep_view()],
{
    proof {
        broadcast use group_views;

    }
    contents.push(marker);
    assert(contents.deep_view() =~= old(contents).deep_view() + seq![marker.deep_view()]);
}

fn take_tokens(tokens: &mut Vec<Event>) -> (r: Vec<Event>)
    ensures
        r.deep_view() == old(tokens).deep_view(),
        final(tokens).deep_view() == Seq::<EventView>::empty(),
{
    proof {
        broadcast use group_views;

    }
    let mut out: Vec<Event> = Vec::new();
    out.append(tokens);
    assert(out.deep_view() =~= old(tokens).deep_view());
    assert(tokens.deep_view() =~= Seq::empty());
    out
}

fn no_dirs() -> (r: Vec<String>)
    ensures
        r.deep_view() == Seq::<Seq<char>>::empty(),
{
    let r: Vec<String> = Vec::new();
    assert(r.deep_view() =~= Seq::empty());
    r
}

fn no_events() -> (r: Vec<BookEvent>)
    ensures
        r.deep_view() == Seq::<BookEventView>::empty(),
{
    let r: Vec<BookEvent> = Vec::new();
    assert(r.deep_view() =~= Seq::empty());
    r
}

fn untitled() -> (r: Metadata)
    ensures
        r.deep_view() == titled(Seq::empty()),
{
    proof {
        reveal_strlit("");
        assert(""@ =~= Seq::<char>::empty());
    }
    Metadata::new("")
}

fn is_empty(part: &Vec<BookEvent>) -> (r: bool)
    ensures
        r == (part.deep_view().len() == 0),
{
    assert(part.deep_view().len() == part.len());
    part.len() == 0
}

impl BookSrcBuilder {
    /// Puts the structural pages behind the marker of the frontmatter,
    /// generating the halftitle and the copyright page where none was set.
    fn take_structural_pages(&mut self, contents: &mut Vec<BookEvent>, generated: Generated)
        ensures
            final(contents).deep_view() == old(contents).deep_view() + old(
                self,
            ).deep_view().structural_pages(generated.deep_view()),
            final(self).deep_view() == (BuilderView {
                halftitle: old(self).deep_view().emptied().halftitle,
                copyright_page: old(self).deep_view().emptied().copyright_page,
                ..old(self).deep_view()
            }),
    {
        let ghost b = self.deep_view();
        let ghost g = generated.deep_view();
        let Generated { title, subtitle, halftitle, copyright_title, copyright_text } = generated;
        let mut titlepage = if self.no_titlepage {
            no_events()
        } else {
            make_titlepage(&title, &subtitle, self.metadata.get_titlepage_contributors())
        };
        if !self.no_halftitle && is_empty(&self.halftitle) {
            self.halftitle = make_halftitle(halftitle);
        }
        if !self.no_copyrightpage && is_empty(&self.copyright_page) {
            self.copyright_page = make_copyright_division(copyright_text, Some(copyright_title));
        }
        assert(self.halftitle.deep_view() == b.halftitle_at_assembly(g));
        assert(self.copyright_page.deep_view() == b.copyright_at_assembly(g));
        take_part(contents, &mut self.halftitle, self.no_halftitle);
        take_part(contents, &mut titlepage, self.no_titlepage);
        take_part(contents, &mut self.copyright_page, self.no_copyrightpage);
        assert(contents.deep_view() =~= old(contents).deep_view() + b.structural_pages(g));
    }

    /// Puts the rest of the frontmatter behind the structural pages.
    fn take_frontmatter(&mut self, contents: &mut Vec<BookEvent>)
        ensures
            final(contents).deep_view() == old(contents).deep_view() + old(
                self,
            ).deep_view().dedication + old(self).deep_view().forewords + old(
                self,
            ).deep_view().epigraphs_and_introductions() + old(self).deep_view().prefaces,
            final(self).deep_view() == (BuilderView {
                dedication: Seq::empty(),
                forewords: Seq::empty(),
                epigraphs: Seq::empty(),
                introductions: Seq::empty(),
                prefaces: Seq::empty(),
                ..old(self).deep_view()
            }),
    {
        take_part(contents, &mut self.dedication, false);
        take_part(contents, &mut self.forewords, false);
        if self.metadata.has_no_introduction_authors() {
            take_part(contents, &mut self.epigraphs, false);
            take_part(contents, &mut self.introductions, false);
        } else {
            take_part(contents, &mut self.introductions, false);
            take_part(contents, &mut self.epigraphs, false);
        }
        take_part(contents, &mut self.prefaces, false);
        assert(contents.deep_view() =~= old(contents).deep_view() + old(
            self,
        ).deep_view().dedication + old(self).deep_view().forewords + old(
            self,
        ).deep_view().epigraphs_and_introductions() + old(self).deep_view().prefaces);
    }

    /// Puts the backmatter, behind its marker if there is any, at the end.
    fn take_backmatter(&mut self, contents: &mut Vec<BookEvent>)
        ensures
            final(contents).deep_view() == old(contents).deep_view() + old(
                self,
            ).deep_view().backmatter_marker() + old(self).deep_view().backmatter(),
            final(self).deep_view() == (BuilderView {
                appendices: Seq::empty(),
                afterwords: Seq::empty(),
                acknowledgements: Seq::empty(),
                colophon: Seq::empty(),
                ..old(self).deep_view()
            }),
    {
        let ghost b = self.deep_view();
        if !is_empty(&self.appendices) || !is_empty(&self.afterwords) || !is_empty(
            &self.acknowledgements,
        ) || !is_empty(&self.colophon) {
            push_marker(contents, BookEvent::BeginBackmatter);
        }
        assert(contents.deep_view() =~= old(contents).deep_view() + b.backmatter_marker());
        take_part(contents, &mut self.appendices, false);
        take_part(contents, &mut self.afterwords, false);
        take_part(contents, &mut self.acknowledgements, false);
        take_part(contents, &mut self.colophon, false);
        assert(contents.deep_view() =~= old(contents).deep_view() + b.backmatter_marker()
            + b.backmatter());
    }

    /// Assembles the book from what was accumulated and from the tokens of
    /// the texts that the metadata supplies. The parts come in their
    /// canonical order whatever the order in which they were added:
    /// frontmatter, mainmatter, then backmatter if there is any.
    pub fn assemble(&mut self, generated: Generated) -> (r: BookSrc)
        requires
            dividable(old(self).deep_view().mainmatter),
        ensures
            r.deep_view() == old(self).deep_view().book(generated.deep_view()),
            final(self).deep_view() == old(self).deep_view().emptied(),
            old(self).deep_view().wf() ==> well_assembled(r.deep_view()),
            old(self).deep_view().wf() ==> balanced(r.deep_view().contents) == balanced(
                divided(old(self).deep_view().mainmatter),
            ),
            old(self).deep_view().wf() && headings_paired(old(self).deep_view().mainmatter)
                ==> balanced(r.deep_view().contents),
    {
        let ghost b = self.deep_view();
        let ghost g = generated.deep_view();
        proof {
            if b.wf() {
                law_matter_order(b, g);
                law_expected_counts(b, g);
                law_balance_rests_on_mainmatter(b, g);
                if headings_paired(b.mainmatter) {
                    law_balance(b, g);
                }
            }
        }
        let mut contents = no_events();
        push_marker(&mut contents, BookEvent::BeginFrontmatter);
        self.take_structural_pages(&mut contents, generated);
        self.take_frontmatter(&mut contents);
        assert(contents.deep_view() =~= seq![BookEventView::BeginFrontmatter] + b.frontmatter(g));
        push_marker(&mut contents, BookEvent::BeginMainmatter);
        let mainmatter_tokens = take_tokens(&mut self.mainmatter);
        let mut mainmatter = divide_into_sections(mainmatter_tokens);
        take_part(&mut contents, &mut mainmatter, false);
        let ghost upto_main = contents.deep_view();
        self.take_backmatter(&mut contents);
        assert(contents.deep_view() =~= b.assembled(g));
        self.image_dirs = no_dirs();
        let mut metadata = untitled();
        core::mem::swap(&mut metadata, &mut self.metadata);
        BookSrc {
            metadata,
            contents,
            expected_epigraph_count: self.epigraph_count,
            expected_appendices_count: self.appendices_count as usize,
        }
    }
}

/// The current year, as the clock of the machine has it.
pub fn get_current_year() -> (r: String) {
    time_text("%Y")
}

/// Whether `tokens` is what the token source made of `text`.
pub open spec fn tokenized<F: Fn(&str) -> Vec<Event>>(
    tokenize: F,
    text: Seq<char>,
    tokens: Vec<Event>,
) -> bool {
    exists|s: &str| s@ == text && call_ensures(tokenize, (s,), tokens)
}

/// Whether `g` holds what the token source made of the texts that the
/// metadata supplies, for a book published in `year`.
pub open spec fn generated_from<F: Fn(&str) -> Vec<Event>>(
    tokenize: F,
    m: MetadataView,
    year: Seq<char>,
    g: Generated,
) -> bool {
    &&& tokenized(tokenize, m.title, g.title)
    &&& match m.subtitle {
        Some(s) => g.subtitle is Some && tokenized(tokenize, s, g.subtitle->0),
        None => g.subtitle is None,
    }
    &&& tokenized(tokenize, m.short_title(), g.halftitle)
    &&& tokenized(tokenize, m.short_title(), g.copyright_title)
    &&& tokenized(tokenize, m.copyright_page_text(year), g.copyright_text)
}

impl BookSrcBuilder {
    /// Has the token source read the texts that the metadata supplies.
    pub fn generate<F: Fn(&str) -> Vec<Event>>(&self, tokenize: &F, year: &str) -> (g: Generated)
        requires
            forall|s: &str| call_requires(*tokenize, (s,)),
        ensures
            generated_from(*tokenize, self.deep_view().metadata, year@, g),
    {
        let title = tokenize(self.metadata.get_title());
        let subtitle = match self.metadata.get_subtitle() {
            Some(s) => Some(tokenize(s)),
            None => None,
        };
        let halftitle = tokenize(self.metadata.get_short_title());
        let copyright_title = tokenize(self.metadata.get_short_title());
        let text = self.metadata.get_copyright_page_text(year);
        let copyright_text = tokenize(text.as_str());
        Generated { title, subtitle, halftitle, copyright_title, copyright_text }
    }

    /// Finishes the book: generates the structural pages that were neither
    /// set nor suppressed, with the help of the token source, and assembles
    /// the stream.
    pub fn process<F: Fn(&str) -> Vec<Event>>(&mut self, tokenize: F) -> (r: BookSrc)
        requires
            dividable(old(self).deep_view().mainmatter),
            forall|s: &str| call_requires(tokenize, (s,)),
        ensures
            exists|g: Generated, year: Seq<char>|
                generated_from(tokenize, old(self).deep_view().metadata, year, g) && r.deep_view()
                    == old(self).deep_view().book(g.deep_view()),
            final(self).deep_view() == old(self).deep_view().emptied(),
            old(self).deep_view().wf() ==> well_assembled(r.deep_view()),
            old(self).deep_view().wf() ==> balanced(r.deep_view().contents) == balanced(
                divided(old(self).deep_view().mainmatter),
            ),
            old(self).deep_view().wf() && headings_paired(old(self).deep_view().mainmatter)
                ==> balanced(r.deep_view().contents),
    {
        let year = get_current_year();
        let generated = self.generate(&tokenize, year.as_str());
        let ghost g = generated;
        let r = self.assemble(generated);
        assert(generated_from(tokenize, old(self).deep_view().metadata, year@, g) && r.deep_view()
            == old(self).deep_view().book(g.deep_view()));
        r
    }
}

/// A copy of a stream.
pub fn copy_stream(stream: &Vec<BookEvent>) -> (r: Vec<BookEvent>)
    ensures
        r.deep_view() == stream.deep_view(),
{
    let ghost all = stream.deep_view();
    let mut out: Vec<BookEvent> = Vec::new();
    let mut i: usize = 0;
    assert(all.len() == stream.len());
    while i < stream.len()
        invariant
            i <= stream.len(),
            all == stream.deep_view(),
            all.len() == stream.len(),
            out.deep_view() == all.take(i as int),
        decreases stream.len() - i,
    {
        let ghost before = out.deep_view();
        let copy = stream[i].clone();
        assert(copy.deep_view() == all[i as int]);
        out.push(copy);
        assert(out.deep_view() =~= before.push(all[i as int]));
        assert(all.take(i + 1) =~= all.take(i as int).push(all[i as int]));
        i += 1;
    }
    assert(all.take(stream.len() as int) =~= all);
    out
}

impl Clone for BookSrc {
    /// A copy of the book for a render of its own: every render uses up
    /// the book that it is given.
    fn clone(&self) -> (r: Self)
        ensures
            r.deep_view() == self.deep_view(),
    {
        BookSrc {
            metadata: self.metadata.clone(),
            contents: copy_stream(&self.contents),
            expected_appendices_count: self.expected_appendices_count,
            expected_epigraph_count: self.expected_epigraph_count,
        }
    }
}

} // verus!
