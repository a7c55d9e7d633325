//! What holds of every book that the accumulator assembles: its regions are
//! balanced, its matters come in order, and it ends as many epigraphs and
//! appendices as were added.

use crate::assembler::{titlepage, unless, GeneratedView};
use crate::balance::{
    closings, headings_paired, keeps_stack, lemma_calm_empty, lemma_copyright_division, lemma_count_of_none, lemma_count_of_one, lemma_divided_is_calm, lemma_halftitle_division, lemma_titlepage, no_matter, one_if,
};
use crate::book_event::{
    balanced, count_of, lemma_count_of_concat, lemma_stack_after_concat, stack_after,
    BookEventView, Region,
};
use crate::builder::{lemma_tallied_empty, lemma_tallied_joined, tallied, BuilderView};
use crate::events::EventView;
use crate::roles::{NumberFormat, SemanticRole};
use crate::sections::{
    chapter_close, chapter_headings, dividable, divide_fold, divided, heading_count,
    lemma_fold_counts, step_level_of, DivState, StepLevel,
};
use vstd::prelude::*;

verus! {

/// The place of a matter marker in the order of the matters.
pub open spec fn matter_rank(e: BookEventView) -> int {
    match e {
        BookEventView::BeginFrontmatter => 0,
        BookEventView::BeginMainmatter => 1,
        BookEventView::BeginBackmatter => 2,
        _ => -1,
    }
}

/// Whether the matters of a stream come in order: the stream begins with
/// the frontmatter, the mainmatter follows, and of any two matter markers
/// the earlier one is of the earlier matter, so that none occurs twice.
pub open spec fn matters_in_order(stream: Seq<BookEventView>) -> bool {
    &&& stream.len() > 0 && stream[0] == BookEventView::BeginFrontmatter
    &&& exists|i: int| 0 < i < stream.len() && stream[i] == BookEventView::BeginMainmatter
    &&& forall|i: int, j: int|
        0 <= i < j < stream.len() && (#[trigger] stream[i]).is_matter() && (
        #[trigger] stream[j]).is_matter() ==> matter_rank(stream[i]) < matter_rank(stream[j])
}

/// The mainmatter in divisions holds no matter marker and closes chapters
/// and parts only, whatever its headings are.
pub proof fn lemma_divide_fold_marks(level: StepLevel, events: Seq<EventView>, role: SemanticRole)
    requires
        role != SemanticRole::Chapter,
        role != SemanticRole::Part,
    ensures
        no_matter(divide_fold(level, events).1),
        closings(divide_fold(level, events).1, role) == 0,
    decreases events.len(),
{
    if events.len() > 0 {
        lemma_divide_fold_marks(level, events.drop_last(), role);
        let (st, out) = divide_fold(level, events.drop_last());
        let more = crate::sections::divide_step(level, st, events.last()).1;
        lemma_count_of_concat(out, more, BookEventView::EndSemantic(role));
        lemma_count_of_none(more, BookEventView::EndSemantic(role));
        assert(no_matter(out + more));
    }
}

/// The mainmatter in divisions holds no matter marker and closes chapters
/// and parts only.
pub proof fn lemma_divided_marks(events: Seq<EventView>, role: SemanticRole)
    requires
        role != SemanticRole::Chapter,
        role != SemanticRole::Part,
    ensures
        no_matter(divided(events)),
        closings(divided(events), role) == 0,
{
    let level = step_level_of(events);
    lemma_divide_fold_marks(level, events, role);
    let (st, out) = divide_fold(level, events);
    lemma_count_of_concat(out, chapter_close(st.in_chapter), BookEventView::EndSemantic(role));
    lemma_count_of_none(chapter_close(st.in_chapter), BookEventView::EndSemantic(role));
    assert(no_matter(divided(events)));
}

/// The structural pages of a builder that meets its invariant are tallied
/// by zero.
pub proof fn lemma_structural_pages(b: BuilderView, g: GeneratedView)
    requires
        b.wf(),
    ensures
        tallied(b.structural_pages(g), 0, 0),
{
    let h = unless(b.no_halftitle, b.halftitle_at_assembly(g));
    let t = unless(
        b.no_titlepage,
        titlepage(g.title, g.subtitle, b.metadata.titlepage_contributors()),
    );
    let c = unless(b.no_copyrightpage, b.copyright_at_assembly(g));
    lemma_tallied_empty();
    lemma_halftitle_division(g.halftitle, SemanticRole::Epigraph);
    lemma_halftitle_division(g.halftitle, SemanticRole::Appendix);
    lemma_titlepage(
        g.title,
        g.subtitle,
        b.metadata.titlepage_contributors(),
        SemanticRole::Epigraph,
    );
    lemma_titlepage(
        g.title,
        g.subtitle,
        b.metadata.titlepage_contributors(),
        SemanticRole::Appendix,
    );
    lemma_copyright_division(g.copyright_text, Some(g.copyright_title), SemanticRole::Epigraph);
    lemma_copyright_division(g.copyright_text, Some(g.copyright_title), SemanticRole::Appendix);
    assert(tallied(h, 0, 0));
    assert(tallied(t, 0, 0));
    assert(tallied(c, 0, 0));
    lemma_tallied_joined(h, t, 0, 0, 0, 0);
    lemma_tallied_joined(h + t, c, 0, 0, 0, 0);
}

/// The frontmatter of a builder that meets its invariant ends every
/// epigraph that was added, and no appendix.
pub proof fn lemma_frontmatter(b: BuilderView, g: GeneratedView)
    requires
        b.wf(),
    ensures
        tallied(b.frontmatter(g), b.epigraph_count as nat, 0),
{
    let e = b.epigraph_count as nat;
    lemma_structural_pages(b, g);
    let s1 = b.structural_pages(g);
    lemma_tallied_joined(s1, b.dedication, 0, 0, 0, 0);
    lemma_tallied_joined(s1 + b.dedication, b.forewords, 0, 0, 0, 0);
    if b.metadata.no_introduction_authors() {
        lemma_tallied_joined(b.epigraphs, b.introductions, e, 0, 0, 0);
    } else {
        lemma_tallied_joined(b.introductions, b.epigraphs, 0, 0, e, 0);
    }
    lemma_tallied_joined(
        s1 + b.dedication + b.forewords,
        b.epigraphs_and_introductions(),
        0,
        0,
        e,
        0,
    );
    lemma_tallied_joined(
        s1 + b.dedication + b.forewords + b.epigraphs_and_introductions(),
        b.prefaces,
        e,
        0,
        0,
        0,
    );
}

/// The backmatter of a builder that meets its invariant ends every appendix
/// that was added, and no epigraph.
pub proof fn lemma_backmatter(b: BuilderView)
    requires
        b.wf(),
    ensures
        tallied(b.backmatter(), 0, b.appendices_count as nat),
{
    let p = b.appendices_count as nat;
    lemma_tallied_joined(b.appendices, b.afterwords, 0, p, 0, 0);
    lemma_tallied_joined(b.appendices + b.afterwords, b.acknowledgements, 0, p, 0, 0);
    lemma_tallied_joined(
        b.appendices + b.afterwords + b.acknowledgements,
        b.colophon,
        0,
        p,
        0,
        0,
    );
}

/// A matter marker leaves the open regions alone and ends no division.
pub proof fn lemma_matter_marker(e: BookEventView, role: SemanticRole)
    requires
        e.is_matter(),
    ensures
        keeps_stack(seq![e]),
        closings(seq![e], role) == 0,
{
    assert forall|t: Seq<Region>| #[trigger] stack_after(seq![e], t) == Some(t) by {
        reveal_with_fuel(stack_after, 2);
        assert(seq![e].drop_first().len() == 0);
    }
    lemma_count_of_one(e, BookEventView::EndSemantic(role));
}

/// Two streams that keep the stack do so in a row.
pub proof fn lemma_keeps_joined(a: Seq<BookEventView>, b: Seq<BookEventView>)
    requires
        keeps_stack(a),
        keeps_stack(b),
    ensures
        keeps_stack(a + b),
{
    assert forall|t: Seq<Region>| #[trigger] stack_after(a + b, t) == Some(t) by {
        assert(stack_after(a, t) == Some(t));
        assert(stack_after(b, t) == Some(t));
        lemma_stack_after_concat(a, b, t);
    }
}

/// Balance: in every book that is assembled from a builder that meets its
/// invariant and whose mainmatter has its headings in pairs, a validator
/// that pushes on every `Begin` and pops on the matching `End` never
/// underflows, never meets a crossing region, and ends with nothing open.
pub proof fn law_balance(b: BuilderView, g: GeneratedView)
    requires
        b.wf(),
        headings_paired(b.mainmatter),
    ensures
        balanced(b.assembled(g)),
{
    let front = seq![BookEventView::BeginFrontmatter];
    let main = seq![BookEventView::BeginMainmatter];
    lemma_matter_marker(BookEventView::BeginFrontmatter, SemanticRole::Epigraph);
    lemma_matter_marker(BookEventView::BeginMainmatter, SemanticRole::Epigraph);
    lemma_frontmatter(b, g);
    lemma_backmatter(b);
    lemma_divided_is_calm(b.mainmatter, SemanticRole::Epigraph);
    if b.backmatter().len() > 0 {
        lemma_matter_marker(BookEventView::BeginBackmatter, SemanticRole::Epigraph);
    } else {
        lemma_calm_empty(SemanticRole::Epigraph);
    }
    lemma_keeps_joined(front, b.frontmatter(g));
    lemma_keeps_joined(front + b.frontmatter(g), main);
    lemma_keeps_joined(front + b.frontmatter(g) + main, divided(b.mainmatter));
    lemma_keeps_joined(
        front + b.frontmatter(g) + main + divided(b.mainmatter),
        b.backmatter_marker(),
    );
    lemma_keeps_joined(
        front + b.frontmatter(g) + main + divided(b.mainmatter) + b.backmatter_marker(),
        b.backmatter(),
    );
    assert(stack_after(b.assembled(g), Seq::empty()) == Some(Seq::<Region>::empty()));
}

/// Balance rests on the mainmatter alone: whatever a builder that meets
/// its invariant holds, the book that is assembled from it is balanced
/// exactly where its mainmatter in divisions is. The pages and divisions
/// around the mainmatter never underflow the validator, never cross, and
/// leave nothing open.
pub proof fn law_balance_rests_on_mainmatter(b: BuilderView, g: GeneratedView)
    requires
        b.wf(),
    ensures
        balanced(b.assembled(g)) == balanced(divided(b.mainmatter)),
{
    let front = seq![BookEventView::BeginFrontmatter];
    let main = seq![BookEventView::BeginMainmatter];
    let head = front + b.frontmatter(g) + main;
    let middle = divided(b.mainmatter);
    let tail = b.backmatter_marker() + b.backmatter();
    lemma_matter_marker(BookEventView::BeginFrontmatter, SemanticRole::Epigraph);
    lemma_matter_marker(BookEventView::BeginMainmatter, SemanticRole::Epigraph);
    lemma_frontmatter(b, g);
    lemma_backmatter(b);
    if b.backmatter().len() > 0 {
        lemma_matter_marker(BookEventView::BeginBackmatter, SemanticRole::Epigraph);
    } else {
        lemma_calm_empty(SemanticRole::Epigraph);
    }
    lemma_keeps_joined(front, b.frontmatter(g));
    lemma_keeps_joined(front + b.frontmatter(g), main);
    lemma_keeps_joined(b.backmatter_marker(), b.backmatter());
    let empty = Seq::<Region>::empty();
    assert(stack_after(head, empty) == Some(empty));
    lemma_stack_after_concat(head, middle, empty);
    lemma_stack_after_concat(head + middle, tail, empty);
    match stack_after(middle, empty) {
        Some(s) => {
            assert(stack_after(tail, s) == Some(s));
        },
        None => {},
    }
    assert(b.assembled(g) =~= head + middle + tail);
}

/// Matter ordering: every assembled book begins with the frontmatter, the
/// mainmatter follows it, the backmatter follows the mainmatter where there
/// is any, and no matter begins twice.
pub proof fn law_matter_order(b: BuilderView, g: GeneratedView)
    requires
        b.wf(),
    ensures
        matters_in_order(b.assembled(g)),
        count_of(b.assembled(g), BookEventView::BeginBackmatter) == one_if(
            b.backmatter().len() > 0,
        ),
{
    let s = b.assembled(g);
    let f = b.frontmatter(g);
    let m = divided(b.mainmatter);
    let k = b.backmatter_marker();
    let back = b.backmatter();
    let at_main: int = 1 + f.len() as int;
    lemma_frontmatter(b, g);
    lemma_backmatter(b);
    lemma_divided_marks(b.mainmatter, SemanticRole::Epigraph);
    assert(s[0] == BookEventView::BeginFrontmatter);
    assert(s[at_main] == BookEventView::BeginMainmatter);
    assert forall|i: int| 0 <= i < s.len() && (#[trigger] s[i]).is_matter() implies (i == 0
        && matter_rank(s[i]) == 0) || (i == at_main && matter_rank(s[i]) == 1) || (i == at_main
        + 1 + m.len() && k.len() == 1 && matter_rank(s[i]) == 2) by {
        if 0 < i < at_main {
            assert(s[i] == f[i - 1]);
        } else if at_main < i < at_main + 1 + m.len() {
            assert(s[i] == m[i - at_main - 1]);
        } else if at_main + 1 + m.len() <= i < at_main + 1 + m.len() + k.len() {
            assert(s[i] == k[i - at_main - 1 - m.len()]);
        } else if at_main + 1 + m.len() + k.len() <= i {
            assert(s[i] == back[i - at_main - 1 - m.len() - k.len()]);
        }
    }
    let x = BookEventView::BeginBackmatter;
    lemma_count_of_none(seq![BookEventView::BeginFrontmatter], x);
    lemma_count_of_none(seq![BookEventView::BeginMainmatter], x);
    lemma_count_of_none(f, x);
    lemma_count_of_none(m, x);
    lemma_count_of_none(back, x);
    if back.len() > 0 {
        lemma_count_of_one(x, x);
    } else {
        lemma_count_of_none(k, x);
    }
    let front = seq![BookEventView::BeginFrontmatter];
    let main = seq![BookEventView::BeginMainmatter];
    lemma_count_of_concat(front, f, x);
    lemma_count_of_concat(front + f, main, x);
    lemma_count_of_concat(front + f + main, m, x);
    lemma_count_of_concat(front + f + main + m, k, x);
    lemma_count_of_concat(front + f + main + m + k, back, x);
}

/// Round trip of the counts: an assembled book ends exactly as many
/// epigraphs as its expected epigraph count says, which is the number of
/// epigraphs that were added, and likewise for appendices.
pub proof fn law_expected_counts(b: BuilderView, g: GeneratedView)
    requires
        b.wf(),
    ensures
        closings(b.assembled(g), SemanticRole::Epigraph) == b.book(g).expected_epigraph_count,
        closings(b.assembled(g), SemanticRole::Appendix) == b.book(g).expected_appendices_count,
        b.book(g).expected_epigraph_count == b.epigraph_count,
        b.book(g).expected_appendices_count == b.appendices_count,
{
    lemma_frontmatter(b, g);
    lemma_backmatter(b);
    lemma_closings_assembled(b, g, SemanticRole::Epigraph);
    lemma_closings_assembled(b, g, SemanticRole::Appendix);
}

/// What an assembled book closes of a role that is neither chapter nor part
/// is what its frontmatter and its backmatter close.
proof fn lemma_closings_assembled(b: BuilderView, g: GeneratedView, role: SemanticRole)
    requires
        role != SemanticRole::Chapter,
        role != SemanticRole::Part,
    ensures
        closings(b.assembled(g), role) == closings(b.frontmatter(g), role) + closings(
            b.backmatter(),
            role,
        ),
{
    let x = BookEventView::EndSemantic(role);
    let front = seq![BookEventView::BeginFrontmatter];
    let main = seq![BookEventView::BeginMainmatter];
    let f = b.frontmatter(g);
    let m = divided(b.mainmatter);
    let k = b.backmatter_marker();
    let back = b.backmatter();
    lemma_divided_marks(b.mainmatter, role);
    lemma_count_of_none(front, x);
    lemma_count_of_none(main, x);
    lemma_count_of_none(k, x);
    lemma_count_of_concat(front, f, x);
    lemma_count_of_concat(front + f, main, x);
    lemma_count_of_concat(front + f + main, m, x);
    lemma_count_of_concat(front + f + main + m, k, x);
    lemma_count_of_concat(front + f + main + m + k, back, x);
}

/// The numbers of the labels of a stream that are shown in arabic
/// numerals, as the labels of chapters are, in the order of the stream.
pub open spec fn chapter_numbers(stream: Seq<BookEventView>) -> Seq<int>
    decreases stream.len(),
{
    if stream.len() == 0 {
        Seq::empty()
    } else {
        match stream.last() {
            BookEventView::DivisionHeaderLabel {
                text: _,
                number: Some(n),
                number_format: NumberFormat::Arabic,
            } => chapter_numbers(stream.drop_last()).push(n as int),
            _ => chapter_numbers(stream.drop_last()),
        }
    }
}

/// The numbers from one to `n`.
pub open spec fn one_to(n: nat) -> Seq<int> {
    Seq::new(n, |i: int| i + 1)
}

/// How many divisions of `role` begin in a stream.
pub open spec fn openings(stream: Seq<BookEventView>, role: SemanticRole) -> nat {
    count_of(stream, BookEventView::BeginSemantic(role))
}

proof fn lemma_chapter_numbers_concat(a: Seq<BookEventView>, b: Seq<BookEventView>)
    ensures
        chapter_numbers(a + b) == chapter_numbers(a) + chapter_numbers(b),
    decreases b.len(),
{
    if b.len() == 0 {
        assert(a + b =~= a);
        assert(chapter_numbers(a) + Seq::<int>::empty() =~= chapter_numbers(a));
    } else {
        assert((a + b).drop_last() =~= a + b.drop_last());
        lemma_chapter_numbers_concat(a, b.drop_last());
        assert((a + b).last() == b.last());
        match b.last() {
            BookEventView::DivisionHeaderLabel {
                text: _,
                number: Some(n),
                number_format: NumberFormat::Arabic,
            } => {
                assert(chapter_numbers(a) + chapter_numbers(b.drop_last()).push(n as int)
                    =~= (chapter_numbers(a) + chapter_numbers(b.drop_last())).push(n as int));
            },
            _ => {},
        }
    }
}

/// What the classifier has written so far numbers its chapters from one
/// on, and begins as many chapters and parts as it has counted.
proof fn lemma_divide_fold_numbers(level: StepLevel, events: Seq<EventView>)
    requires
        divide_fold(level, events).0.chapters <= 255,
    ensures
        chapter_numbers(divide_fold(level, events).1) == one_to(
            divide_fold(level, events).0.chapters,
        ),
        openings(divide_fold(level, events).1, SemanticRole::Chapter) == divide_fold(
            level,
            events,
        ).0.chapters,
        openings(divide_fold(level, events).1, SemanticRole::Part) == divide_fold(
            level,
            events,
        ).0.parts,
    decreases events.len(),
{
    if events.len() == 0 {
        assert(one_to(0) =~= Seq::<int>::empty());
    } else {
        let rest = events.drop_last();
        let (st, out) = divide_fold(level, rest);
        let (st2, more) = crate::sections::divide_step(level, st, events.last());
        assert(st.chapters <= st2.chapters);
        lemma_divide_fold_numbers(level, rest);
        lemma_chapter_numbers_concat(out, more);
        lemma_count_of_concat(out, more, BookEventView::BeginSemantic(SemanticRole::Chapter));
        lemma_count_of_concat(out, more, BookEventView::BeginSemantic(SemanticRole::Part));
        lemma_step_numbers(level, st, events.last());
        assert(one_to(st.chapters) + chapter_numbers(more) =~= one_to(st2.chapters));
    }
}

/// What one token adds to the numbers of the chapters and to the divisions
/// that begin.
proof fn lemma_step_numbers(level: StepLevel, st: DivState, e: EventView)
    requires
        st.chapters < 255 || crate::sections::divide_step(level, st, e).0.chapters == st.chapters,
    ensures
        chapter_numbers(crate::sections::divide_step(level, st, e).1) == if crate::sections::divide_step(
            level,
            st,
            e,
        ).0.chapters == st.chapters {
            Seq::<int>::empty()
        } else {
            seq![(st.chapters + 1) as int]
        },
        openings(crate::sections::divide_step(level, st, e).1, SemanticRole::Chapter)
            == crate::sections::divide_step(level, st, e).0.chapters - st.chapters,
        openings(crate::sections::divide_step(level, st, e).1, SemanticRole::Part)
            == crate::sections::divide_step(level, st, e).0.parts - st.parts,
{
    let (st2, more) = crate::sections::divide_step(level, st, e);
    let closing = chapter_close(st.in_chapter);
    let chapter = BookEventView::BeginSemantic(SemanticRole::Chapter);
    let part = BookEventView::BeginSemantic(SemanticRole::Part);
    lemma_count_of_none(closing, chapter);
    lemma_count_of_none(closing, part);
    assert(chapter_numbers(closing) =~= Seq::<int>::empty()) by {
        reveal_with_fuel(chapter_numbers, 2);
        if st.in_chapter {
            assert(closing.drop_last().len() == 0);
        }
    }
    if st2.chapters != st.chapters || st2.parts != st.parts {
        let opening = more.skip(closing.len() as int);
        assert(more =~= closing + opening);
        lemma_chapter_numbers_concat(closing, opening);
        lemma_count_of_concat(closing, opening, chapter);
        lemma_count_of_concat(closing, opening, part);
        assert(opening.len() == 3);
        let o1 = seq![opening[0]];
        let o2 = seq![opening[1]];
        let o3 = seq![opening[2]];
        assert(opening =~= o1 + o2 + o3);
        lemma_chapter_numbers_concat(o1, o2);
        lemma_chapter_numbers_concat(o1 + o2, o3);
        lemma_count_of_concat(o1, o2, chapter);
        lemma_count_of_concat(o1 + o2, o3, chapter);
        lemma_count_of_concat(o1, o2, part);
        lemma_count_of_concat(o1 + o2, o3, part);
        lemma_count_of_one(opening[0], chapter);
        lemma_count_of_one(opening[1], chapter);
        lemma_count_of_one(opening[2], chapter);
        lemma_count_of_one(opening[0], part);
        lemma_count_of_one(opening[1], part);
        lemma_count_of_one(opening[2], part);
        lemma_numbers_of_one(opening[0]);
        lemma_numbers_of_one(opening[1]);
        lemma_numbers_of_one(opening[2]);
        assert(chapter_numbers(opening) =~= if st2.chapters == st.chapters {
            Seq::<int>::empty()
        } else {
            seq![(st.chapters + 1) as int]
        });
        assert(Seq::<int>::empty() + chapter_numbers(opening) =~= chapter_numbers(opening));
    } else {
        lemma_count_of_none(more, chapter);
        lemma_count_of_none(more, part);
        lemma_numbers_of_none(more);
    }
}

/// The chapter numbers of a stream of one event.
proof fn lemma_numbers_of_one(e: BookEventView)
    ensures
        chapter_numbers(seq![e]) == match e {
            BookEventView::DivisionHeaderLabel {
                text: _,
                number: Some(n),
                number_format: NumberFormat::Arabic,
            } => seq![n as int],
            _ => Seq::<int>::empty(),
        },
{
    reveal_with_fuel(chapter_numbers, 2);
    assert(seq![e].drop_last().len() == 0);
    assert(Seq::<int>::empty().push(0) =~= seq![0int]);
    match e {
        BookEventView::DivisionHeaderLabel {
            text: _,
            number: Some(n),
            number_format: NumberFormat::Arabic,
        } => {
            assert(Seq::<int>::empty().push(n as int) =~= seq![n as int]);
        },
        _ => {},
    }
}

/// A stream without labels has no chapter numbers.
proof fn lemma_numbers_of_none(a: Seq<BookEventView>)
    requires
        forall|i: int| 0 <= i < a.len() ==> !((#[trigger] a[i]) is DivisionHeaderLabel),
    ensures
        chapter_numbers(a) == Seq::<int>::empty(),
    decreases a.len(),
{
    if a.len() > 0 {
        assert(!(a[a.len() - 1] is DivisionHeaderLabel));
        assert forall|i: int| 0 <= i < a.drop_last().len() implies !((
        #[trigger] a.drop_last()[i]) is DivisionHeaderLabel) by {
            assert(a.drop_last()[i] == a[i]);
        }
        lemma_numbers_of_none(a.drop_last());
    }
}

/// Continuous chapter numbering: the chapters of a book are numbered by
/// one counter from one on, in the order in which they stand, and a new
/// part does not begin the count again.
pub proof fn law_chapters_numbered_continuously(events: Seq<EventView>)
    requires
        dividable(events),
    ensures
        chapter_numbers(divided(events)) == one_to(chapter_headings(events)),
{
    let level = step_level_of(events);
    lemma_fold_counts(level, events);
    lemma_divide_fold_numbers(level, events);
    let (st, out) = divide_fold(level, events);
    lemma_chapter_numbers_concat(out, chapter_close(st.in_chapter));
    lemma_numbers_of_none(chapter_close(st.in_chapter));
    assert(chapter_numbers(out) + Seq::<int>::empty() =~= chapter_numbers(out));
}

/// Division classification: where no heading of the second level occurs,
/// every heading of the first level begins a chapter and there are no
/// parts; where one occurs, every heading of the first level begins a part
/// and every heading of the second level begins a chapter.
pub proof fn law_division_classification(events: Seq<EventView>)
    requires
        dividable(events),
    ensures
        heading_count(events, 2) == 0 ==> openings(divided(events), SemanticRole::Part) == 0
            && openings(divided(events), SemanticRole::Chapter) == heading_count(events, 1),
        heading_count(events, 2) > 0 ==> openings(divided(events), SemanticRole::Part)
            == heading_count(events, 1) && openings(divided(events), SemanticRole::Chapter)
            == heading_count(events, 2),
{
    let level = step_level_of(events);
    lemma_fold_counts(level, events);
    lemma_divide_fold_numbers(level, events);
    let (st, out) = divide_fold(level, events);
    let closing = chapter_close(st.in_chapter);
    lemma_count_of_concat(out, closing, BookEventView::BeginSemantic(SemanticRole::Chapter));
    lemma_count_of_concat(out, closing, BookEventView::BeginSemantic(SemanticRole::Part));
    lemma_count_of_none(closing, BookEventView::BeginSemantic(SemanticRole::Chapter));
    lemma_count_of_none(closing, BookEventView::BeginSemantic(SemanticRole::Part));
}

} // verus!
