//! The table of contents as a tree: each entry is put under the nearest
//! entry before it that has a lower level, and the tree is written as
//! nested lists.

use crate::seqs::{group_views, views};
use crate::text::owned;
use vstd::prelude::*;

verus! {

broadcast use group_views;

/// An entry of the table of contents: a leaf, or a branch with the
/// indices of the entries below it.
#[derive(Debug, PartialEq, Eq)]
pub enum TE {
    Leaf { idx: usize, level: usize, parent: Option<usize>, href: String, text: String },
    Branch {
        idx: usize,
        level: usize,
        parent: Option<usize>,
        href: String,
        text: String,
        children: Vec<usize>,
    },
}

/// An entry as a value: `children` is `None` for a leaf.
pub struct EntryView {
    pub idx: usize,
    pub level: usize,
    pub parent: Option<usize>,
    pub href: Seq<char>,
    pub text: Seq<char>,
    pub children: Option<Seq<usize>>,
}

impl DeepView for TE {
    type V = EntryView;

    open spec fn deep_view(&self) -> EntryView {
        match *self {
            TE::Leaf { idx, level, parent, href, text } => EntryView {
                idx,
                level,
                parent,
                href: href@,
                text: text@,
                children: None,
            },
            TE::Branch { idx, level, parent, href, text, children } => EntryView {
                idx,
                level,
                parent,
                href: href@,
                text: text@,
                children: Some(children@),
            },
        }
    }
}

impl EntryView {
    /// The indices of the entries below this one.
    pub open spec fn below(self) -> Seq<usize> {
        match self.children {
            Some(c) => c,
            None => Seq::empty(),
        }
    }

    /// This entry with one more entry below it.
    pub open spec fn with_child(self, child: usize) -> EntryView {
        EntryView { children: Some(self.below().push(child)), ..self }
    }
}

/// The last of the first `n` entries whose level is under `level`.
pub open spec fn last_below(entries: Seq<EntryView>, level: usize, n: int) -> Option<usize>
    decreases n,
{
    if n <= 0 {
        None
    } else if entries[n - 1].level < level {
        Some((n - 1) as usize)
    } else {
        last_below(entries, level, n - 1)
    }
}

/// The entries with a new leaf at their end, put under the last entry of a
/// lower level where there is one.
pub open spec fn added(entries: Seq<EntryView>, href: Seq<char>, level: usize, text: Seq<char>) -> Seq<
    EntryView,
> {
    let idx = entries.len() as usize;
    let parent = last_below(entries, level, entries.len() as int);
    let leaf = EntryView { idx, level, parent, href, text, children: None };
    (match parent {
        Some(p) => entries.update(p as int, entries[p as int].with_child(idx)),
        None => entries,
    }).push(leaf)
}

/// Every entry knows its place, lies below an earlier entry or none, and
/// has only later entries below it.
pub open spec fn tree(entries: Seq<EntryView>) -> bool {
    &&& entries.len() <= usize::MAX
    &&& forall|i: int| 0 <= i < entries.len() ==> (#[trigger] entries[i]).idx == i
    &&& forall|i: int, k: int|
        0 <= i < entries.len() && 0 <= k < entries[i].below().len() ==> i
            < #[trigger] entries[i].below()[k] < entries.len()
}

pub proof fn lemma_last_below(entries: Seq<EntryView>, level: usize, n: int)
    requires
        0 <= n <= entries.len() <= usize::MAX,
    ensures
        last_below(entries, level, n) is Some ==> last_below(entries, level, n)->0 < n,
    decreases n,
{
    if n > 0 && !(entries[n - 1].level < level) {
        lemma_last_below(entries, level, n - 1);
    }
}

/// Adding an entry makes the table longer by one.
pub proof fn lemma_added_len(
    entries: Seq<EntryView>,
    href: Seq<char>,
    level: usize,
    text: Seq<char>,
)
    requires
        entries.len() <= usize::MAX,
    ensures
        added(entries, href, level, text).len() == entries.len() + 1,
{
    lemma_last_below(entries, level, entries.len() as int);
}

/// Adding an entry to a tree gives a tree.
pub proof fn law_added_is_tree(
    entries: Seq<EntryView>,
    href: Seq<char>,
    level: usize,
    text: Seq<char>,
)
    requires
        tree(entries),
        entries.len() < usize::MAX,
    ensures
        tree(added(entries, href, level, text)),
{
    let after = added(entries, href, level, text);
    let n = entries.len() as int;
    lemma_last_below(entries, level, n);
    let parent = last_below(entries, level, n);
    assert forall|i: int, k: int| 0 <= i < after.len() && 0 <= k < after[i].below().len() implies i
        < #[trigger] after[i].below()[k] < after.len() by {
        if i < n {
            if parent == Some(i as usize) {
                if k < entries[i].below().len() {
                    assert(after[i].below()[k] == entries[i].below()[k]);
                }
            } else {
                assert(after[i] == entries[i]);
                assert(after[i].below()[k] == entries[i].below()[k]);
            }
        }
    }
}

/// An entry as it is written: its link, and, for a branch, the list of
/// the entries below it.
pub open spec fn entry_text(entries: Seq<EntryView>, i: int) -> Seq<char>
    decreases entries.len() - i, 1int, 0int,
{
    if 0 <= i < entries.len() {
        let link = "<li>\n<a href=\""@ + entries[i].href + "\">"@ + entries[i].text + "</a>\n"@;
        match entries[i].children {
            None => link + "</li>"@,
            Some(c) => link + "<ol>\n"@ + children_text(entries, i, c.len() as int)
                + "</ol>\n</li>"@,
        }
    } else {
        Seq::empty()
    }
}

/// The first `k` of the entries below the `i`th, as they are written.
pub open spec fn children_text(entries: Seq<EntryView>, i: int, k: int) -> Seq<char>
    decreases entries.len() - i, 0int, k,
{
    if 0 <= i < entries.len() && 0 < k <= entries[i].below().len() {
        let c = entries[i].below()[k - 1] as int;
        children_text(entries, i, k - 1) + (if i < c < entries.len() {
            seq!['\t'] + entry_text(entries, c) + seq!['\n']
        } else {
            Seq::empty()
        })
    } else {
        Seq::empty()
    }
}

/// Those of the first `n` entries that lie below no other, as they are
/// written.
pub open spec fn top_text(entries: Seq<EntryView>, n: int) -> Seq<char>
    decreases n,
{
    if n <= 0 {
        Seq::empty()
    } else {
        top_text(entries, n - 1) + (if entries[n - 1].parent is None {
            seq!['\n'] + entry_text(entries, n - 1)
        } else {
            Seq::empty()
        })
    }
}

/// The whole table as it is written.
pub open spec fn table_text(entries: Seq<EntryView>) -> Seq<char> {
    "<ol>"@ + top_text(entries, entries.len() as int) + "\n</ol>"@
}

fn copy_indices(v: &Vec<usize>) -> (r: Vec<usize>)
    ensures
        r@ == v@,
{
    let mut out: Vec<usize> = Vec::new();
    let mut i: usize = 0;
    while i < v.len()
        invariant
            i <= v.len(),
            out@ == v@.take(i as int),
        decreases v.len() - i,
    {
        out.push(v[i]);
        assert(v@.take(i + 1) =~= v@.take(i as int).push(v@[i as int]));
        i += 1;
    }
    assert(v@.take(v@.len() as int) =~= v@);
    out
}

impl TE {
    /// The level of the entry.
    pub fn get_level(&self) -> (r: usize)
        ensures
            r == self.deep_view().level,
    {
        match self {
            TE::Leaf { level, .. } => *level,
            TE::Branch { level, .. } => *level,
        }
    }

    /// The index of the entry that this one lies below.
    pub fn get_parent_idx(&self) -> (r: Option<usize>)
        ensures
            r == self.deep_view().parent,
    {
        match self {
            TE::Leaf { parent, .. } => *parent,
            TE::Branch { parent, .. } => *parent,
        }
    }

    /// The text of the entry.
    pub fn get_text(&self) -> (r: &str)
        ensures
            r@ == self.deep_view().text,
    {
        match self {
            TE::Leaf { text, .. } => text.as_str(),
            TE::Branch { text, .. } => text.as_str(),
        }
    }

    /// The indices of the entries below a branch.
    pub fn get_children_indices(&self) -> (r: Option<Vec<usize>>)
        ensures
            r.deep_view() == self.deep_view().children,
    {
        match self {
            TE::Leaf { .. } => None,
            TE::Branch { children, .. } => Some(copy_indices(children)),
        }
    }

    /// This entry as a branch with one more entry below it.
    pub fn with_child(&self, child_idx: usize) -> (r: TE)
        ensures
            r.deep_view() == self.deep_view().with_child(child_idx),
    {
        match self {
            TE::Branch { idx, level, parent, href, text, children } => {
                let mut new_children = copy_indices(children);
                new_children.push(child_idx);
                TE::Branch {
                    idx: *idx,
                    level: *level,
                    parent: *parent,
                    href: owned(href.as_str()),
                    text: owned(text.as_str()),
                    children: new_children,
                }
            },
            TE::Leaf { idx, level, parent, href, text } => {
                let mut new_children: Vec<usize> = Vec::new();
                new_children.push(child_idx);
                assert(new_children@ =~= Seq::<usize>::empty().push(child_idx));
                TE::Branch {
                    idx: *idx,
                    level: *level,
                    parent: *parent,
                    href: owned(href.as_str()),
                    text: owned(text.as_str()),
                    children: new_children,
                }
            },
        }
    }
}

/// The entries of a table of contents, in the order of the book.
#[derive(Debug)]
pub struct TEManager {
    pub entries: Vec<TE>,
}

impl DeepView for TEManager {
    type V = Seq<EntryView>;

    open spec fn deep_view(&self) -> Seq<EntryView> {
        views(self.entries@)
    }
}

impl TEManager {
    /// A table without entries.
    pub fn new() -> (r: Self)
        ensures
            r.deep_view() == Seq::<EntryView>::empty(),
            tree(r.deep_view()),
    {
        TEManager { entries: Vec::new() }
    }

    fn parent_for(&self, level: usize) -> (r: Option<usize>)
        ensures
            r == last_below(self.deep_view(), level, self.entries@.len() as int),
            r is Some ==> r->0 < self.entries@.len(),
    {
        let mut n: usize = self.entries.len();
        while n > 0
            invariant
                n <= self.entries.len(),
                last_below(self.deep_view(), level, self.entries@.len() as int) == last_below(
                    self.deep_view(),
                    level,
                    n as int,
                ),
            decreases n,
        {
            if self.entries[n - 1].get_level() < level {
                return Some(n - 1);
            }
            n -= 1;
        }
        None
    }

    /// Adds an entry at the end, below the last entry of a lower level
    /// where there is one.
    pub fn add_new_entry(&mut self, href: &str, level: usize, text: &str)
        ensures
            final(self).deep_view() == added(old(self).deep_view(), href@, level, text@),
            tree(old(self).deep_view()) && old(self).entries@.len() < usize::MAX ==> tree(
                final(self).deep_view(),
            ),
    {
        let idx = self.entries.len();
        let parent_idx = self.parent_for(level);
        let ghost before = self.deep_view();
        if let Some(i) = parent_idx {
            let new_parent = self.entries[i].with_child(idx);
            self.entries.set(i, new_parent);
            assert(self.deep_view() =~= before.update(i as int, before[i as int].with_child(idx)));
        }
        self.entries.push(
            TE::Leaf { idx, level, parent: parent_idx, href: owned(href), text: owned(text) },
        );
        assert(self.deep_view() =~= added(before, href@, level, text@));
        proof {
            if tree(before) && before.len() < usize::MAX {
                law_added_is_tree(before, href@, level, text@);
            }
        }
    }

    /// The entries that lie below no other.
    pub fn get_top_level_entries(&self) -> (r: Vec<&TE>)
        ensures
            r@.len() <= self.entries@.len(),
            forall|k: int| 0 <= k < r@.len() ==> (#[trigger] r@[k]).deep_view().parent is None,
            forall|i: int|
                0 <= i < self.entries@.len() && self.entries@[i].deep_view().parent is None
                    ==> r@.contains(&#[trigger] self.entries@[i]),
    {
        let mut out: Vec<&TE> = Vec::new();
        let mut i: usize = 0;
        while i < self.entries.len()
            invariant
                i <= self.entries.len(),
                out@.len() <= i,
                forall|k: int| 0 <= k < out@.len() ==> (#[trigger] out@[k]).deep_view().parent is None,
                forall|j: int|
                    0 <= j < i && self.entries@[j].deep_view().parent is None ==> out@.contains(
                        &#[trigger] self.entries@[j],
                    ),
            decreases self.entries.len() - i,
        {
            let ghost earlier = out@;
            if self.entries[i].get_parent_idx().is_none() {
                out.push(&self.entries[i]);
                assert(out@[out@.len() - 1] == &self.entries@[i as int]);
            }
            assert forall|j: int|
                0 <= j < i && self.entries@[j].deep_view().parent is None implies out@.contains(
                &#[trigger] self.entries@[j],
            ) by {
                let k = choose|k: int| 0 <= k < earlier.len() && earlier[k] == &self.entries@[j];
                assert(out@[k] == &self.entries@[j]);
            }
            i += 1;
        }
        out
    }

    /// Writes the `i`th entry with what lies below it.
    pub fn render_entry(&self, i: usize) -> (r: String)
        requires
            tree(self.deep_view()),
            i < self.entries@.len(),
        ensures
            r@ == entry_text(self.deep_view(), i as int),
        decreases self.entries@.len() - i,
    {
        let ghost entries = self.deep_view();
        match &self.entries[i] {
            TE::Leaf { href, text, .. } => {
                let mut s = String::from_str("<li>\n<a href=\"");
                s.append(href.as_str());
                s.append("\">");
                s.append(text.as_str());
                s.append("</a>\n");
                s.append("</li>");
                assert(s@ =~= entry_text(entries, i as int));
                s
            },
            TE::Branch { href, text, children, .. } => {
                let mut s = String::from_str("<li>\n<a href=\"");
                s.append(href.as_str());
                s.append("\">");
                s.append(text.as_str());
                s.append("</a>\n");
                s.append("<ol>\n");
                let ghost start = s@;
                assert(entries[i as int].below() == children@);
                let mut k: usize = 0;
                assert(start + children_text(entries, i as int, 0) =~= start);
                while k < children.len()
                    invariant
                        k <= children.len(),
                        tree(entries),
                        entries == self.deep_view(),
                        i < entries.len(),
                        entries[i as int].below() == children@,
                        s@ == start + children_text(entries, i as int, k as int),
                    decreases children.len() - k,
                {
                    let c = children[k];
                    assert(i < entries[i as int].below()[k as int] < entries.len());
                    let below = self.render_entry(c);
                    s.append("\t");
                    s.append(below.as_str());
                    s.append("\n");
                    proof {
                        reveal_strlit("\t");
                        reveal_strlit("\n");
                        assert("\t"@ =~= seq!['\t']);
                        assert("\n"@ =~= seq!['\n']);
                        assert(s@ =~= start + children_text(entries, i as int, k + 1));
                    }
                    k += 1;
                }
                s.append("</ol>\n</li>");
                assert(s@ =~= entry_text(entries, i as int));
                s
            },
        }
    }

    /// Writes the table as nested lists.
    pub fn render(&self) -> (r: String)
        requires
            tree(self.deep_view()),
        ensures
            r@ == table_text(self.deep_view()),
    {
        let ghost entries = self.deep_view();
        let mut output = String::from_str("<ol>");
        let mut i: usize = 0;
        assert(output@ =~= "<ol>"@ + top_text(entries, 0));
        while i < self.entries.len()
            invariant
                i <= self.entries.len(),
                entries == self.deep_view(),
                tree(entries),
                output@ == "<ol>"@ + top_text(entries, i as int),
            decreases self.entries.len() - i,
        {
            if self.entries[i].get_parent_idx().is_none() {
                let entry = self.render_entry(i);
                output.append("\n");
                output.append(entry.as_str());
                proof {
                    reveal_strlit("\n");
                    assert("\n"@ =~= seq!['\n']);
                }
            }
            assert(output@ =~= "<ol>"@ + top_text(entries, i + 1));
            i += 1;
        }
        output.append("\n</ol>");
        output
    }
}

} // verus!
