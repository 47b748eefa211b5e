//! The item list behind a select menu: items (flat, or in titled groups)
//! narrowed by a search query, with lookup by position and by value.

use vstd::prelude::*;

use crate::search::{copy_strings, search, search_spec, strs};
use crate::text::{lowercase, owned, str_eq, to_lowercase};

verus! {

/// A position in a sectioned list: the section, then the row within it.
#[derive(Clone, Copy, Debug, PartialEq, Eq, Structural)]
pub struct IndexPath {
    pub section: usize,
    pub row: usize,
}

impl IndexPath {
    /// The given row of the first section.
    pub fn new(row: usize) -> (r: Self)
        ensures
            r == (IndexPath { section: 0, row }),
    {
        IndexPath { section: 0, row }
    }

    /// The same row in the given section.
    pub fn section(self, section: usize) -> (r: Self)
        ensures
            r == (IndexPath { section, ..self }),
    {
        IndexPath { section, ..self }
    }

    /// The first row of the first section.
    pub fn first() -> (r: Self)
        ensures
            r == (IndexPath { section: 0, row: 0 }),
    {
        IndexPath { section: 0, row: 0 }
    }

    /// Whether two positions are on the same row, whatever their sections.
    pub fn eq_row(&self, other: IndexPath) -> (r: bool)
        ensures
            r == (self.row == other.row),
    {
        self.row == other.row
    }

    /// The given row in the same section.
    pub fn row(self, row: usize) -> (r: Self)
        ensures
            r == (IndexPath { row, ..self }),
    {
        IndexPath { row, ..self }
    }
}

/// A titled group of items.
#[derive(Debug)]
pub struct SelectGroup {
    title: String,
    items: Vec<String>,
}

/// A titled group of items, as character sequences.
pub struct SectionModel {
    pub title: Seq<char>,
    pub items: Seq<Seq<char>>,
}

impl View for SelectGroup {
    type V = SectionModel;

    closed spec fn view(&self) -> SectionModel {
        SectionModel { title: self.title@, items: strs(self.items@) }
    }
}

impl SelectGroup {
    /// An empty group with the given title.
    pub fn new(title: &str) -> (r: Self)
        ensures
            r@ == (SectionModel { title: title@, items: seq![] }),
    {
        let r = SelectGroup { title: owned(title), items: Vec::new() };
        assert(r@.items =~= Seq::<Seq<char>>::empty());
        r
    }

    /// Append items to the group.
    pub fn items(self, items: Vec<String>) -> (r: Self)
        ensures
            r@ == (SectionModel { items: self@.items + strs(items@), ..self@ }),
    {
        let mut all = self.items;
        let mut more = items;
        let ghost before = strs(all@);
        let ghost added = strs(more@);
        all.append(&mut more);
        let r = SelectGroup { title: self.title, items: all };
        assert(r@.items =~= before + added);
        r
    }
}

/// The sections of a group sequence.
pub open spec fn sections_of(groups: Seq<SelectGroup>) -> Seq<SectionModel> {
    groups.map_values(|g: SelectGroup| g@)
}

/// A section narrowed to the items that match the query.
pub open spec fn search_section(g: SectionModel, query: Seq<char>) -> SectionModel {
    SectionModel { title: g.title, items: search_spec(g.items, query) }
}

/// The sections that still hold items.
pub open spec fn nonempty_sections(s: Seq<SectionModel>) -> Seq<SectionModel>
    decreases s.len(),
{
    if s.len() == 0 {
        seq![]
    } else {
        let n = s.len() - 1;
        let rest = nonempty_sections(s.take(n));
        if s[n].items.len() > 0 {
            rest.push(s[n])
        } else {
            rest
        }
    }
}

/// What a list shows for a query: everything for an empty query, otherwise
/// every section narrowed to its matching items, and with groups, groups left
/// without items are dropped.
pub open spec fn search_sections(groups: Seq<SectionModel>, grouped: bool, query: Seq<char>) -> Seq<
    SectionModel,
> {
    let searched = groups.map_values(|g: SectionModel| search_section(g, query));
    if query.len() == 0 {
        groups
    } else if grouped && lowercase(query).len() != 0 {
        nonempty_sections(searched)
    } else {
        searched
    }
}

/// Dropping empty sections keeps every section that holds an item, in its
/// order, and nothing else.
pub proof fn lemma_nonempty_sections_keeps_every_nonempty_one(s: Seq<SectionModel>)
    ensures
        nonempty_sections(s) == s.filter(|g: SectionModel| g.items.len() > 0),
    decreases s.len(),
{
    reveal(Seq::filter);
    if s.len() > 0 {
        let n = s.len() - 1;
        assert(s.drop_last() =~= s.take(n));
        lemma_nonempty_sections_keeps_every_nonempty_one(s.take(n));
    }
}

/// Searching a grouped list for a query whose lowercase form is not empty
/// narrows every group to its matching items and drops exactly the groups
/// left without one: the shown groups are the groups, in their order, each
/// narrowed by the search, that still hold an item.
pub proof fn lemma_grouped_search_drops_only_groups_without_matches(
    groups: Seq<SectionModel>,
    query: Seq<char>,
)
    requires
        lowercase(query).len() != 0,
        query.len() != 0,
    ensures
        search_sections(groups, true, query) == groups.map_values(
            |g: SectionModel| search_section(g, query),
        ).filter(|g: SectionModel| g.items.len() > 0),
        forall|i: int|
            0 <= i < groups.len() && #[trigger] search_spec(groups[i].items, query).len() > 0
                ==> search_sections(groups, true, query).contains(
                SectionModel { title: groups[i].title, items: search_spec(groups[i].items, query) },
            ),
{
    let searched = groups.map_values(|g: SectionModel| search_section(g, query));
    lemma_nonempty_sections_keeps_every_nonempty_one(searched);
    assert forall|i: int|
        0 <= i < groups.len() && #[trigger] search_spec(groups[i].items, query).len()
            > 0 implies search_sections(groups, true, query).contains(
        SectionModel { title: groups[i].title, items: search_spec(groups[i].items, query) },
    ) by {
        assert(searched[i] == search_section(groups[i], query));
        searched.lemma_filter_contains(|g: SectionModel| g.items.len() > 0, i);
    }
}

/// The item at a position among the shown sections.
pub open spec fn item_at(sections: Seq<SectionModel>, ix: IndexPath) -> Option<Seq<char>> {
    if ix.section < sections.len() && ix.row < sections[ix.section as int].items.len() {
        Some(sections[ix.section as int].items[ix.row as int])
    } else {
        None
    }
}

/// The first row at or after `r` that holds `value`.
pub open spec fn row_of(items: Seq<Seq<char>>, value: Seq<char>, r: nat) -> Option<nat>
    decreases items.len() - r,
{
    if r >= items.len() {
        None
    } else if items[r as int] == value {
        Some(r)
    } else {
        row_of(items, value, r + 1)
    }
}

/// The first position, section by section and row by row from section `s`
/// on, that holds `value`.
pub open spec fn position_from(sections: Seq<SectionModel>, value: Seq<char>, s: nat) -> Option<
    IndexPath,
>
    decreases sections.len() - s,
{
    if s >= sections.len() {
        None
    } else {
        match row_of(sections[s as int].items, value, 0) {
            Some(r) => Some(IndexPath { section: s as usize, row: r as usize }),
            None => position_from(sections, value, s + 1),
        }
    }
}

/// The items of a select menu, flat or in groups, and the search query that
/// narrows what is shown.
pub struct SearchableVec {
    groups: Vec<SelectGroup>,
    grouped: bool,
    query: String,
    matched: Vec<SelectGroup>,
}

/// What a [`SearchableVec`] holds and shows.
pub struct SearchableModel {
    pub groups: Seq<SectionModel>,
    pub grouped: bool,
    pub query: Seq<char>,
    pub matched: Seq<SectionModel>,
}

impl View for SearchableVec {
    type V = SearchableModel;

    closed spec fn view(&self) -> SearchableModel {
        SearchableModel {
            groups: sections_of(self.groups@),
            grouped: self.grouped,
            query: self.query@,
            matched: sections_of(self.matched@),
        }
    }
}

/// A list is well formed when it shows what its query selects, and a flat
/// list is a single untitled section.
pub open spec fn searchable_wf(m: SearchableModel) -> bool {
    &&& m.matched == search_sections(m.groups, m.grouped, m.query)
    &&& !m.grouped ==> m.groups.len() == 1
}

/// The list with its query cleared: everything is shown.
pub open spec fn cleared(m: SearchableModel) -> SearchableModel {
    SearchableModel { query: seq![], matched: m.groups, ..m }
}

/// A copy of a group with the same title and items.
fn copy_group(g: &SelectGroup) -> (r: SelectGroup)
    ensures
        r@ == g@,
{
    SelectGroup { title: g.title.clone(), items: copy_strings(&g.items) }
}

fn copy_groups(gs: &Vec<SelectGroup>) -> (r: Vec<SelectGroup>)
    ensures
        sections_of(r@) == sections_of(gs@),
{
    let mut out: Vec<SelectGroup> = Vec::new();
    for i in 0..gs.len()
        invariant
            out@.len() == i,
            forall|j: int| 0 <= j < i ==> out@[j]@ == gs@[j]@,
    {
        out.push(copy_group(&gs[i]));
    }
    assert(sections_of(out@) =~= sections_of(gs@));
    out
}

/// The sections of `gs` narrowed by `query` (see [`search_sections`]).
fn search_groups(gs: &Vec<SelectGroup>, grouped: bool, query: &str) -> (r: Vec<SelectGroup>)
    ensures
        sections_of(r@) == search_sections(sections_of(gs@), grouped, query@),
{
    if query.is_empty() {
        return copy_groups(gs);
    }
    let drop_empty = grouped && !to_lowercase(query).as_str().is_empty();
    let ghost searched = sections_of(gs@).map_values(|g: SectionModel| search_section(g, query@));
    let mut out: Vec<SelectGroup> = Vec::new();
    let n = gs.len();
    for i in 0..n
        invariant
            n == gs@.len(),
            query@.len() != 0,
            drop_empty == (grouped && lowercase(query@).len() != 0),
            searched == sections_of(gs@).map_values(|g: SectionModel| search_section(g, query@)),
            drop_empty ==> sections_of(out@) == nonempty_sections(searched.take(i as int)),
            !drop_empty ==> sections_of(out@) == searched.take(i as int),
    {
        let items = search(&gs[i].items, query);
        let g = SelectGroup { title: gs[i].title.clone(), items };
        assert(g@ == searched[i as int]);
        let ghost before = sections_of(out@);
        let keep = !drop_empty || g.items.len() > 0;
        if keep {
            out.push(g);
        }
        proof {
            let t = searched.take(i + 1);
            assert(t.take(i as int) =~= searched.take(i as int));
            assert(t[i as int] == searched[i as int]);
            if keep {
                assert(sections_of(out@) =~= before.push(searched[i as int]));
            } else {
                assert(sections_of(out@) =~= before);
            }
            if !drop_empty {
                assert(sections_of(out@) =~= searched.take(i + 1));
            }
        }
    }
    assert(searched.take(n as int) =~= searched);
    out
}

impl SearchableVec {
    #[verifier::type_invariant]
    closed spec fn inv(&self) -> bool {
        searchable_wf(self@)
    }

    /// A flat list of items, with no query.
    pub fn new(items: Vec<String>) -> (r: Self)
        ensures
            r@.groups == seq![SectionModel { title: seq![], items: strs(items@) }],
            !r@.grouped,
            r@.query == Seq::<char>::empty(),
            r@.matched == r@.groups,
    {
        let g = SelectGroup { title: String::new(), items };
        let m = copy_group(&g);
        let mut groups: Vec<SelectGroup> = Vec::new();
        groups.push(g);
        let mut matched: Vec<SelectGroup> = Vec::new();
        matched.push(m);
        proof {
            let gs = sections_of(groups@);
            assert(gs =~= seq![SectionModel { title: seq![], items: strs(items@) }]);
        }
        assert(sections_of(matched@) =~= sections_of(groups@));
        SearchableVec { groups, grouped: false, query: String::new(), matched }
    }

    /// A list of titled groups, with no query.
    pub fn grouped(groups: Vec<SelectGroup>) -> (r: Self)
        ensures
            r@.groups == sections_of(groups@),
            r@.grouped,
            r@.query == Seq::<char>::empty(),
            r@.matched == r@.groups,
    {
        let matched = copy_groups(&groups);
        SearchableVec { groups, grouped: true, query: String::new(), matched }
    }

    /// Add a group at the end.
    pub fn push(&mut self, group: SelectGroup)
        requires
            old(self)@.grouped,
        ensures
            final(self)@.groups == old(self)@.groups.push(group@),
            final(self)@.grouped,
            final(self)@.query == old(self)@.query,
            final(self)@.matched == search_sections(final(self)@.groups, true, final(self)@.query),
    {
        proof {
            use_type_invariant(&*self);
        }
        let mut groups = copy_groups(&self.groups);
        groups.push(group);
        let matched = search_groups(&groups, true, self.query.as_str());
        let query = self.query.clone();
        proof {
            assert(sections_of(groups@) =~= sections_of(self.groups@).push(group@));
        }
        *self = SearchableVec { groups, grouped: true, query, matched };
    }

    /// Add an item at the end of a flat list.
    pub fn push_item(&mut self, item: String)
        requires
            !old(self)@.grouped,
        ensures
            final(self)@.groups == seq![
                SectionModel {
                    title: old(self)@.groups[0].title,
                    items: old(self)@.groups[0].items.push(item@),
                },
            ],
            !final(self)@.grouped,
            final(self)@.query == old(self)@.query,
            final(self)@.matched == search_sections(final(self)@.groups, false, final(self)@.query),
    {
        proof {
            use_type_invariant(&*self);
        }
        let ghost before = old(self)@.groups[0];
        let mut items = copy_strings(&self.groups[0].items);
        let ghost added = item@;
        items.push(item);
        let g = SelectGroup { title: self.groups[0].title.clone(), items };
        assert(g@.items =~= before.items.push(added));
        let mut groups: Vec<SelectGroup> = Vec::new();
        groups.push(g);
        let matched = search_groups(&groups, false, self.query.as_str());
        let query = self.query.clone();
        proof {
            assert(sections_of(groups@) =~= seq![
                SectionModel { title: before.title, items: before.items.push(added) },
            ]);
        }
        *self = SearchableVec { groups, grouped: false, query, matched };
    }

    /// A copy of the list narrowed to the items that match `query`.
    pub fn with_query(&self, query: &str) -> (r: Self)
        ensures
            r@ == (SearchableModel {
                query: query@,
                matched: search_sections(self@.groups, self@.grouped, query@),
                ..self@
            }),
    {
        proof {
            use_type_invariant(self);
        }
        let matched = search_groups(&self.groups, self.grouped, query);
        let groups = copy_groups(&self.groups);
        SearchableVec { groups, grouped: self.grouped, query: owned(query), matched }
    }

    /// Narrow what is shown to the items that match `query`.
    pub fn set_query(&mut self, query: &str)
        ensures
            final(self)@ == (SearchableModel {
                query: query@,
                matched: search_sections(old(self)@.groups, old(self)@.grouped, query@),
                ..old(self)@
            }),
    {
        proof {
            use_type_invariant(&*self);
        }
        *self = self.with_query(query);
    }

    /// A copy of the list with its query cleared: everything is shown.
    pub fn without_query(&self) -> (r: Self)
        ensures
            r@ == cleared(self@),
    {
        proof {
            use_type_invariant(self);
        }
        let matched = copy_groups(&self.groups);
        let groups = copy_groups(&self.groups);
        SearchableVec { groups, grouped: self.grouped, query: String::new(), matched }
    }

    /// Clear the query: everything is shown again.
    pub fn clear_query(&mut self)
        ensures
            final(self)@ == cleared(old(self)@),
    {
        *self = self.without_query();
    }

    /// The current query.
    pub fn query(&self) -> (r: &String)
        ensures
            r@ == self@.query,
    {
        &self.query
    }

    /// The number of shown sections.
    pub fn sections_count(&self) -> (r: usize)
        ensures
            r == self@.matched.len(),
    {
        self.matched.len()
    }

    /// The number of shown items in a section (0 past the last section).
    pub fn items_count(&self, section: usize) -> (r: usize)
        ensures
            r == if section < self@.matched.len() {
                self@.matched[section as int].items.len()
            } else {
                0
            },
    {
        if section < self.matched.len() {
            self.matched[section].items.len()
        } else {
            0
        }
    }

    /// The shown item at a position.
    pub fn item(&self, ix: IndexPath) -> (r: Option<&String>)
        ensures
            match r {
                Some(s) => item_at(self@.matched, ix) == Some(s@),
                None => item_at(self@.matched, ix) is None,
            },
    {
        if ix.section < self.matched.len() && ix.row < self.matched[ix.section].items.len() {
            Some(&self.matched[ix.section].items[ix.row])
        } else {
            None
        }
    }

    /// The first shown position that holds `value`.
    pub fn position(&self, value: &str) -> (r: Option<IndexPath>)
        ensures
            r == position_from(self@.matched, value@, 0),
    {
        let n = self.matched.len();
        let mut s: usize = 0;
        while s < n
            invariant
                n == self@.matched.len(),
                s <= n,
                position_from(self@.matched, value@, 0) == position_from(
                    self@.matched,
                    value@,
                    s as nat,
                ),
            decreases n - s,
        {
            let items = &self.matched[s].items;
            let m = items.len();
            let mut r: usize = 0;
            while r < m
                invariant
                    m == items@.len(),
                    s < n,
                    n == self@.matched.len(),
                    strs(items@) == self@.matched[s as int].items,
                    r <= m,
                    position_from(self@.matched, value@, 0) == position_from(
                        self@.matched,
                        value@,
                        s as nat,
                    ),
                    row_of(self@.matched[s as int].items, value@, 0) == row_of(
                        self@.matched[s as int].items,
                        value@,
                        r as nat,
                    ),
                decreases m - r,
            {
                if str_eq(items[r].as_str(), value) {
                    return Some(IndexPath { section: s, row: r });
                }
                r = r + 1;
            }
            s = s + 1;
        }
        None
    }
}

/// What the row scan finds holds the value, and nothing before it does.
pub proof fn lemma_row_of(items: Seq<Seq<char>>, value: Seq<char>, r: nat)
    ensures
        row_of(items, value, r) matches Some(k) ==> r <= k < items.len() && items[k as int]
            == value,
        row_of(items, value, r) is None ==> forall|j: int|
            r <= j < items.len() ==> items[j] != value,
    decreases items.len() - r,
{
    if r < items.len() {
        lemma_row_of(items, value, r + 1);
    }
}

/// The position found holds the value; no position is found only when no
/// shown item from section `s` on holds it.
pub proof fn lemma_position_from(sections: Seq<SectionModel>, value: Seq<char>, s: nat)
    requires
        sections.len() <= usize::MAX,
        forall|k: int| 0 <= k < sections.len() ==> #[trigger] sections[k].items.len() <= usize::MAX,
    ensures
        position_from(sections, value, s) matches Some(ix) ==> s <= ix.section && item_at(
            sections,
            ix,
        ) == Some(value),
        position_from(sections, value, s) is None ==> forall|k: int, j: int|
            s <= k < sections.len() && 0 <= j < sections[k].items.len() ==> #[trigger] sections[k].items[j]
                != value,
    decreases sections.len() - s,
{
    if s < sections.len() {
        lemma_row_of(sections[s as int].items, value, 0);
        lemma_position_from(sections, value, s + 1);
        let _ = sections[s as int].items.len();
    }
}

// MARK: selection

/// A change to a selection: select the item at a position, or drop the
/// entries at a position.
#[derive(Clone, Copy, Debug, PartialEq, Eq, Structural)]
pub enum SelectionChange {
    Select { index: IndexPath },
    Deselect { index: IndexPath },
}

/// A selection as positions and item texts.
pub open spec fn selection_view(s: Seq<(IndexPath, String)>) -> Seq<(IndexPath, Seq<char>)> {
    s.map_values(|e: (IndexPath, String)| (e.0, e.1@))
}

/// The selection without its entries at `index`.
pub open spec fn without_index(s: Seq<(IndexPath, Seq<char>)>, index: IndexPath) -> Seq<
    (IndexPath, Seq<char>),
>
    decreases s.len(),
{
    if s.len() == 0 {
        seq![]
    } else {
        let n = s.len() - 1;
        let rest = without_index(s.take(n), index);
        if s[n].0 != index {
            rest.push(s[n])
        } else {
            rest
        }
    }
}

/// One change applied to a selection, items looked up among `shown`.
pub open spec fn apply_change(
    shown: Seq<SectionModel>,
    s: Seq<(IndexPath, Seq<char>)>,
    c: SelectionChange,
) -> Seq<(IndexPath, Seq<char>)> {
    match c {
        SelectionChange::Deselect { index } => without_index(s, index),
        SelectionChange::Select { index } => match item_at(shown, index) {
            Some(t) => s.push((index, t)),
            None => s,
        },
    }
}

/// The changes applied in order.
pub open spec fn apply_changes(
    shown: Seq<SectionModel>,
    s: Seq<(IndexPath, Seq<char>)>,
    cs: Seq<SelectionChange>,
) -> Seq<(IndexPath, Seq<char>)>
    decreases cs.len(),
{
    if cs.len() == 0 {
        s
    } else {
        apply_changes(shown, apply_change(shown, s, cs[0]), cs.drop_first())
    }
}

fn drop_index(s: Vec<(IndexPath, String)>, index: IndexPath) -> (r: Vec<(IndexPath, String)>)
    ensures
        selection_view(r@) == without_index(selection_view(s@), index),
{
    let mut out: Vec<(IndexPath, String)> = Vec::new();
    let n = s.len();
    for i in 0..n
        invariant
            n == s@.len(),
            selection_view(out@) == without_index(selection_view(s@).take(i as int), index),
    {
        let ghost before = selection_view(out@);
        let keep = s[i].0 != index;
        if keep {
            out.push((s[i].0, s[i].1.clone()));
        }
        proof {
            let t = selection_view(s@).take(i + 1);
            assert(t.take(i as int) =~= selection_view(s@).take(i as int));
            if keep {
                assert(selection_view(out@) =~= before.push(selection_view(s@)[i as int]));
            } else {
                assert(selection_view(out@) =~= before);
            }
        }
    }
    assert(selection_view(s@).take(n as int) =~= selection_view(s@));
    out
}

impl SearchableVec {
    /// Apply selection changes before they are committed: deselections drop
    /// the entries at their position, selections add the shown item at
    /// theirs (nothing when no item is shown there).
    pub fn on_will_change(&self, selection: &mut Vec<(IndexPath, String)>, changes: &Vec<SelectionChange>)
        ensures
            selection_view(final(selection)@) == apply_changes(
                self@.matched,
                selection_view(old(selection)@),
                changes@,
            ),
    {
        let n = changes.len();
        let ghost start = selection_view(selection@);
        assert(changes@.skip(0) =~= changes@);
        let mut i: usize = 0;
        while i < n
            invariant
                n == changes@.len(),
                i <= n,
                apply_changes(self@.matched, start, changes@) == apply_changes(
                    self@.matched,
                    selection_view(selection@),
                    changes@.skip(i as int),
                ),
            decreases n - i,
        {
            let ghost cur = selection_view(selection@);
            assert(changes@.skip(i as int)[0] == changes@[i as int]);
            assert(changes@.skip(i as int).drop_first() =~= changes@.skip(i + 1));
            match changes[i] {
                SelectionChange::Deselect { index } => {
                    let mut taken: Vec<(IndexPath, String)> = Vec::new();
                    std::mem::swap(&mut taken, selection);
                    *selection = drop_index(taken, index);
                },
                SelectionChange::Select { index } => {
                    if let Some(t) = self.item(index) {
                        selection.push((index, t.clone()));
                        assert(selection_view(selection@) =~= cur.push((index, t@)));
                    }
                },
            }
            i = i + 1;
        }
        assert(changes@.skip(n as int) =~= Seq::<SelectionChange>::empty());
    }
}

} // verus!
