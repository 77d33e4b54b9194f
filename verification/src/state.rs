//! Presentation state of the studio: read-only over the real catalog. The
//! rows reflect a snapshot and nothing else; they stay empty until a real
//! snapshot arrives.

use vstd::prelude::*;
use crate::text::{lit, append, owned, decimal, decimal_of, chars_of, strip_trailing, strip_trailing_str};
use crate::catalog_remote::{CatalogItem, CatalogSnapshot};
use crate::origin::{NodeSummary, OriginError};

verus! {

/// One observable row of the table: id, current value and revision.
#[derive(Debug, Clone, PartialEq, Eq)]
pub struct ItemRow {
    pub id: String,
    pub value: String,
    pub revision: u64,
}

/// Lexicographic order on characters (the order of `String`'s `Ord`:
/// UTF-8 byte order and code-point order agree).
pub open spec fn lex_le(a: Seq<char>, b: Seq<char>) -> bool
    decreases a.len(),
{
    if a.len() == 0 {
        true
    } else if b.len() == 0 {
        false
    } else if a[0] != b[0] {
        a[0] < b[0]
    } else {
        lex_le(a.drop_first(), b.drop_first())
    }
}

/// Any two texts are ordered one way or the other.
pub proof fn lemma_lex_total(a: Seq<char>, b: Seq<char>)
    ensures
        lex_le(a, b) || lex_le(b, a),
    decreases a.len(),
{
    if a.len() > 0 && b.len() > 0 && a[0] == b[0] {
        lemma_lex_total(a.drop_first(), b.drop_first());
    }
}

/// The order is transitive.
pub proof fn lemma_lex_transitive(a: Seq<char>, b: Seq<char>, c: Seq<char>)
    requires
        lex_le(a, b),
        lex_le(b, c),
    ensures
        lex_le(a, c),
    decreases a.len(),
{
    if a.len() > 0 && b.len() > 0 && c.len() > 0 && a[0] == b[0] && b[0] == c[0] {
        lemma_lex_transitive(a.drop_first(), b.drop_first(), c.drop_first());
    }
}

/// Every text is at most itself.
pub proof fn lemma_lex_reflexive(a: Seq<char>)
    ensures
        lex_le(a, a),
    decreases a.len(),
{
    if a.len() > 0 {
        lemma_lex_reflexive(a.drop_first());
    }
}

/// Two texts each at most the other are equal.
pub proof fn lemma_lex_antisymmetric(a: Seq<char>, b: Seq<char>)
    requires
        lex_le(a, b),
        lex_le(b, a),
    ensures
        a == b,
    decreases a.len(),
{
    if a.len() > 0 && b.len() > 0 {
        lemma_lex_antisymmetric(a.drop_first(), b.drop_first());
        assert(a =~= seq![a[0]] + a.drop_first());
        assert(b =~= seq![b[0]] + b.drop_first());
    } else {
        assert(a.len() == 0 && b.len() == 0);
        assert(a =~= b);
    }
}

/// `a <= b` in the order of strings.
pub fn str_le(a: &str, b: &str) -> (r: bool)
    ensures
        r == lex_le(a@, b@),
{
    let x = chars_of(a);
    let y = chars_of(b);
    let mut i: usize = 0;
    assert(a@.skip(0) =~= a@);
    assert(b@.skip(0) =~= b@);
    while i < x.len() && i < y.len() && x[i] == y[i]
        invariant
            i <= x.len(),
            i <= y.len(),
            x@ == a@,
            y@ == b@,
            lex_le(a@, b@) == lex_le(a@.skip(i as int), b@.skip(i as int)),
        decreases x.len() - i,
    {
        assert(a@.skip(i as int).drop_first() =~= a@.skip(i + 1));
        assert(b@.skip(i as int).drop_first() =~= b@.skip(i + 1));
        i = i + 1;
    }
    if i == x.len() {
        true
    } else if i == y.len() {
        false
    } else {
        x[i] < y[i]
    }
}

/// What the table shows of a row.
pub open spec fn row_view(r: ItemRow) -> (Seq<char>, Seq<char>, u64) {
    (r.id@, r.value@, r.revision)
}

/// What the table would show of a catalog item.
pub open spec fn item_view(i: CatalogItem) -> (Seq<char>, Seq<char>, u64) {
    (i.id@, i.value@, i.revision)
}

/// What the table shows of each row, in order.
pub open spec fn row_views(rows: Seq<ItemRow>) -> Seq<(Seq<char>, Seq<char>, u64)> {
    rows.map_values(|r: ItemRow| row_view(r))
}

/// What the table would show of each item, in order.
pub open spec fn item_views(items: Seq<CatalogItem>) -> Seq<(Seq<char>, Seq<char>, u64)> {
    items.map_values(|i: CatalogItem| item_view(i))
}

/// Selects the shown entries whose id is `k`.
pub open spec fn id_is(k: Seq<char>) -> spec_fn((Seq<char>, Seq<char>, u64)) -> bool {
    |t: (Seq<char>, Seq<char>, u64)| t.0 == k
}

/// The rows are ordered by id.
pub open spec fn sorted_by_id(rows: Seq<ItemRow>) -> bool {
    forall|i: int, j: int| 0 <= i < j < rows.len() ==> lex_le((#[trigger] rows[i]).id@, (#[trigger] rows[j]).id@)
}

/// `rows` shows exactly the items of `items` (the same multiset).
pub open spec fn same_items(rows: Seq<ItemRow>, items: Seq<CatalogItem>) -> bool {
    row_views(rows).to_multiset() == item_views(items).to_multiset()
}

/// For every id, the rows carrying it show the items carrying it in the
/// order the items came: equal ids keep their relative order.
pub open spec fn ties_in_order(rows: Seq<ItemRow>, items: Seq<CatalogItem>) -> bool {
    forall|k: Seq<char>| #[trigger] row_views(rows).filter(id_is(k)) == item_views(items).filter(id_is(k))
}

/// Filtering a sequence none of whose entries passes gives nothing.
proof fn lemma_filter_none(s: Seq<(Seq<char>, Seq<char>, u64)>, k: Seq<char>)
    requires
        forall|m: int| 0 <= m < s.len() ==> (#[trigger] s[m]).0 != k,
    ensures
        s.filter(id_is(k)) == Seq::<(Seq<char>, Seq<char>, u64)>::empty(),
    decreases s.len(),
{
    reveal(Seq::filter);
    if s.len() > 0 {
        lemma_filter_none(s.drop_last(), k);
    }
}

/// Position after every row whose id is at most `id`: the rows from there
/// on carry greater ids.
fn insertion_point(rows: &Vec<ItemRow>, id: &str) -> (p: usize)
    requires
        sorted_by_id(rows@),
    ensures
        p <= rows@.len(),
        forall|k: int| 0 <= k < p ==> lex_le((#[trigger] rows@[k]).id@, id@),
        forall|k: int| p <= k < rows@.len() ==> lex_le(id@, (#[trigger] rows@[k]).id@),
        forall|k: int| p <= k < rows@.len() ==> (#[trigger] rows@[k]).id@ != id@,
{
    let mut p: usize = 0;
    while p < rows.len() && str_le(rows[p].id.as_str(), id)
        invariant
            p <= rows@.len(),
            forall|k: int| 0 <= k < p ==> lex_le((#[trigger] rows@[k]).id@, id@),
        decreases rows.len() - p,
    {
        p = p + 1;
    }
    if p < rows.len() {
        proof {
            lemma_lex_total(rows@[p as int].id@, id@);
            lemma_lex_reflexive(id@);
            assert forall|k: int| p <= k < rows@.len() implies lex_le(id@, (#[trigger] rows@[k]).id@)
                && rows@[k].id@ != id@ by {
                if k > p {
                    assert(lex_le(rows@[p as int].id@, rows@[k].id@));
                    lemma_lex_transitive(id@, rows@[p as int].id@, rows@[k].id@);
                }
            }
        }
    }
    p
}

/// The rows of `items`, ordered by id; ties keep their snapshot order.
pub fn sorted_rows(items: &Vec<CatalogItem>) -> (rows: Vec<ItemRow>)
    ensures
        rows@.len() == items@.len(),
        sorted_by_id(rows@),
        same_items(rows@, items@),
        ties_in_order(rows@, items@),
{
    let mut rows: Vec<ItemRow> = Vec::new();
    let mut i: usize = 0;
    assert(item_views(items@.take(0)) =~= Seq::<(Seq<char>, Seq<char>, u64)>::empty());
    assert(row_views(rows@) =~= Seq::<(Seq<char>, Seq<char>, u64)>::empty());
    while i < items.len()
        invariant
            i <= items@.len(),
            rows@.len() == i,
            sorted_by_id(rows@),
            row_views(rows@).to_multiset() == item_views(items@.take(i as int)).to_multiset(),
            ties_in_order(rows@, items@.take(i as int)),
        decreases items.len() - i,
    {
        let item = &items[i];
        let row = ItemRow { id: owned(item.id.as_str()), value: owned(item.value.as_str()), revision: item.revision };
        let p = insertion_point(&rows, row.id.as_str());
        let ghost before = rows@;
        rows.insert(p, row);
        proof {
            let x = row_view(row);
            let b = row_views(before);
            let old_items = item_views(items@.take(i as int));
            assert(rows@ =~= before.insert(p as int, row));
            assert forall|a: int, c: int| 0 <= a < c < rows@.len() implies lex_le(
                (#[trigger] rows@[a]).id@,
                (#[trigger] rows@[c]).id@,
            ) by {
                if c < p {
                    assert(rows@[a] == before[a] && rows@[c] == before[c]);
                } else if c == p {
                    assert(rows@[a] == before[a]);
                } else if a == p {
                    assert(rows@[c] == before[c - 1]);
                } else if a < p {
                    assert(rows@[a] == before[a] && rows@[c] == before[c - 1]);
                    assert(lex_le(before[a].id@, row.id@));
                    assert(lex_le(row.id@, before[c - 1].id@));
                    lemma_lex_transitive(before[a].id@, row.id@, before[c - 1].id@);
                } else {
                    assert(rows@[a] == before[a - 1] && rows@[c] == before[c - 1]);
                }
            }
            assert(row_views(rows@) =~= b.insert(p as int, x));
            vstd::seq_lib::to_multiset_insert(b, p as int, x);
            assert(item_views(items@.take(i + 1)) =~= old_items.push(item_view(items@[i as int])));
            vstd::seq_lib::to_multiset_build(old_items, item_view(items@[i as int]));
            assert(x == item_view(items@[i as int]));
            assert(b =~= b.take(p as int) + b.skip(p as int));
            assert(b.insert(p as int, x) =~= b.take(p as int) + (seq![x] + b.skip(p as int)));
            assert forall|k: Seq<char>| #[trigger] row_views(rows@).filter(id_is(k)) == item_views(
                items@.take(i + 1),
            ).filter(id_is(k)) by {
                Seq::filter_distributes_over_add(b.take(p as int), b.skip(p as int), id_is(k));
                Seq::filter_distributes_over_add(seq![x], b.skip(p as int), id_is(k));
                Seq::filter_distributes_over_add(b.take(p as int), seq![x] + b.skip(p as int), id_is(k));
                old_items.lemma_filter_push(x, id_is(k));
                reveal_with_fuel(Seq::filter, 2);
                assert(seq![x].drop_last() =~= Seq::<(Seq<char>, Seq<char>, u64)>::empty());
                assert(row_views(before).filter(id_is(k)) == old_items.filter(id_is(k)));
                if x.0 == k {
                    assert forall|m: int| 0 <= m < b.skip(p as int).len() implies (#[trigger] b.skip(
                        p as int,
                    )[m]).0 != k by {
                        assert(b.skip(p as int)[m] == row_view(before[p + m]));
                    }
                    lemma_filter_none(b.skip(p as int), k);
                    assert(b.skip(p as int).filter(id_is(k)) =~= Seq::<(Seq<char>, Seq<char>, u64)>::empty());
                }
            }
        }
        i = i + 1;
    }
    assert(items@.take(items@.len() as int) =~= items@);
    rows
}

/// Presentation state of the main window: table rows, status line and the
/// live summary of the node, when connected.
#[derive(Debug, Default)]
pub struct AppState {
    rows: Vec<ItemRow>,
    status: String,
    node: Option<NodeSummary>,
}

/// Status text for a table of `n` rows.
pub open spec fn count_status(n: nat) -> Seq<char> {
    decimal(n) + " item(ns) no catálogo"@
}

/// Status text for a node at `url` that answered with `summary`.
pub open spec fn node_status(url: Seq<char>, summary: NodeSummary) -> Seq<char> {
    "nó "@ + strip_trailing(url, '/') + " · protocolo "@ + decimal(summary.version.major as nat) + "."@
        + decimal(summary.version.minor as nat) + " · "@ + decimal(summary.operations@.len()) + " operação(ões)"@
}

impl AppState {
    /// Rows currently shown.
    pub closed spec fn shown(self) -> Seq<ItemRow> {
        self.rows@
    }

    /// Status line.
    pub closed spec fn status_line(self) -> Seq<char> {
        self.status@
    }

    /// Live node summary.
    pub closed spec fn node_seen(self) -> Option<NodeSummary> {
        self.node
    }

    /// Honest initial state: no catalog loaded, no rows.
    pub fn new() -> (r: Self)
        ensures
            r.shown().len() == 0,
            r.status_line() == "nenhum catálogo carregado"@,
            r.node_seen() is None,
    {
        AppState { rows: Vec::new(), status: lit("nenhum catálogo carregado"), node: None }
    }

    /// Replaces the rows by the snapshot's items, ordered by id; never
    /// accumulates.
    pub fn refresh_from(&mut self, snapshot: &CatalogSnapshot)
        ensures
            final(self).shown().len() == snapshot.items@.len(),
            sorted_by_id(final(self).shown()),
            same_items(final(self).shown(), snapshot.items@),
            ties_in_order(final(self).shown(), snapshot.items@),
            final(self).status_line() == count_status(snapshot.items@.len()),
            final(self).node_seen() == old(self).node_seen(),
    {
        let rows = sorted_rows(&snapshot.items);
        let mut status = decimal_of(rows.len() as u64);
        append(&mut status, " item(ns) no catálogo");
        self.status = status;
        self.rows = rows;
    }

    /// Current rows, ordered by id.
    pub fn rows(&self) -> (r: &[ItemRow])
        ensures
            r@ == self.shown(),
    {
        self.rows.as_slice()
    }

    /// Status line for the bottom bar.
    pub fn status(&self) -> (r: &str)
        ensures
            r@ == self.status_line(),
    {
        self.status.as_str()
    }

    /// Live summary of the node, when connected.
    pub fn node(&self) -> (r: Option<&NodeSummary>)
        ensures
            match self.node_seen() {
                Some(n) => r is Some && *r.unwrap() == n,
                None => r is None,
            },
    {
        match &self.node {
            Some(n) => Some(n),
            None => None,
        }
    }

    /// Takes in the result of reading the node at `base_url`: a summary
    /// sets the status and the node; a failure records why and forgets the
    /// node. The rows are never touched.
    pub fn refresh_from_node(&mut self, base_url: &str, outcome: Result<NodeSummary, OriginError>)
        ensures
            final(self).shown() == old(self).shown(),
            match outcome {
                Ok(s) => final(self).status_line() == node_status(base_url@, s) && final(self).node_seen()
                    == Some(s),
                Err(e) => final(self).node_seen() is None && final(self).status_line() == match e {
                    OriginError::Incompatible { .. } => "origem bloqueada: "@ + e.text(),
                    OriginError::Unreachable { .. } => "nó inalcançável: "@ + e.text(),
                },
            },
    {
        match outcome {
            Ok(summary) => {
                let url = strip_trailing_str(base_url, '/');
                let mut status = lit("nó ");
                append(&mut status, url.as_str());
                append(&mut status, " · protocolo ");
                append(&mut status, decimal_of(summary.version.major as u64).as_str());
                append(&mut status, ".");
                append(&mut status, decimal_of(summary.version.minor as u64).as_str());
                append(&mut status, " · ");
                append(&mut status, decimal_of(summary.operations.len() as u64).as_str());
                append(&mut status, " operação(ões)");
                self.status = status;
                self.node = Some(summary);
            },
            Err(e) => {
                let mut status = match e {
                    OriginError::Incompatible { .. } => lit("origem bloqueada: "),
                    OriginError::Unreachable { .. } => lit("nó inalcançável: "),
                };
                append(&mut status, e.message().as_str());
                self.status = status;
                self.node = None;
            },
        }
    }
}

} // verus!
