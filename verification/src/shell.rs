//! State of the application shell: the always-visible context and the
//! command palette. A dangerous command is never the first result of an
//! ambiguous query, and Enter never activates one.

use vstd::prelude::*;
use crate::design::Theme;
use crate::text::{lit, contains, contains_str, lemma_filter_push};

verus! {

broadcast use vstd::seq_lib::group_seq_properties;

/// Where the data on screen comes from.
#[derive(Debug, Clone, Copy, PartialEq, Eq, Structural)]
pub enum DataSource {
    Live,
    Cache,
    Imported,
    Demo,
}

impl DataSource {
    /// Short label for the top bar.
    pub open spec fn title(self) -> Seq<char> {
        match self {
            DataSource::Live => "ao vivo"@,
            DataSource::Cache => "cache local"@,
            DataSource::Imported => "registro importado"@,
            DataSource::Demo => "Demonstração · dados simulados"@,
        }
    }

    /// Short label for the top bar.
    pub fn label(self) -> (r: &'static str)
        ensures
            r@ == self.title(),
    {
        match self {
            DataSource::Live => "ao vivo",
            DataSource::Cache => "cache local",
            DataSource::Imported => "registro importado",
            DataSource::Demo => "Demonstração · dados simulados",
        }
    }
}

/// Context always visible on the top bar: project, domain, data source
/// and theme.
#[derive(Debug, Clone, PartialEq, Eq)]
pub struct ShellContext {
    pub project: String,
    pub domain: String,
    pub source: DataSource,
    pub theme: Theme,
}

impl Default for ShellContext {
    fn default() -> (r: Self)
        ensures
            r.project@ == "Laboratório"@,
            r.domain@ == "78"@,
            r.source == DataSource::Live,
            r.theme == Theme::System,
    {
        ShellContext { project: lit("Laboratório"), domain: lit("78"), source: DataSource::Live, theme: Theme::System }
    }
}

/// A searchable item of the command palette.
#[derive(Debug, Clone, PartialEq, Eq)]
pub struct CommandItem {
    pub title: String,
    pub section: String,
    pub dangerous: bool,
}

/// The full Unicode lowercase mapping of a text (`str::to_lowercase`),
/// independent of locale.
pub uninterp spec fn lowercase(s: Seq<char>) -> Seq<char>;

/// Lowercases `s` (std `str::to_lowercase`).
#[verifier::external_body]
fn to_lower(s: &str) -> (r: String)
    ensures
        r@ == lowercase(s@),
{
    s.to_lowercase()
}

/// An item matches a query when its lowercased title or section contains
/// the lowercased query.
pub open spec fn command_matches(item: CommandItem, query: Seq<char>) -> bool {
    contains(lowercase(item.title@), lowercase(query)) || contains(lowercase(item.section@), lowercase(query))
}

/// Matching on texts already lowercased.
pub fn matches_folded(title: &str, section: &str, query: &str) -> (r: bool)
    ensures
        r == (contains(title@, query@) || contains(section@, query@)),
{
    contains_str(title, query) || contains_str(section, query)
}

impl CommandItem {
    /// The item matches `query`, ignoring case.
    pub fn matches(&self, query: &str) -> (r: bool)
        ensures
            r == command_matches(*self, query@),
    {
        let q = to_lower(query);
        let t = to_lower(self.title.as_str());
        let s = to_lower(self.section.as_str());
        matches_folded(t.as_str(), s.as_str(), q.as_str())
    }
}

/// The palette's results: the matching items that are safe, in order,
/// then the matching dangerous ones, in order.
pub open spec fn ranked(items: Seq<CommandItem>, query: Seq<char>) -> Seq<CommandItem> {
    items.filter(|i: CommandItem| command_matches(i, query) && !i.dangerous) + items.filter(
        |i: CommandItem| command_matches(i, query) && i.dangerous,
    )
}

fn collect_matching<'a>(items: &'a [CommandItem], query: &str, dangerous: bool, r: &mut Vec<&'a CommandItem>)
    ensures
        final(r)@.map_values(|p: &CommandItem| *p) == old(r)@.map_values(|p: &CommandItem| *p) + items@.filter(
            |i: CommandItem| command_matches(i, query@) && i.dangerous == dangerous,
        ),
{
    let ghost pred = |i: CommandItem| command_matches(i, query@) && i.dangerous == dangerous;
    let ghost start = r@.map_values(|p: &CommandItem| *p);
    let mut k: usize = 0;
    assert(items@.take(0) =~= Seq::<CommandItem>::empty());
    assert(start + items@.take(0).filter(pred) =~= start);
    while k < items.len()
        invariant
            k <= items@.len(),
            pred == (|i: CommandItem| command_matches(i, query@) && i.dangerous == dangerous),
            r@.map_values(|p: &CommandItem| *p) == start + items@.take(k as int).filter(pred),
        decreases items.len() - k,
    {
        let item = &items[k];
        proof {
            assert(items@.take(k + 1) =~= items@.take(k as int).push(*item));
            lemma_filter_push(items@.take(k as int), *item, pred);
        }
        if item.dangerous == dangerous && item.matches(query) {
            let ghost before = r@;
            r.push(item);
            assert(r@.map_values(|p: &CommandItem| *p) =~= before.map_values(|p: &CommandItem| *p).push(*item));
            assert(start + items@.take(k as int).filter(pred).push(*item) =~= (start + items@.take(k as int).filter(
                pred,
            )).push(*item));
        }
        k = k + 1;
    }
    assert(items@.take(items@.len() as int) =~= items@);
}

/// Filters the items by query (an empty query keeps all): safe items
/// first, dangerous ones at the end, each group in the order of `items`.
pub fn filter_commands<'a>(items: &'a [CommandItem], query: &str) -> (r: Vec<&'a CommandItem>)
    ensures
        r@.map_values(|p: &CommandItem| *p) == ranked(items@, query@),
{
    let mut r: Vec<&CommandItem> = Vec::new();
    assert(r@.map_values(|p: &CommandItem| *p) =~= Seq::<CommandItem>::empty());
    collect_matching(items, query, false, &mut r);
    collect_matching(items, query, true, &mut r);
    proof {
        let a = items@.filter(|i: CommandItem| command_matches(i, query@) && i.dangerous == false);
        let b = items@.filter(|i: CommandItem| command_matches(i, query@) && !i.dangerous);
        assert((|i: CommandItem| command_matches(i, query@) && i.dangerous == false) =~= (|i: CommandItem|
            command_matches(i, query@) && !i.dangerous));
        let c = items@.filter(|i: CommandItem| command_matches(i, query@) && i.dangerous == true);
        assert((|i: CommandItem| command_matches(i, query@) && i.dangerous == true) =~= (|i: CommandItem|
            command_matches(i, query@) && i.dangerous));
        assert(Seq::<CommandItem>::empty() + a =~= a);
    }
    r
}

/// What Enter activates: the first result when it is safe, nothing when
/// the first result is dangerous.
pub fn enter_picks<'a>(ranked: &[&'a CommandItem]) -> (r: Option<&'a CommandItem>)
    ensures
        ranked@.len() == 0 ==> r is None,
        ranked@.len() > 0 ==> if ranked@[0].dangerous {
            r is None
        } else {
            r == Some(ranked@[0])
        },
{
    if ranked.len() == 0 {
        return None;
    }
    let first = ranked[0];
    if !first.dangerous {
        Some(first)
    } else {
        None
    }
}

/// In the palette's results no safe item comes after a dangerous one, so
/// a dangerous item is first only when nothing safe matched; and Enter on
/// the results never activates a dangerous item.
pub proof fn lemma_dangerous_never_first(items: Seq<CommandItem>, query: Seq<char>)
    ensures
        forall|i: int, j: int| 0 <= i < j < ranked(items, query).len() && (#[trigger] ranked(items, query)[i]).dangerous
            ==> (#[trigger] ranked(items, query)[j]).dangerous,
        ranked(items, query).len() > 0 && ranked(items, query)[0].dangerous ==> forall|k: int| 0 <= k < items.len()
            && command_matches(#[trigger] items[k], query) ==> items[k].dangerous,
{
    let safe = |i: CommandItem| command_matches(i, query) && !i.dangerous;
    let risky = |i: CommandItem| command_matches(i, query) && i.dangerous;
    let a = items.filter(safe);
    let b = items.filter(risky);
    assert forall|k: int| 0 <= k < a.len() implies !(#[trigger] a[k]).dangerous by {
        items.lemma_filter_pred(safe, k);
    }
    assert forall|k: int| 0 <= k < b.len() implies (#[trigger] b[k]).dangerous by {
        items.lemma_filter_pred(risky, k);
    }
    assert forall|i: int, j: int| 0 <= i < j < ranked(items, query).len() && (#[trigger] ranked(items, query)[i]).dangerous
        implies (#[trigger] ranked(items, query)[j]).dangerous by {
        if i < a.len() {
            assert(ranked(items, query)[i] == a[i]);
        } else {
            assert(ranked(items, query)[j] == b[j - a.len()]);
        }
    }
    if ranked(items, query).len() > 0 && ranked(items, query)[0].dangerous {
        assert forall|k: int| 0 <= k < items.len() && command_matches(#[trigger] items[k], query) implies items[k].dangerous by {
            if !items[k].dangerous {
                items.lemma_filter_contains(safe, k);
                assert(a.len() > 0);
                assert(ranked(items, query)[0] == a[0]);
            }
        }
    }
}

} // verus!
