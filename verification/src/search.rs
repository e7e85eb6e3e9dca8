//! How a lookup of named entities (clubs, leagues) is run: a name search
//! goes to the search engine, anything else to the document store.

use vstd::prelude::*;
use vstd::string::*;

verus! {

/// The field of the indexed documents that a name search matches.
pub const SEARCH_FIELD: &'static str = "name";

/// How many hits a name search returns at most.
pub const SEARCH_HITS: &'static str = "10";

/// The path of a name search in an index: the first
/// [`SEARCH_HITS`] hits.
pub open spec fn search_path_text(index: Seq<char>) -> Seq<char> {
    index + "/_search?from=0&size="@ + SEARCH_HITS@
}

/// The path of a name search in an index.
pub fn search_path(index: &str) -> (p: String)
    ensures
        p@ == search_path_text(index@),
{
    let mut p = String::from_str(index);
    p.append("/_search?from=0&size=");
    p.append(SEARCH_HITS);
    p
}

/// The way a lookup is run.
#[derive(Debug, Clone)]
pub enum Lookup {
    /// A full text search on the name, in the search engine.
    ByName(String),
    /// A lookup in the document store, restricted to these ids when given.
    ByIds(Option<Vec<u32>>),
}

/// The abstract value of a [`Lookup`].
pub enum LookupView {
    ByName(Seq<char>),
    ByIds(Option<Seq<u32>>),
}

impl View for Lookup {
    type V = LookupView;

    open spec fn view(&self) -> LookupView {
        match self {
            Lookup::ByName(n) => LookupView::ByName(n@),
            Lookup::ByIds(Some(ids)) => LookupView::ByIds(Some(ids@)),
            Lookup::ByIds(None) => LookupView::ByIds(None),
        }
    }
}

/// The abstract value of a lookup builder: the ids and the name searched.
pub struct LookupBuilderView {
    pub ids: Option<Seq<u32>>,
    pub name: Option<Seq<char>>,
}

impl LookupBuilderView {
    /// A builder never searches by ids and by name at once.
    pub open spec fn wf(self) -> bool {
        !(self.ids is Some && self.name is Some)
    }

    /// The builder after the ids were set: a given list of ids drops the name.
    pub open spec fn with_ids(self, ids: Option<Seq<u32>>) -> LookupBuilderView {
        LookupBuilderView {
            ids,
            name: if ids is Some { None } else { self.name },
        }
    }

    /// The builder after the name was set: a given name drops the ids.
    pub open spec fn with_name(self, name: Option<Seq<char>>) -> LookupBuilderView {
        LookupBuilderView {
            ids: if name is Some { None } else { self.ids },
            name,
        }
    }

    /// The lookup the builder describes.
    pub open spec fn lookup(self) -> LookupView {
        match self.name {
            Some(n) => LookupView::ByName(n),
            None => LookupView::ByIds(self.ids),
        }
    }
}

/// A copy of a list of ids.
pub(crate) fn copy_ids(v: &Vec<u32>) -> (r: Vec<u32>)
    ensures
        r@ == v@,
{
    let mut r: Vec<u32> = Vec::new();
    let mut i: usize = 0;
    while i < v.len()
        invariant
            i <= v@.len(),
            r@ == v@.subrange(0, i as int),
        decreases v@.len() - i,
    {
        r.push(v[i]);
        i = i + 1;
    }
    assert(r@ =~= v@);
    r
}

pub open spec fn opt_ids(v: Option<Vec<u32>>) -> Option<Seq<u32>> {
    match v {
        Some(ids) => Some(ids@),
        None => None,
    }
}

pub open spec fn opt_text(v: Option<String>) -> Option<Seq<char>> {
    match v {
        Some(s) => Some(s@),
        None => None,
    }
}

/// Whatever the order in which ids and name are set, a builder searches by at
/// most one of them, and it searches by the last one given.
pub proof fn lemma_lookup_exclusive(b: LookupBuilderView, ids: Option<Seq<u32>>, name: Option<Seq<char>>)
    ensures
        b.with_ids(ids).wf(),
        b.with_name(name).wf(),
        ids matches Some(i) ==> b.with_ids(ids).lookup() == LookupView::ByIds(Some(i)),
        name matches Some(n) ==> b.with_name(name).lookup() == LookupView::ByName(n),
        name is None && b.wf() ==> b.with_name(name).lookup() == LookupView::ByIds(b.ids),
{
}

} // verus!
