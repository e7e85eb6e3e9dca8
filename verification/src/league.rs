//! A league gathers games between clubs; it is searchable by name.

use vstd::prelude::*;
use vstd::string::*;
use crate::assets::{HOST_PATTERN, first_match_replaced, pattern_refused, replace_first_match};
use crate::error::ApplicationError;
use crate::search::{Lookup, LookupBuilderView, copy_ids, opt_ids, opt_text};

verus! {

/// A league: a set of games between clubs.
#[derive(Debug, Clone)]
pub struct Model {
    /// Its id at the remote API.
    pub id: u32,
    /// The league's name.
    pub name: String,
    /// Its local logo, the one used within the application.
    pub local_logo: Option<String>,
    /// The country of the league.
    pub country: Option<String>,
    /// Its remote logo.
    pub logo: String,
    /// The country's flag.
    pub flag: Option<String>,
    /// The current round of the league.
    pub round: Option<String>,
}

/// The local logos to set for a list of leagues, in their order.
pub open spec fn logo_replacements(models: Seq<Model>, base: Seq<char>) -> Seq<(u32, Seq<char>)>
    decreases models.len(),
{
    if models.len() == 0 {
        Seq::empty()
    } else {
        logo_replacements(models.drop_last(), base).push(
            (models.last().id, first_match_replaced(HOST_PATTERN@, models.last().logo@, base)))
    }
}

/// The store of leagues.
pub struct Entity;

impl Entity {
    /// The local logos of the leagues: for each, the league id and its logo
    /// with its remote part ([`HOST_PATTERN`]) replaced by the base path of
    /// the assets. Fails when the host pattern is refused and there is a
    /// league.
    pub fn logo_replacements(models: &Vec<Model>, assets_base_path: &str) -> (r: Result<Vec<(u32, String)>, ApplicationError>)
        ensures
            r is Err <==> pattern_refused(HOST_PATTERN@) && models@.len() > 0,
            match r {
                Ok(v) => v@.map_values(|p: (u32, String)| (p.0, p.1@)) == logo_replacements(models@, assets_base_path@),
                Err(e) => e matches ApplicationError::ParseError(m) && m@ == HOST_PATTERN@,
            },
    {
        let mut r: Vec<(u32, String)> = Vec::new();
        let mut i: usize = 0;
        while i < models.len()
            invariant
                i <= models@.len(),
                r@.map_values(|p: (u32, String)| (p.0, p.1@)) == logo_replacements(models@.subrange(0, i as int), assets_base_path@),
                pattern_refused(HOST_PATTERN@) ==> i == 0,
            decreases models@.len() - i,
        {
            assert(models@.subrange(0, i + 1).drop_last() =~= models@.subrange(0, i as int));
            assert(models@.subrange(0, i + 1).last() == models@[i as int]);
            let ghost before = r@.map_values(|p: (u32, String)| (p.0, p.1@));
            match replace_first_match(HOST_PATTERN, models[i].logo.as_str(), assets_base_path) {
                Ok(local) => {
                    r.push((models[i].id, local));
                    assert(r@.map_values(|p: (u32, String)| (p.0, p.1@)) =~= before.push(
                        (models@[i as int].id, first_match_replaced(HOST_PATTERN@, models@[i as int].logo@, assets_base_path@))));
                },
                Err(_) => {
                    return Err(ApplicationError::ParseError(String::from_str(HOST_PATTERN)));
                },
            }
            i = i + 1;
        }
        assert(models@.subrange(0, models@.len() as int) =~= models@);
        Ok(r)
    }
}

/// Builds a lookup of leagues, by ids or by name (never both).
#[derive(Default, Hash, Debug)]
pub struct EntityBuilder {
    /// The list of ids to query; giving ids resets the name.
    ids: Option<Vec<u32>>,
    /// The name to search for in the search engine; giving a name resets the
    /// ids.
    name: Option<String>,
}

impl View for EntityBuilder {
    type V = LookupBuilderView;

    closed spec fn view(&self) -> LookupBuilderView {
        LookupBuilderView { ids: opt_ids(self.ids), name: opt_text(self.name) }
    }
}

impl EntityBuilder {
    /// Creates the builder, with no restriction.
    pub fn build() -> (b: EntityBuilder)
        ensures
            b@ == (LookupBuilderView { ids: None, name: None }),
            b@.wf(),
    {
        EntityBuilder { ids: None, name: None }
    }

    /// Sets the ids to look up; when ids are given the name is reset.
    pub fn ids(&mut self, ids: Option<Vec<u32>>) -> (r: &mut Self)
        ensures
            r@ == old(self)@.with_ids(opt_ids(ids)),
            r@.wf(),
            final(self)@ == final(r)@,
    {
        self.ids = ids;
        if self.ids.is_some() && self.name.is_some() {
            self.name = None;
        }
        self
    }

    /// Sets the name to search for; when a name is given the ids are reset.
    pub fn name(&mut self, name: Option<String>) -> (r: &mut Self)
        ensures
            r@ == old(self)@.with_name(opt_text(name)),
            r@.wf(),
            final(self)@ == final(r)@,
    {
        self.name = name;
        if self.name.is_some() && self.ids.is_some() {
            self.ids = None;
        }
        self
    }

    /// How the lookup is run: by name in the search engine when a name is
    /// set, otherwise in the document store with the optional ids.
    pub fn lookup(&self) -> (l: Lookup)
        ensures
            l@ == self@.lookup(),
    {
        match &self.name {
            Some(name) => Lookup::ByName(name.clone()),
            None => match &self.ids {
                Some(ids) => Lookup::ByIds(Some(copy_ids(ids))),
                None => Lookup::ByIds(None),
            },
        }
    }
}

/// Every league gets exactly one replacement, in the order of the leagues:
/// its id with its logo's remote part replaced by the base path, whatever
/// else the league holds (a local logo already set included).
pub proof fn lemma_every_league_logo_replaced(models: Seq<Model>, base: Seq<char>)
    ensures
        logo_replacements(models, base)
            == models.map_values(|m: Model| (m.id, first_match_replaced(HOST_PATTERN@, m.logo@, base))),
    decreases models.len(),
{
    let g = |m: Model| (m.id, first_match_replaced(HOST_PATTERN@, m.logo@, base));
    if models.len() > 0 {
        lemma_every_league_logo_replaced(models.drop_last(), base);
        assert(models.map_values(g) =~= models.drop_last().map_values(g).push(g(models.last())));
    } else {
        assert(models.map_values(g) =~= Seq::<(u32, Seq<char>)>::empty());
    }
}

} // verus!
