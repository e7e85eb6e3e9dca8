//! A club, stored from the teams of the games, searchable by name.

use vstd::prelude::*;
use vstd::string::*;
use crate::assets::{HOST_PATTERN, first_match_replaced, pattern_refused, replace_first_match};
use crate::error::ApplicationError;
use crate::search::{Lookup, LookupBuilderView, copy_ids, opt_ids, opt_text};

verus! {

/// A club, as stored from the teams of the games.
#[derive(Debug, Clone)]
pub struct Model {
    /// Its id at the remote API.
    pub id: u32,
    /// The club's name.
    pub name: String,
    /// Its remote logo.
    pub logo: Option<String>,
    /// Its local logo, the one used within the application.
    pub local_logo: Option<String>,
}

/// The local logos to set for a list of clubs, in their order: one for each
/// club that has a remote logo.
pub open spec fn logo_replacements(models: Seq<Model>, base: Seq<char>) -> Seq<(u32, Seq<char>)>
    decreases models.len(),
{
    if models.len() == 0 {
        Seq::empty()
    } else {
        let rest = logo_replacements(models.drop_last(), base);
        match models.last().logo {
            Some(logo) => rest.push((models.last().id, first_match_replaced(HOST_PATTERN@, logo@, base))),
            None => rest,
        }
    }
}

/// Whether some club has a remote logo.
pub open spec fn has_remote_logo(models: Seq<Model>) -> bool {
    exists|i: int| 0 <= i < models.len() && (#[trigger] models[i]).logo is Some
}

/// The store of clubs.
pub struct Entity;

impl Entity {
    /// The local logos of the clubs that have a remote logo: for each, the
    /// club id and its logo with its remote part ([`HOST_PATTERN`]) replaced
    /// by the base path of the assets. Fails when the host pattern is refused
    /// and there is a logo to replace.
    pub fn logo_replacements(models: &Vec<Model>, assets_base_path: &str) -> (r: Result<Vec<(u32, String)>, ApplicationError>)
        ensures
            r is Err <==> pattern_refused(HOST_PATTERN@) && has_remote_logo(models@),
            match r {
                Ok(v) => v@.map_values(|p: (u32, String)| (p.0, p.1@)) == logo_replacements(models@, assets_base_path@),
                Err(e) => e matches ApplicationError::ParseError(m) && m@ == HOST_PATTERN@,
            },
    {
        let mut r: Vec<(u32, String)> = Vec::new();
        let mut i: usize = 0;
        while i < models.len()
            invariant
                i <= models@.len(),
                r@.map_values(|p: (u32, String)| (p.0, p.1@)) == logo_replacements(models@.subrange(0, i as int), assets_base_path@),
                pattern_refused(HOST_PATTERN@) ==> forall|j: int| 0 <= j < i ==> (#[trigger] models@[j]).logo is None,
            decreases models@.len() - i,
        {
            assert(models@.subrange(0, i + 1).drop_last() =~= models@.subrange(0, i as int));
            assert(models@.subrange(0, i + 1).last() == models@[i as int]);
            let ghost before = r@.map_values(|p: (u32, String)| (p.0, p.1@));
            match &models[i].logo {
                Some(logo) => {
                    match replace_first_match(HOST_PATTERN, logo.as_str(), assets_base_path) {
                        Ok(local) => {
                            r.push((models[i].id, local));
                            assert(r@.map_values(|p: (u32, String)| (p.0, p.1@)) =~= before.push(
                                (models@[i as int].id, first_match_replaced(HOST_PATTERN@, logo@, assets_base_path@))));
                        },
                        Err(_) => {
                            assert(models@[i as int].logo is Some);
                            return Err(ApplicationError::ParseError(String::from_str(HOST_PATTERN)));
                        },
                    }
                },
                None => {},
            }
            i = i + 1;
        }
        assert(models@.subrange(0, models@.len() as int) =~= models@);
        Ok(r)
    }
}

/// Builds a lookup of clubs, by ids or by name (never both).
#[derive(Default, Hash, Debug)]
pub struct EntityBuilder {
    /// The list of ids to query; giving ids resets the name.
    ids: Option<Vec<u32>>,
    /// The name to search for in the search engine; giving a name resets the
    /// ids.
    name: Option<String>,
}

impl View for EntityBuilder {
    type V = LookupBuilderView;

    closed spec fn view(&self) -> LookupBuilderView {
        LookupBuilderView { ids: opt_ids(self.ids), name: opt_text(self.name) }
    }
}

impl EntityBuilder {
    /// Creates the builder, with no restriction.
    pub fn build() -> (b: EntityBuilder)
        ensures
            b@ == (LookupBuilderView { ids: None, name: None }),
            b@.wf(),
    {
        EntityBuilder { ids: None, name: None }
    }

    /// Sets the ids to look up; when ids are given the name is reset.
    pub fn ids(&mut self, ids: Option<Vec<u32>>) -> (r: &mut Self)
        ensures
            r@ == old(self)@.with_ids(opt_ids(ids)),
            r@.wf(),
            final(self)@ == final(r)@,
    {
        self.ids = ids;
        if self.ids.is_some() && self.name.is_some() {
            self.name = None;
        }
        self
    }

    /// Sets the name to search for; when a name is given the ids are reset.
    pub fn name(&mut self, name: Option<String>) -> (r: &mut Self)
        ensures
            r@ == old(self)@.with_name(opt_text(name)),
            r@.wf(),
            final(self)@ == final(r)@,
    {
        self.name = name;
        if self.name.is_some() && self.ids.is_some() {
            self.ids = None;
        }
        self
    }

    /// How the lookup is run: by name in the search engine when a name is
    /// set, otherwise in the document store with the optional ids.
    pub fn lookup(&self) -> (l: Lookup)
        ensures
            l@ == self@.lookup(),
    {
        match &self.name {
            Some(name) => Lookup::ByName(name.clone()),
            None => match &self.ids {
                Some(ids) => Lookup::ByIds(Some(copy_ids(ids))),
                None => Lookup::ByIds(None),
            },
        }
    }
}

/// Every club with a remote logo gets exactly one replacement, in the order
/// of the clubs: its id with its logo's remote part replaced by the base
/// path, whatever else the club holds (a local logo already set included);
/// a club without a remote logo gets none.
pub proof fn lemma_every_remote_logo_replaced(models: Seq<Model>, base: Seq<char>)
    ensures
        logo_replacements(models, base) == models.filter(|m: Model| m.logo is Some)
            .map_values(|m: Model| (m.id, first_match_replaced(HOST_PATTERN@, m.logo.unwrap()@, base))),
    decreases models.len(),
{
    let p = |m: Model| m.logo is Some;
    let g = |m: Model| (m.id, first_match_replaced(HOST_PATTERN@, m.logo.unwrap()@, base));
    reveal(Seq::filter);
    if models.len() > 0 {
        lemma_every_remote_logo_replaced(models.drop_last(), base);
        let rest = models.drop_last().filter(p);
        if p(models.last()) {
            assert(models.filter(p) == rest.push(models.last()));
            assert(rest.push(models.last()).map_values(g) =~= rest.map_values(g).push(g(models.last())));
        } else {
            assert(models.filter(p) == rest);
        }
    } else {
        assert(models.filter(p).map_values(g) =~= Seq::<(u32, Seq<char>)>::empty());
    }
}

} // verus!
