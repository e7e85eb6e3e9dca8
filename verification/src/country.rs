//! A country, linked to leagues and teams, with its flag.

use vstd::prelude::*;
use vstd::string::*;
use crate::assets::{HOST_PATTERN, first_match_replaced, pattern_refused, replace_first_match};
use crate::error::ApplicationError;

verus! {

/// A country as stored.
#[derive(Debug, Clone)]
pub struct Model {
    /// The id within the document store, as text.
    pub id: Option<String>,
    /// The name of the country.
    pub name: String,
    /// Its two letters code.
    pub code: Option<String>,
    /// Its remote flag.
    pub flag: Option<String>,
    /// Its local flag.
    pub local_flag: Option<String>,
}

/// The local flags to set for a list of countries, in their order: one for
/// each country that has both an id and a remote flag.
pub open spec fn flag_replacements(models: Seq<Model>, base: Seq<char>) -> Seq<(Seq<char>, Seq<char>)>
    decreases models.len(),
{
    if models.len() == 0 {
        Seq::empty()
    } else {
        let rest = flag_replacements(models.drop_last(), base);
        match (models.last().id, models.last().flag) {
            (Some(id), Some(flag)) => rest.push((id@, first_match_replaced(HOST_PATTERN@, flag@, base))),
            _ => rest,
        }
    }
}

/// Whether some country has both an id and a remote flag.
pub open spec fn has_remote_flag(models: Seq<Model>) -> bool {
    exists|i: int| 0 <= i < models.len() && (#[trigger] models[i]).id is Some && models[i].flag is Some
}

/// The store of countries.
pub struct Entity;

impl Entity {
    /// The local flags of the countries that have an id and a remote flag:
    /// for each, the country id and its flag with its remote part
    /// ([`HOST_PATTERN`]) replaced by the base path of the assets. Fails when
    /// the host pattern is refused and there is a flag to replace.
    pub fn flag_replacements(models: &Vec<Model>, assets_base_path: &str) -> (r: Result<Vec<(String, String)>, ApplicationError>)
        ensures
            r is Err <==> pattern_refused(HOST_PATTERN@) && has_remote_flag(models@),
            match r {
                Ok(v) => v@.map_values(|p: (String, String)| (p.0@, p.1@)) == flag_replacements(models@, assets_base_path@),
                Err(e) => e matches ApplicationError::ParseError(m) && m@ == HOST_PATTERN@,
            },
    {
        let mut r: Vec<(String, String)> = Vec::new();
        let mut i: usize = 0;
        while i < models.len()
            invariant
                i <= models@.len(),
                r@.map_values(|p: (String, String)| (p.0@, p.1@)) == flag_replacements(models@.subrange(0, i as int), assets_base_path@),
                pattern_refused(HOST_PATTERN@) ==> forall|j: int| 0 <= j < i ==>
                    !((#[trigger] models@[j]).id is Some && models@[j].flag is Some),
            decreases models@.len() - i,
        {
            assert(models@.subrange(0, i + 1).drop_last() =~= models@.subrange(0, i as int));
            assert(models@.subrange(0, i + 1).last() == models@[i as int]);
            let ghost before = r@.map_values(|p: (String, String)| (p.0@, p.1@));
            match (&models[i].id, &models[i].flag) {
                (Some(id), Some(flag)) => {
                    match replace_first_match(HOST_PATTERN, flag.as_str(), assets_base_path) {
                        Ok(local) => {
                            r.push((id.clone(), local));
                            assert(r@.map_values(|p: (String, String)| (p.0@, p.1@)) =~= before.push(
                                (id@, first_match_replaced(HOST_PATTERN@, flag@, assets_base_path@))));
                        },
                        Err(_) => {
                            assert(models@[i as int].id is Some && models@[i as int].flag is Some);
                            return Err(ApplicationError::ParseError(String::from_str(HOST_PATTERN)));
                        },
                    }
                },
                _ => {},
            }
            i = i + 1;
        }
        assert(models@.subrange(0, models@.len() as int) =~= models@);
        Ok(r)
    }
}

/// Every country with both an id and a remote flag gets exactly one
/// replacement, in the order of the countries: its id with its flag's
/// remote part replaced by the base path, whatever else the country holds
/// (a local flag already set included); any other country gets none.
pub proof fn lemma_every_remote_flag_replaced(models: Seq<Model>, base: Seq<char>)
    ensures
        flag_replacements(models, base) == models.filter(|m: Model| m.id is Some && m.flag is Some)
            .map_values(|m: Model| (m.id.unwrap()@, first_match_replaced(HOST_PATTERN@, m.flag.unwrap()@, base))),
    decreases models.len(),
{
    let p = |m: Model| m.id is Some && m.flag is Some;
    let g = |m: Model| (m.id.unwrap()@, first_match_replaced(HOST_PATTERN@, m.flag.unwrap()@, base));
    reveal(Seq::filter);
    if models.len() > 0 {
        lemma_every_remote_flag_replaced(models.drop_last(), base);
        let rest = models.drop_last().filter(p);
        if p(models.last()) {
            assert(models.filter(p) == rest.push(models.last()));
            assert(rest.push(models.last()).map_values(g) =~= rest.map_values(g).push(g(models.last())));
        } else {
            assert(models.filter(p) == rest);
        }
    } else {
        assert(models.filter(p).map_values(g) =~= Seq::<(Seq<char>, Seq<char>)>::empty());
    }
}

} // verus!
