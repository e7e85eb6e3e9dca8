//! The translation manager answers, for a label and a locale, the text to
//! display; it is built once from all the stored translations.

use vstd::prelude::*;
use vstd::string::*;
use vstd::hash_map::{HashMapWithView, StringHashMap};
use crate::error::ApplicationError;
use crate::translation::{covered, resolved_text, resolves, row_ok, translates, Label, Model as Translation, StoredTranslation};
use crate::translation::Entity as Translations;

verus! {

broadcast use vstd::std_specs::hash::group_hash_axioms;

/// The translations indexed by locale, then by label name.
pub struct Model {
    mapped_translation: HashMapWithView<u32, StringHashMap<String>>,
}

/// The table of a list of translations: for each locale and label name that
/// occur, the text of the last translation given for them.
pub open spec fn translation_table(ts: Seq<Translation>) -> Map<(u32, Seq<char>), Seq<char>>
    decreases ts.len(),
{
    if ts.len() == 0 {
        Map::empty()
    } else {
        let t = ts.last();
        translation_table(ts.drop_last()).insert((t.locale_id, t.label_name@), t.translation@)
    }
}

impl View for Model {
    type V = Map<(u32, Seq<char>), Seq<char>>;

    closed spec fn view(&self) -> Map<(u32, Seq<char>), Seq<char>> {
        let outer = self.mapped_translation@;
        Map::new(
            |k: (u32, Seq<char>)| outer.contains_key(k.0) && outer[k.0]@.contains_key(k.1),
            |k: (u32, Seq<char>)| outer[k.0]@[k.1]@,
        )
    }
}

impl Model {
    /// Translates one label for the given locale; a label that has no
    /// translation for the locale is an error.
    pub fn translate(&self, label_name: &str, locale_id: u32) -> (r: Result<&str, ApplicationError>)
        ensures
            match r {
                Ok(t) => self@.contains_key((locale_id, label_name@)) && t@ == self@[(locale_id, label_name@)],
                Err(e) => !self@.contains_key((locale_id, label_name@))
                    && (e matches ApplicationError::TranslationError(l, loc) && l@ == label_name@ && loc == locale_id),
            },
    {
        match self.mapped_translation.get(&locale_id) {
            Some(labels) => match labels.get(label_name) {
                Some(translation) => Ok(translation.as_str()),
                None => Err(ApplicationError::TranslationError(String::from_str(label_name), locale_id)),
            },
            None => Err(ApplicationError::TranslationError(String::from_str(label_name), locale_id)),
        }
    }
}

/// Builds translation managers.
pub struct Entity;

impl Entity {
    /// Builds the manager from the stored translations; when a locale and a
    /// label occur twice, the later translation wins.
    pub fn init_from(translations: Vec<Translation>) -> (m: Model)
        ensures
            m@ == translation_table(translations@),
    {
        let mut mapped_translation: HashMapWithView<u32, StringHashMap<String>> = HashMapWithView::new();
        let mut m = Model { mapped_translation };
        assert(m@ =~= translation_table(translations@.subrange(0, 0)));
        let mut i: usize = 0;
        while i < translations.len()
            invariant
                i <= translations@.len(),
                m@ == translation_table(translations@.subrange(0, i as int)),
            decreases translations@.len() - i,
        {
            let t = &translations[i];
            let ghost before = m@;
            let mut labels = match m.mapped_translation.remove(&t.locale_id) {
                Some(labels) => labels,
                None => StringHashMap::new(),
            };
            labels.insert(t.label_name.clone(), t.translation.clone());
            m.mapped_translation.insert(t.locale_id, labels);
            assert(m@ =~= before.insert((t.locale_id, t.label_name@), t.translation@));
            assert(translations@.subrange(0, i + 1).drop_last() =~= translations@.subrange(0, i as int));
            i = i + 1;
        }
        assert(translations@.subrange(0, translations@.len() as int) =~= translations@);
        m
    }
}

/// A label is translated for a locale exactly when some translation names
/// them, and the text is that of the last such translation.
pub proof fn lemma_table_lookup(ts: Seq<Translation>, locale_id: u32, label: Seq<char>)
    ensures
        translation_table(ts).contains_key((locale_id, label)) <==> exists|i: int|
            0 <= i < ts.len() && ts[i].locale_id == locale_id && #[trigger] ts[i].label_name@ == label,
        translation_table(ts).contains_key((locale_id, label)) ==> exists|i: int|
            0 <= i < ts.len() && ts[i].locale_id == locale_id && #[trigger] ts[i].label_name@ == label
            && translation_table(ts)[(locale_id, label)] == ts[i].translation@
            && forall|j: int| i < j < ts.len() ==> !(ts[j].locale_id == locale_id && ts[j].label_name@ == label),
    decreases ts.len(),
{
    if ts.len() > 0 {
        let rest = ts.drop_last();
        lemma_table_lookup(rest, locale_id, label);
        let t = ts.last();
        if t.locale_id == locale_id && t.label_name@ == label {
            assert(ts[ts.len() - 1].label_name@ == label);
        } else {
            if translation_table(ts).contains_key((locale_id, label)) {
                let i = choose|i: int| 0 <= i < rest.len() && rest[i].locale_id == locale_id
                    && #[trigger] rest[i].label_name@ == label
                    && translation_table(rest)[(locale_id, label)] == rest[i].translation@
                    && forall|j: int| i < j < rest.len() ==> !(rest[j].locale_id == locale_id && rest[j].label_name@ == label);
                assert(ts[i] == rest[i]);
                assert forall|j: int| i < j < ts.len() implies !(ts[j].locale_id == locale_id && ts[j].label_name@ == label) by {
                    if j < ts.len() - 1 {
                        assert(ts[j] == rest[j]);
                    }
                }
            }
            assert forall|i: int| 0 <= i < ts.len() && ts[i].locale_id == locale_id && #[trigger] ts[i].label_name@ == label
                implies translation_table(ts).contains_key((locale_id, label)) by {
                if i < ts.len() - 1 {
                    assert(rest[i] == ts[i]);
                }
            }
        }
    }
}

/// Whether no two labels share a name.
pub open spec fn unique_label_names(labels: Seq<Label>) -> bool {
    forall|i: int, j: int| 0 <= i < j < labels.len() ==> labels[i].name@ != labels[j].name@
}

/// What a table built from the translations of every label for every locale
/// answers: each label, for each locale, is translated with the stored
/// translation, or with the label's default translation when none is
/// stored, provided label names are unique; and only the labels, for the
/// locales, are translated.
pub proof fn lemma_default_translation(
    ts: Seq<Translation>,
    locale_ids: Seq<u32>,
    labels: Seq<Label>,
    stored: Seq<StoredTranslation>,
    li: int,
    bi: int,
)
    requires
        resolves(ts, locale_ids, labels, stored),
        unique_label_names(labels),
        0 <= li < locale_ids.len(),
        0 <= bi < labels.len(),
    ensures
        translation_table(ts).contains_key((locale_ids[li], labels[bi].name@)),
        translation_table(ts)[(locale_ids[li], labels[bi].name@)] == resolved_text(labels[bi], locale_ids[li], stored),
{
    let loc = locale_ids[li];
    let name = labels[bi].name@;
    assert(covered(ts, labels[bi], loc, stored));
    let k = choose|k: int| 0 <= k < ts.len() && #[trigger] translates(ts[k], labels[bi], loc, stored);
    lemma_table_lookup(ts, loc, name);
    assert(ts[k].locale_id == loc && ts[k].label_name@ == name);
    let i = choose|i: int| 0 <= i < ts.len() && ts[i].locale_id == loc && #[trigger] ts[i].label_name@ == name
        && translation_table(ts)[(loc, name)] == ts[i].translation@
        && forall|j: int| i < j < ts.len() ==> !(ts[j].locale_id == loc && ts[j].label_name@ == name);
    assert(row_ok(ts[i], locale_ids, labels, stored));
    let (li2, bi2) = choose|li2: int, bi2: int| 0 <= li2 < locale_ids.len() && 0 <= bi2 < labels.len()
        && #[trigger] translates(ts[i], labels[bi2], locale_ids[li2], stored);
    if bi2 != bi {
        if bi2 < bi {
            assert(labels[bi2].name@ != labels[bi].name@);
        } else {
            assert(labels[bi].name@ != labels[bi2].name@);
        }
    }
}

/// Only the labels, for the locales, are translated by a table built from
/// the translations of every label for every locale.
pub proof fn lemma_only_labels_translated(
    ts: Seq<Translation>,
    locale_ids: Seq<u32>,
    labels: Seq<Label>,
    stored: Seq<StoredTranslation>,
    locale_id: u32,
    name: Seq<char>,
)
    requires
        resolves(ts, locale_ids, labels, stored),
    ensures
        translation_table(ts).contains_key((locale_id, name)) ==> exists|li: int, bi: int|
            0 <= li < locale_ids.len() && 0 <= bi < labels.len() && #[trigger] locale_ids[li] == locale_id && #[trigger] labels[bi].name@ == name,
{
    lemma_table_lookup(ts, locale_id, name);
    if translation_table(ts).contains_key((locale_id, name)) {
        let i = choose|i: int| 0 <= i < ts.len() && ts[i].locale_id == locale_id && #[trigger] ts[i].label_name@ == name;
        assert(row_ok(ts[i], locale_ids, labels, stored));
        let (li, bi) = choose|li: int, bi: int| 0 <= li < locale_ids.len() && 0 <= bi < labels.len()
            && #[trigger] translates(ts[i], labels[bi], locale_ids[li], stored);
        assert(labels[bi].name@ == name);
    }
}

impl Entity {
    /// Builds the manager from the locales, the labels and the stored
    /// translations: every label is translated for every locale, with the
    /// stored translation, or the label's default translation when none is
    /// stored.
    pub fn init_with_defaults(locale_ids: &Vec<u32>, labels: &Vec<Label>, stored: &Vec<StoredTranslation>) -> (m: Model)
        ensures
            unique_label_names(labels@) ==> forall|li: int, bi: int|
                0 <= li < locale_ids@.len() && 0 <= bi < labels@.len()
                ==> #[trigger] m@.contains_key((locale_ids@[li], labels@[bi].name@))
                    && m@[(locale_ids@[li], labels@[bi].name@)] == resolved_text(labels@[bi], locale_ids@[li], stored@),
            forall|key: (u32, Seq<char>)| #[trigger] m@.contains_key(key) ==> exists|li: int, bi: int|
                0 <= li < locale_ids@.len() && 0 <= bi < labels@.len() && #[trigger] locale_ids@[li] == key.0 && #[trigger] labels@[bi].name@ == key.1,
    {
        let ts = Translations::resolve(locale_ids, labels, stored);
        let m = Self::init_from(ts);
        proof {
            if unique_label_names(labels@) {
                assert forall|li: int, bi: int| 0 <= li < locale_ids@.len() && 0 <= bi < labels@.len()
                    implies #[trigger] m@.contains_key((locale_ids@[li], labels@[bi].name@))
                        && m@[(locale_ids@[li], labels@[bi].name@)] == resolved_text(labels@[bi], locale_ids@[li], stored@) by {
                    lemma_default_translation(ts@, locale_ids@, labels@, stored@, li, bi);
                }
            }
            assert forall|key: (u32, Seq<char>)| #[trigger] m@.contains_key(key) implies exists|li: int, bi: int|
                0 <= li < locale_ids@.len() && 0 <= bi < labels@.len() && #[trigger] locale_ids@[li] == key.0 && #[trigger] labels@[bi].name@ == key.1 by {
                lemma_only_labels_translated(ts@, locale_ids@, labels@, stored@, key.0, key.1);
            }
        }
        m
    }
}

} // verus!
