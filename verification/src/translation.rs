//! A translation of a label for a locale, falling back to the label's
//! default translation.

use vstd::prelude::*;

verus! {

/// The translation of one label for one locale.
#[derive(Clone, Debug)]
pub struct Model {
    /// The label's id.
    pub label_id: u32,
    /// The label's name, such as HOME_WELCOME_LABEL.
    pub label_name: String,
    /// The locale's id.
    pub locale_id: u32,
    /// The translated text.
    pub translation: String,
}

/// A label of the application, with the text shown for a locale that has no
/// translation of it.
#[derive(Clone, Debug)]
pub struct Label {
    /// Its id.
    pub id: u32,
    /// Its name, such as HOME_WELCOME_LABEL.
    pub name: String,
    /// The text shown where no translation is stored.
    pub default_translation: String,
}

/// A translation stored for a label and a locale.
#[derive(Clone, Debug)]
pub struct StoredTranslation {
    /// The label's id.
    pub label_id: u32,
    /// The locale's id.
    pub locale_id: u32,
    /// The translated text.
    pub translation: String,
}

/// The text stored for a label and a locale: that of the last stored
/// translation for them, if any.
pub open spec fn stored_text(stored: Seq<StoredTranslation>, label_id: u32, locale_id: u32) -> Option<Seq<char>>
    decreases stored.len(),
{
    if stored.len() == 0 {
        None
    } else if stored.last().label_id == label_id && stored.last().locale_id == locale_id {
        Some(stored.last().translation@)
    } else {
        stored_text(stored.drop_last(), label_id, locale_id)
    }
}

/// The text of a label for a locale: the stored translation, or the label's
/// default translation when none is stored.
pub open spec fn resolved_text(label: Label, locale_id: u32, stored: Seq<StoredTranslation>) -> Seq<char> {
    match stored_text(stored, label.id, locale_id) {
        Some(t) => t,
        None => label.default_translation@,
    }
}

/// Whether `t` is the translation of `label` for `locale_id`.
pub open spec fn translates(t: Model, label: Label, locale_id: u32, stored: Seq<StoredTranslation>) -> bool {
    &&& t.locale_id == locale_id
    &&& t.label_id == label.id
    &&& t.label_name@ == label.name@
    &&& t.translation@ == resolved_text(label, locale_id, stored)
}

/// Whether `t` is the translation of some label for some locale.
pub open spec fn row_ok(t: Model, locale_ids: Seq<u32>, labels: Seq<Label>, stored: Seq<StoredTranslation>) -> bool {
    exists|li: int, bi: int| 0 <= li < locale_ids.len() && 0 <= bi < labels.len()
        && #[trigger] translates(t, labels[bi], locale_ids[li], stored)
}

/// Whether `ts` holds the translation of `label` for `locale_id`.
pub open spec fn covered(ts: Seq<Model>, label: Label, locale_id: u32, stored: Seq<StoredTranslation>) -> bool {
    exists|k: int| 0 <= k < ts.len() && #[trigger] translates(ts[k], label, locale_id, stored)
}

/// Whether every translation of `ts` is that of a label for a locale.
pub open spec fn rows_valid(ts: Seq<Model>, locale_ids: Seq<u32>, labels: Seq<Label>, stored: Seq<StoredTranslation>) -> bool {
    forall|k: int| 0 <= k < ts.len() ==> #[trigger] row_ok(ts[k], locale_ids, labels, stored)
}

/// Whether `ts` holds the translation of every label for each of the first
/// `n` locales.
pub open spec fn rows_cover(ts: Seq<Model>, locale_ids: Seq<u32>, labels: Seq<Label>, stored: Seq<StoredTranslation>, n: int) -> bool {
    forall|li: int, bi: int| 0 <= li < n && 0 <= bi < labels.len() ==> #[trigger] covered(ts, labels[bi], locale_ids[li], stored)
}

/// Whether `ts` gives the text of every label for every locale and nothing
/// else.
pub open spec fn resolves(ts: Seq<Model>, locale_ids: Seq<u32>, labels: Seq<Label>, stored: Seq<StoredTranslation>) -> bool {
    &&& rows_valid(ts, locale_ids, labels, stored)
    &&& rows_cover(ts, locale_ids, labels, stored, locale_ids.len() as int)
}

/// Whether `ts` holds, in order, the translations of every label for each
/// of the first `n` locales: the row `x * labels.len() + y` translates the
/// label `y` for the locale `x`.
pub open spec fn rows_in_order(ts: Seq<Model>, locale_ids: Seq<u32>, labels: Seq<Label>, stored: Seq<StoredTranslation>, n: int) -> bool {
    &&& ts.len() == n * labels.len()
    &&& forall|x: int, y: int| #![trigger labels[y], locale_ids[x]] 0 <= x < n && 0 <= y < labels.len()
        ==> translates(ts[x * labels.len() + y], labels[y], locale_ids[x], stored)
}

proof fn lemma_block_index(x: int, y: int, a: int, l: int)
    by (nonlinear_arith)
    requires
        0 <= x < a,
        0 <= y < l,
    ensures
        0 <= x * l + y < a * l,
{
}

proof fn lemma_next_block(a: int, l: int)
    by (nonlinear_arith)
    requires
        0 <= a,
        0 <= l,
    ensures
        a * l + l == (a + 1) * l,
        0 <= a * l,
{
}

/// Appending the translations of every label for the next locale keeps the
/// rows in order.
proof fn lemma_in_order_step(
    before: Seq<Model>,
    added: Seq<Model>,
    locale_ids: Seq<u32>,
    labels: Seq<Label>,
    stored: Seq<StoredTranslation>,
    a: int,
)
    requires
        0 <= a < locale_ids.len(),
        rows_in_order(before, locale_ids, labels, stored, a),
        added.len() == labels.len(),
        forall|y: int| 0 <= y < labels.len() ==> #[trigger] translates(added[y], labels[y], locale_ids[a], stored),
    ensures
        rows_in_order(before + added, locale_ids, labels, stored, a + 1),
{
    let l = labels.len() as int;
    let ts = before + added;
    lemma_next_block(a, l);
    assert forall|x: int, y: int| #![trigger labels[y], locale_ids[x]] 0 <= x < a + 1 && 0 <= y < labels.len()
        implies translates(ts[x * labels.len() + y], labels[y], locale_ids[x], stored) by {
        if x < a {
            lemma_block_index(x, y, a, l);
            assert(ts[x * l + y] == before[x * l + y]);
        } else {
            assert(x * l == a * l);
            assert(ts[x * l + y] == added[y]);
        }
    }
}

/// Appending the translations of every label for the next locale keeps the
/// rows valid and covers one more locale.
proof fn lemma_resolve_step(
    before: Seq<Model>,
    added: Seq<Model>,
    locale_ids: Seq<u32>,
    labels: Seq<Label>,
    stored: Seq<StoredTranslation>,
    a: int,
)
    requires
        0 <= a < locale_ids.len(),
        rows_valid(before, locale_ids, labels, stored),
        rows_cover(before, locale_ids, labels, stored, a),
        added.len() == labels.len(),
        forall|y: int| 0 <= y < labels.len() ==> #[trigger] translates(added[y], labels[y], locale_ids[a], stored),
    ensures
        rows_valid(before + added, locale_ids, labels, stored),
        rows_cover(before + added, locale_ids, labels, stored, a + 1),
{
    let ts = before + added;
    assert forall|k: int| 0 <= k < ts.len() implies #[trigger] row_ok(ts[k], locale_ids, labels, stored) by {
        if k < before.len() {
            assert(ts[k] == before[k]);
            assert(row_ok(before[k], locale_ids, labels, stored));
        } else {
            let y = k - before.len();
            assert(ts[k] == added[y]);
            assert(translates(added[y], labels[y], locale_ids[a], stored));
        }
    }
    assert forall|li: int, bi: int| 0 <= li < a + 1 && 0 <= bi < labels.len() implies #[trigger] covered(ts, labels[bi], locale_ids[li], stored) by {
        if li < a {
            assert(covered(before, labels[bi], locale_ids[li], stored));
            let k = choose|k: int| 0 <= k < before.len() && #[trigger] translates(before[k], labels[bi], locale_ids[li], stored);
            assert(ts[k] == before[k]);
            assert(translates(ts[k], labels[bi], locale_ids[li], stored));
        } else {
            let k = before.len() + bi;
            assert(ts[k] == added[bi]);
            assert(translates(added[bi], labels[bi], locale_ids[a], stored));
            assert(translates(ts[k], labels[bi], locale_ids[li], stored));
        }
    }
}

/// The store of translations.
pub struct Entity;

impl Entity {
    /// The text stored for a label and a locale, if any.
    pub fn stored_text(stored: &Vec<StoredTranslation>, label_id: u32, locale_id: u32) -> (r: Option<String>)
        ensures
            match r {
                Some(t) => stored_text(stored@, label_id, locale_id) == Some(t@),
                None => stored_text(stored@, label_id, locale_id) is None,
            },
    {
        let mut i: usize = stored.len();
        assert(stored@.subrange(0, i as int) =~= stored@);
        while i > 0
            invariant
                i <= stored@.len(),
                stored_text(stored@, label_id, locale_id) == stored_text(stored@.subrange(0, i as int), label_id, locale_id),
            decreases i,
        {
            i = i - 1;
            let ghost prefix = stored@.subrange(0, i + 1);
            assert(prefix.last() == stored@[i as int]);
            assert(prefix.drop_last() =~= stored@.subrange(0, i as int));
            if stored[i].label_id == label_id && stored[i].locale_id == locale_id {
                return Some(stored[i].translation.clone());
            }
        }
        None
    }

    /// The translations of every label for one locale, in the order of the
    /// labels.
    pub fn resolve_locale(locale_id: u32, labels: &Vec<Label>, stored: &Vec<StoredTranslation>) -> (ts: Vec<Model>)
        ensures
            ts@.len() == labels@.len(),
            forall|y: int| 0 <= y < labels@.len() ==> #[trigger] translates(ts@[y], labels@[y], locale_id, stored@),
    {
        let mut ts: Vec<Model> = Vec::new();
        let mut b: usize = 0;
        while b < labels.len()
            invariant
                b <= labels@.len(),
                ts@.len() == b,
                forall|y: int| 0 <= y < b ==> #[trigger] translates(ts@[y], labels@[y], locale_id, stored@),
            decreases labels@.len() - b,
        {
            let label = &labels[b];
            let translation = match Self::stored_text(stored, label.id, locale_id) {
                Some(t) => t,
                None => label.default_translation.clone(),
            };
            let ghost before = ts@;
            ts.push(Model { label_id: label.id, label_name: label.name.clone(), locale_id, translation });
            reveal(translates);
            assert(translates(ts@[b as int], labels@[b as int], locale_id, stored@));
            assert forall|y: int| 0 <= y < b + 1 implies #[trigger] translates(ts@[y], labels@[y], locale_id, stored@) by {
                if y < b {
                    assert(ts@[y] == before[y]);
                }
            }
            b = b + 1;
        }
        ts
    }

    /// The translations of every label for every locale: the stored one, or
    /// the label's default translation when none is stored.
    pub fn resolve(locale_ids: &Vec<u32>, labels: &Vec<Label>, stored: &Vec<StoredTranslation>) -> (ts: Vec<Model>)
        ensures
            resolves(ts@, locale_ids@, labels@, stored@),
            ts@.len() == locale_ids@.len() * labels@.len(),
            forall|x: int, y: int| #![trigger labels@[y], locale_ids@[x]] 0 <= x < locale_ids@.len() && 0 <= y < labels@.len()
                ==> translates(ts@[x * labels@.len() + y], labels@[y], locale_ids@[x], stored@),
    {
        let mut ts: Vec<Model> = Vec::new();
        let mut a: usize = 0;
        while a < locale_ids.len()
            invariant
                a <= locale_ids@.len(),
                rows_valid(ts@, locale_ids@, labels@, stored@),
                rows_cover(ts@, locale_ids@, labels@, stored@, a as int),
                rows_in_order(ts@, locale_ids@, labels@, stored@, a as int),
            decreases locale_ids@.len() - a,
        {
            let mut block = Self::resolve_locale(locale_ids[a], labels, stored);
            let ghost before = ts@;
            let ghost added = block@;
            ts.append(&mut block);
            proof {
                lemma_resolve_step(before, added, locale_ids@, labels@, stored@, a as int);
                lemma_in_order_step(before, added, locale_ids@, labels@, stored@, a as int);
                assert(ts@ =~= before + added);
            }
            a = a + 1;
        }
        ts
    }
}

} // verus!
