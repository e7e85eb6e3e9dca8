//! The JSON encoding of id lists, as stored in the cache, through serde_json.

use vstd::prelude::*;
use crate::text::decimal;

verus! {

/// serde_json's error type, carried through without inspection.
#[verifier::external_type_specification]
#[verifier::external_body]
pub struct ExJsonError(serde_json::Error);

/// What `serde_json::from_str::<Vec<u32>>` reads from a text: the list of ids,
/// or nothing when the text is not a JSON array of unsigned 32-bit integers.
pub uninterp spec fn json_id_list(text: Seq<char>) -> Option<Seq<u32>>;

/// The ids written in decimal and separated by commas.
pub open spec fn json_id_items(ids: Seq<u32>) -> Seq<char>
    decreases ids.len(),
{
    if ids.len() == 0 {
        Seq::empty()
    } else if ids.len() == 1 {
        decimal(ids[0] as nat)
    } else {
        json_id_items(ids.drop_last()) + seq![','] + decimal(ids.last() as nat)
    }
}

/// The compact JSON array of a list of ids: `[`, the ids in decimal separated
/// by commas, `]`, with no whitespace.
pub open spec fn json_of_id_list(ids: Seq<u32>) -> Seq<char> {
    seq!['['] + json_id_items(ids) + seq![']']
}

/// Calls `serde_json::from_str::<Vec<u32>>`. Trusted: the outcome is
/// `json_id_list` of the text, an error exactly when that is `None`.
#[verifier::external_body]
pub(crate) fn parse_id_list(text: &str) -> (r: Result<Vec<u32>, serde_json::Error>)
    ensures
        match r {
            Ok(v) => json_id_list(text@) == Some(v@),
            Err(_) => json_id_list(text@) is None,
        },
{
    serde_json::from_str(text)
}

/// Calls `serde_json::to_string` on a list of ids. Trusted: the compact
/// writer puts out `[`, the integers in decimal separated by `,`, and `]`,
/// which is `json_of_id_list` of the ids, and `serde_json::from_str` reads
/// that text back as the same list. serde_json documents that serialisation
/// only fails for a failing `Serialize` impl or a map with non-string keys,
/// neither of which a `Vec<u32>` has, so the call succeeds.
#[verifier::external_body]
pub(crate) fn write_id_list(ids: &Vec<u32>) -> (r: Result<String, serde_json::Error>)
    ensures
        r is Ok,
        r matches Ok(s) ==> s@ == json_of_id_list(ids@),
        r matches Ok(s) ==> json_id_list(s@) == Some(ids@),
{
    serde_json::to_string(ids)
}

} // verus!
