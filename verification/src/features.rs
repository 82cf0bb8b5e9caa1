//! The feature list of a package as the JSON text that a row stores.
//! `serde_json` writes the text and reads it.

use crate::error::{Reason, ReasonView};
use vstd::prelude::*;

verus! {

/// The error of `serde_json`.  Nothing is read from it: what matters is
/// that a call gave one.
#[verifier::external_type_specification]
#[verifier::external_body]
pub struct ExJsonError(serde_json::Error);

/// The JSON text that `serde_json::to_string` writes for a list of strings,
/// or `None` where it reports an error.
pub uninterp spec fn json_of_strings(items: Seq<Seq<char>>) -> Option<Seq<char>>;

/// The list of strings that `serde_json::from_str` reads from a text, or
/// `None` where it reports an error.
pub uninterp spec fn strings_of_json(text: Seq<char>) -> Option<Seq<Seq<char>>>;

/// Calls `serde_json::to_string` on a list of strings.  The contract only
/// gives the outcome its name, [`json_of_strings`]: the text on success,
/// `None` on an error.
#[verifier::external_body]
fn write_json(items: &Vec<String>) -> (res: Result<String, serde_json::Error>)
    ensures
        match res {
            Ok(text) => json_of_strings(items.deep_view()) == Some(text@),
            Err(_) => json_of_strings(items.deep_view()) is None,
        },
{
    serde_json::to_string(items)
}

/// Calls `serde_json::from_str` for a list of strings.  The contract only
/// gives the outcome its name, [`strings_of_json`]: the list on success,
/// `None` on an error.
#[verifier::external_body]
fn read_json(text: &str) -> (res: Result<Vec<String>, serde_json::Error>)
    ensures
        match res {
            Ok(items) => strings_of_json(text@) == Some(items.deep_view()),
            Err(_) => strings_of_json(text@) is None,
        },
{
    serde_json::from_str(text)
}

/// The feature list that a stored text stands for: what the text reads as,
/// and the empty list where it cannot be read.
pub open spec fn decoded_features(text: Seq<char>) -> Seq<Seq<char>> {
    match strings_of_json(text) {
        Some(items) => items,
        None => Seq::empty(),
    }
}

/// Whether a feature list can be stored: it has a JSON text, and that text
/// reads back as the same list.
pub open spec fn storable(items: Seq<Seq<char>>) -> bool {
    match json_of_strings(items) {
        Some(text) => decoded_features(text) == items,
        None => false,
    }
}

/// Whether two lists hold the same strings in the same order.
pub fn same_strings(left: &Vec<String>, right: &Vec<String>) -> (same: bool)
    ensures
        same == (left.deep_view() == right.deep_view()),
{
    if left.len() != right.len() {
        assert(left.deep_view().len() != right.deep_view().len());
        return false;
    }
    let mut index: usize = 0;
    while index < left.len()
        invariant
            left.len() == right.len(),
            index <= left.len(),
            forall|k: int| 0 <= k < index ==> left@[k]@ == right@[k]@,
        decreases left.len() - index,
    {
        if !(left[index] == right[index]) {
            assert(left.deep_view()[index as int] != right.deep_view()[index as int]);
            return false;
        }
        index = index + 1;
    }
    assert(left.deep_view() =~= right.deep_view());
    true
}

/// Turns a reading of a stored text into a feature list: a failed reading
/// gives the empty list, never an error.
pub fn features_or_empty(reading: Result<Vec<String>, serde_json::Error>) -> (items: Vec<String>)
    ensures
        items.deep_view() == match reading {
            Ok(list) => list.deep_view(),
            Err(_) => Seq::<Seq<char>>::empty(),
        },
{
    match reading {
        Ok(list) => list,
        Err(_) => Vec::new(),
    }
}

/// Reads the feature list from the text of a stored package.
pub fn decode_features(text: &str) -> (items: Vec<String>)
    ensures
        items.deep_view() == decoded_features(text@),
{
    features_or_empty(read_json(text))
}

/// Accepts a written text only if it reads back as the list it was written
/// from.
pub fn checked_text(items: &Vec<String>, writing: Result<String, serde_json::Error>) -> (res:
    Result<String, Reason>)
    ensures
        match res {
            Ok(text) => writing matches Ok(written) && written@ == text@ && decoded_features(text@)
                == items.deep_view(),
            Err(reason) => reason@ == ReasonView::Encoding && !(writing matches Ok(written)
                && decoded_features(written@) == items.deep_view()),
        },
{
    match writing {
        Ok(text) => {
            let back = decode_features(text.as_str());
            if same_strings(&back, items) {
                Ok(text)
            } else {
                Err(Reason::Encoding)
            }
        },
        Err(_) => Err(Reason::Encoding),
    }
}

/// Writes a feature list as the text that a package row stores.  The list is
/// refused where it has no such text, so that what is stored always reads
/// back as what was given.
pub fn encode_features(items: &Vec<String>) -> (res: Result<String, Reason>)
    ensures
        res is Ok <==> storable(items.deep_view()),
        match res {
            Ok(text) => json_of_strings(items.deep_view()) == Some(text@),
            Err(reason) => reason@ == ReasonView::Encoding,
        },
{
    checked_text(items, write_json(items))
}

} // verus!
