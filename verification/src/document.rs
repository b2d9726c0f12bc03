//! Lists of strings inside a JSON document.
use crate::json::{as_list, as_text, json_tree, json_trees, list_value, text_value, Json};
use vstd::prelude::*;

verus! {

/// The texts of a sequence of strings.
pub open spec fn texts(items: Seq<String>) -> Seq<Seq<char>> {
    items.map_values(|s: String| s@)
}

/// The text of an optional string.
pub open spec fn text_of(item: Option<String>) -> Option<Seq<char>> {
    match item {
        Some(s) => Some(s@),
        None => None,
    }
}

/// Whether every tree of `items` is a string.
pub open spec fn all_text(items: Seq<Json>) -> bool {
    forall|k: int| 0 <= k < items.len() ==> #[trigger] items[k] is Text
}

/// The strings of an array of strings; `None` for a tree that is no array, or an
/// array with an item that is no string.
pub open spec fn text_list(tree: Json) -> Option<Seq<Seq<char>>> {
    match tree {
        Json::List(items) => if all_text(items) {
            Some(items.map_values(|t: Json| t->Text_0))
        } else {
            None
        },
        _ => None,
    }
}

/// The array of strings that holds `items`, in order.
pub open spec fn list_of_texts(items: Seq<Seq<char>>) -> Json {
    Json::List(items.map_values(|s: Seq<char>| Json::Text(s)))
}

/// Reading back an array of strings gives the strings it was built from.
pub proof fn text_list_round_trip(items: Seq<Seq<char>>)
    ensures
        text_list(list_of_texts(items)) == Some(items),
{
    let trees = items.map_values(|s: Seq<char>| Json::Text(s));
    assert(all_text(trees));
    assert(trees.map_values(|t: Json| t->Text_0) =~= items);
}

/// Reads an array of strings out of a document.
pub fn read_text_list(v: &serde_json::Value) -> (r: Option<Vec<String>>)
    ensures
        match r {
            Some(items) => text_list(json_tree(*v)) == Some(texts(items@)),
            None => text_list(json_tree(*v)) is None,
        },
{
    let items = match as_list(v) {
        Some(items) => items,
        None => {
            return None;
        },
    };
    let ghost trees = json_trees(items@);
    let mut out: Vec<String> = Vec::new();
    let mut i: usize = 0;
    while i < items.len()
        invariant
            i <= items.len(),
            trees == json_trees(items@),
            trees.len() == items.len(),
            json_tree(*v) == Json::List(trees),
            out.len() == i,
            forall|k: int| 0 <= k < i ==> trees[k] == Json::Text(#[trigger] out@[k]@),
        decreases items.len() - i,
    {
        match as_text(&items[i]) {
            Some(s) => {
                out.push(s.to_owned());
            },
            None => {
                assert(!(trees[i as int] is Text));
                return None;
            },
        }
        i = i + 1;
    }
    assert forall|k: int| 0 <= k < trees.len() implies #[trigger] trees[k] is Text by {
        assert(trees[k] == Json::Text(out@[k]@));
    }
    assert(trees.map_values(|t: Json| t->Text_0) =~= texts(out@));
    Some(out)
}

/// Copies a list of strings.
pub fn copy_texts(items: &Vec<String>) -> (r: Vec<String>)
    ensures
        r@ == items@,
{
    let mut out: Vec<String> = Vec::new();
    let mut i: usize = 0;
    while i < items.len()
        invariant
            i <= items.len(),
            out@ == items@.take(i as int),
        decreases items.len() - i,
    {
        out.push(items[i].clone());
        assert(items@.take(i + 1) =~= items@.take(i as int).push(items@[i as int]));
        i = i + 1;
    }
    assert(items@.take(items.len() as int) =~= items@);
    out
}

/// Copies an optional string.
pub fn copy_text(item: &Option<String>) -> (r: Option<String>)
    ensures
        r == *item,
{
    match item {
        Some(s) => Some(s.clone()),
        None => None,
    }
}

/// Tells whether two lists hold the same texts in the same order.
pub fn same_texts(a: &Vec<String>, b: &Vec<String>) -> (r: bool)
    ensures
        r == (texts(a@) == texts(b@)),
{
    if a.len() != b.len() {
        assert(texts(a@).len() != texts(b@).len());
        return false;
    }
    let mut i: usize = 0;
    while i < a.len()
        invariant
            i <= a.len(),
            a.len() == b.len(),
            forall|k: int| 0 <= k < i ==> (#[trigger] a@[k])@ == b@[k]@,
        decreases a.len() - i,
    {
        if a[i] != b[i] {
            assert(texts(a@)[i as int] != texts(b@)[i as int]);
            return false;
        }
        i = i + 1;
    }
    assert(texts(a@) =~= texts(b@));
    true
}

/// Tells whether two optional strings hold the same text, or both none.
pub fn same_text(a: &Option<String>, b: &Option<String>) -> (r: bool)
    ensures
        r == (text_of(*a) == text_of(*b)),
{
    match (a, b) {
        (Some(x), Some(y)) => *x == *y,
        (None, None) => true,
        _ => false,
    }
}

/// Builds the array of strings that holds `items`, in order.
pub fn write_text_list(items: &Vec<String>) -> (r: serde_json::Value)
    ensures
        json_tree(r) == list_of_texts(texts(items@)),
{
    let mut values: Vec<serde_json::Value> = Vec::new();
    let mut i: usize = 0;
    while i < items.len()
        invariant
            i <= items.len(),
            values.len() == i,
            forall|k: int| 0 <= k < i ==> json_tree(#[trigger] values@[k]) == Json::Text(items@[k]@),
        decreases items.len() - i,
    {
        values.push(text_value(items[i].clone()));
        i = i + 1;
    }
    assert(json_trees(values@) =~= texts(items@).map_values(|s: Seq<char>| Json::Text(s)));
    list_value(values)
}

} // verus!
