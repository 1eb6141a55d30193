use vstd::prelude::*;

use dashmap::DashMap;

verus! {

#[verifier::external_type_specification]
#[verifier::external_body]
#[verifier::reject_recursive_types(K)]
#[verifier::reject_recursive_types(V)]
#[verifier::reject_recursive_types(S)]
pub struct ExDashMap<K, V, S>(DashMap<K, V, S>);

/// A concurrent table from text to text.
pub type TextTable = DashMap<String, String>;

/// A concurrent table from text to lists of text.
pub type ListTable = DashMap<String, Vec<String>>;

/// A concurrent table from text to numbers.
pub type IdTable = DashMap<String, u64>;

/// What a table from text to text holds, keyed by the text of each key.
pub uninterp spec fn text_table(m: TextTable) -> Map<Seq<char>, Seq<char>>;

/// What a table from text to lists of text holds.
pub uninterp spec fn list_table(m: ListTable) -> Map<Seq<char>, Seq<Seq<char>>>;

/// What a table from text to numbers holds.
pub uninterp spec fn id_table(m: IdTable) -> Map<Seq<char>, u64>;

/// The texts of a list of strings.
pub open spec fn texts(v: Seq<String>) -> Seq<Seq<char>> {
    v.map_values(|s: String| s@)
}

/// Relies on `DashMap::new`: an empty map.
#[verifier::external_body]
pub(crate) fn text_table_new() -> (r: TextTable)
    ensures
        text_table(r).dom() == Set::<Seq<char>>::empty(),
{
    DashMap::new()
}

/// Relies on `DashMap::insert`: afterwards `key` maps to `value`, and nothing else changes.
#[verifier::external_body]
pub(crate) fn text_table_insert(m: &mut TextTable, key: String, value: String)
    ensures
        text_table(*final(m)) == text_table(*old(m)).insert(key@, value@),
{
    m.insert(key, value);
}

/// Relies on `DashMap::get`: the value under `key`, if any, copied out.
#[verifier::external_body]
pub(crate) fn text_table_get(m: &TextTable, key: &str) -> (r: Option<String>)
    ensures
        match r {
            Some(v) => text_table(*m).contains_key(key@) && text_table(*m)[key@] == v@,
            None => !text_table(*m).contains_key(key@),
        },
{
    m.get(key).map(|e| e.value().clone())
}

/// Relies on `DashMap::remove`: afterwards `key` maps to nothing, and nothing else changes.
#[verifier::external_body]
pub(crate) fn text_table_remove(m: &mut TextTable, key: &str)
    ensures
        text_table(*final(m)) == text_table(*old(m)).remove(key@),
{
    m.remove(key);
}

/// Relies on `DashMap::new`: an empty map.
#[verifier::external_body]
pub(crate) fn list_table_new() -> (r: ListTable)
    ensures
        list_table(r).dom() == Set::<Seq<char>>::empty(),
{
    DashMap::new()
}

/// Relies on `DashMap::insert`: afterwards `key` maps to `value`, and nothing else changes.
#[verifier::external_body]
pub(crate) fn list_table_insert(m: &mut ListTable, key: String, value: Vec<String>)
    ensures
        list_table(*final(m)) == list_table(*old(m)).insert(key@, texts(value@)),
{
    m.insert(key, value);
}

/// Relies on `DashMap::get`: the value under `key`, if any, copied out.
#[verifier::external_body]
pub(crate) fn list_table_get(m: &ListTable, key: &str) -> (r: Option<Vec<String>>)
    ensures
        match r {
            Some(v) => list_table(*m).contains_key(key@) && list_table(*m)[key@] == texts(v@),
            None => !list_table(*m).contains_key(key@),
        },
{
    m.get(key).map(|e| e.value().clone())
}

/// Relies on `DashMap::remove`: afterwards `key` maps to nothing, and nothing else changes.
#[verifier::external_body]
pub(crate) fn list_table_remove(m: &mut ListTable, key: &str)
    ensures
        list_table(*final(m)) == list_table(*old(m)).remove(key@),
{
    m.remove(key);
}

/// Relies on `DashMap::new`: an empty map.
#[verifier::external_body]
pub(crate) fn id_table_new() -> (r: IdTable)
    ensures
        id_table(r).dom() == Set::<Seq<char>>::empty(),
{
    DashMap::new()
}

/// Relies on `DashMap::insert`: afterwards `key` maps to `value`, and nothing else changes.
#[verifier::external_body]
pub(crate) fn id_table_insert(m: &mut IdTable, key: String, value: u64)
    ensures
        id_table(*final(m)) == id_table(*old(m)).insert(key@, value),
{
    m.insert(key, value);
}

/// Relies on `DashMap::get`: the value under `key`, if any.
#[verifier::external_body]
pub(crate) fn id_table_get(m: &IdTable, key: &str) -> (r: Option<u64>)
    ensures
        match r {
            Some(v) => id_table(*m).contains_key(key@) && id_table(*m)[key@] == v,
            None => !id_table(*m).contains_key(key@),
        },
{
    m.get(key).map(|e| *e.value())
}

/// Relies on `DashMap::remove`: the value that `key` had, if any; afterwards `key` maps to
/// nothing, and nothing else changes.
#[verifier::external_body]
pub(crate) fn id_table_remove(m: &mut IdTable, key: &str) -> (r: Option<u64>)
    ensures
        id_table(*final(m)) == id_table(*old(m)).remove(key@),
        match r {
            Some(v) => id_table(*old(m)).contains_key(key@) && id_table(*old(m))[key@] == v,
            None => !id_table(*old(m)).contains_key(key@),
        },
{
    m.remove(key).map(|(_, v)| v)
}

} // verus!
