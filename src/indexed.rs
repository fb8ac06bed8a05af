use std::borrow::Cow;

use indexmap::{IndexMap, IndexSet};
use vstd::prelude::*;

use crate::values::AttributeValue;

verus! {

#[verifier::external_type_specification]
#[verifier::external_body]
#[verifier::reject_recursive_types(K)]
#[verifier::reject_recursive_types(V)]
#[verifier::reject_recursive_types(S)]
pub struct ExIndexMap<K, V, S>(IndexMap<K, V, S>);

#[verifier::external_type_specification]
#[verifier::external_body]
#[verifier::reject_recursive_types(T)]
#[verifier::reject_recursive_types(S)]
pub struct ExIndexSet<T, S>(IndexSet<T, S>);

/// Relies on `Cow`'s `Clone`, which the derived `Clone` of attribute pairs calls.
pub assume_specification<'a, B: ?Sized + ToOwned>[ <Cow<'a, B> as Clone>::clone ](
    c: &Cow<'a, B>,
) -> Cow<'a, B>;

/// The entries of an attribute map, in their order: each key's text with its value.
pub uninterp spec fn attribute_entries(m: IndexMap<Cow<'static, str>, AttributeValue>) -> Seq<
    (Seq<char>, AttributeValue),
>;

/// The members of a class set, in their order, as text.
pub uninterp spec fn class_entries(s: IndexSet<Cow<'static, str>>) -> Seq<Seq<char>>;

/// The keys of a sequence of attribute entries.
pub open spec fn entry_keys(e: Seq<(Seq<char>, AttributeValue)>) -> Seq<Seq<char>> {
    e.map_values(|p: (Seq<char>, AttributeValue)| p.0)
}

/// The value stored under `key`, if any.
pub open spec fn entry_lookup(e: Seq<(Seq<char>, AttributeValue)>, key: Seq<char>) -> Option<
    AttributeValue,
> {
    if entry_keys(e).contains(key) {
        Some(e[entry_keys(e).index_of(key)].1)
    } else {
        None
    }
}

/// The entries after inserting `value` under `key`: an existing key keeps its
/// place and takes the new value; a new key comes last.
pub open spec fn entry_inserted(
    e: Seq<(Seq<char>, AttributeValue)>,
    key: Seq<char>,
    value: AttributeValue,
) -> Seq<(Seq<char>, AttributeValue)> {
    if entry_keys(e).contains(key) {
        e.update(entry_keys(e).index_of(key), (key, value))
    } else {
        e.push((key, value))
    }
}

/// The members after adding `name`: unchanged where it is already there,
/// else `name` comes last.
pub open spec fn member_added(s: Seq<Seq<char>>, name: Seq<char>) -> Seq<Seq<char>> {
    if s.contains(name) {
        s
    } else {
        s.push(name)
    }
}

/// The members after removing `name`: the members after it shift down one
/// place and keep their order.
pub open spec fn member_removed(s: Seq<Seq<char>>, name: Seq<char>) -> Seq<Seq<char>> {
    if s.contains(name) {
        s.remove(s.index_of(name))
    } else {
        s
    }
}

/// Relies on `IndexMap::new`: a map with no entries.
#[verifier::external_body]
pub(crate) fn attribute_map_new() -> (m: IndexMap<Cow<'static, str>, AttributeValue>)
    ensures
        attribute_entries(m) == Seq::<(Seq<char>, AttributeValue)>::empty(),
        entry_keys(attribute_entries(m)).no_duplicates(),
{
    IndexMap::new()
}

/// Relies on `IndexMap::get`: the value of the entry whose key equals `name`.
#[verifier::external_body]
pub(crate) fn attribute_map_get<'a>(
    m: &'a IndexMap<Cow<'static, str>, AttributeValue>,
    name: &str,
) -> (r: Option<&'a AttributeValue>)
    ensures
        r is Some == entry_keys(attribute_entries(*m)).contains(name@),
        r is Some ==> entry_lookup(attribute_entries(*m), name@) == Some(*r.unwrap()),
{
    m.get(name)
}

/// Relies on `IndexMap::get_mut`: a mutable borrow of the value of the entry
/// whose key equals `name`; the entry keeps its key and place. It does not
/// panic: it hashes the text with the default hasher, compares keys as text
/// and indexes an entry it has found.
#[verifier::external_body]
pub(crate) fn attribute_map_get_mut<'a>(
    m: &'a mut IndexMap<Cow<'static, str>, AttributeValue>,
    name: &str,
) -> (r: Option<&'a mut AttributeValue>)
    ensures
        r is Some == entry_keys(attribute_entries(*old(m))).contains(name@),
        r is None ==> attribute_entries(*final(m)) == attribute_entries(*old(m)),
        r is Some ==> entry_lookup(attribute_entries(*old(m)), name@) == Some(*r.unwrap()),
        r is Some ==> attribute_entries(*final(m)) == entry_inserted(
            attribute_entries(*old(m)),
            name@,
            *final(r.unwrap()),
        ),
        entry_keys(attribute_entries(*final(m))).no_duplicates(),
    no_unwind
{
    m.get_mut(name)
}

/// Relies on `IndexMap::insert`: an existing key keeps its place and takes
/// the new value; a new key is appended.
#[verifier::external_body]
pub(crate) fn attribute_map_insert(
    m: &mut IndexMap<Cow<'static, str>, AttributeValue>,
    key: Cow<'static, str>,
    value: AttributeValue,
)
    ensures
        attribute_entries(*final(m)) == entry_inserted(attribute_entries(*old(m)), key@, value),
        entry_keys(attribute_entries(*final(m))).no_duplicates(),
{
    m.insert(key, value);
}

/// Relies on `IndexMap`'s `Clone`: the copy holds the same entries in the
/// same order.
#[verifier::external_body]
pub(crate) fn attribute_map_clone(m: &IndexMap<Cow<'static, str>, AttributeValue>) -> (r: IndexMap<
    Cow<'static, str>,
    AttributeValue,
>)
    ensures
        attribute_entries(r) == attribute_entries(*m),
{
    m.clone()
}

/// Relies on `IndexSet`'s `Clone`: the copy holds the same members in the
/// same order.
#[verifier::external_body]
pub(crate) fn class_set_clone(s: &IndexSet<Cow<'static, str>>) -> (r: IndexSet<Cow<'static, str>>)
    ensures
        class_entries(r) == class_entries(*s),
{
    s.clone()
}

/// Relies on `IndexSet::new`: a set with no members.
#[verifier::external_body]
pub(crate) fn class_set_new() -> (s: IndexSet<Cow<'static, str>>)
    ensures
        class_entries(s) == Seq::<Seq<char>>::empty(),
        class_entries(s).no_duplicates(),
{
    IndexSet::new()
}

/// Relies on `IndexSet::len`: the number of members.
#[verifier::external_body]
pub(crate) fn class_set_len(s: &IndexSet<Cow<'static, str>>) -> (r: usize)
    ensures
        r == class_entries(*s).len(),
{
    s.len()
}

/// Relies on `IndexSet::get_index`: the member at `index` in insertion order.
#[verifier::external_body]
pub(crate) fn class_set_get_index<'a>(s: &'a IndexSet<Cow<'static, str>>, index: usize) -> (r:
    Option<&'a Cow<'static, str>>)
    ensures
        r is Some == (index < class_entries(*s).len()),
        r is Some ==> r.unwrap()@ == class_entries(*s)[index as int],
{
    s.get_index(index)
}

/// Relies on `IndexSet::insert`: `true` and the member appended where no
/// equal member was there; `false` and the set unchanged otherwise.
#[verifier::external_body]
pub(crate) fn class_set_insert(s: &mut IndexSet<Cow<'static, str>>, name: Cow<'static, str>) -> (r:
    bool)
    ensures
        r == !class_entries(*old(s)).contains(name@),
        class_entries(*final(s)) == member_added(class_entries(*old(s)), name@),
        class_entries(*final(s)).no_duplicates(),
{
    s.insert(name)
}

/// Relies on `IndexSet::shift_remove`: `true` where an equal member was
/// there, which is removed while the members after it keep their order.
#[verifier::external_body]
pub(crate) fn class_set_shift_remove(s: &mut IndexSet<Cow<'static, str>>, name: &str) -> (r: bool)
    ensures
        r == class_entries(*old(s)).contains(name@),
        class_entries(*final(s)) == member_removed(class_entries(*old(s)), name@),
        class_entries(*final(s)).no_duplicates(),
{
    s.shift_remove(name)
}

} // verus!
