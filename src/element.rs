use std::borrow::Cow;

use vstd::prelude::*;

use crate::html::{HtmlElement, HtmlNode};
use crate::indexed::{entry_inserted, entry_keys, entry_lookup, member_added, member_removed};
use crate::values::AttributeValue;

verus! {

/// The abstract state of an element: its tag, its attribute entries in
/// insertion order, its classes in insertion order, and its children.
pub struct ElementModel {
    pub tag: Seq<char>,
    pub attributes: Seq<(Seq<char>, AttributeValue)>,
    pub classes: Seq<Seq<char>>,
    pub children: Seq<HtmlNode>,
}

/// The name of the attribute that holds an element's id.
pub open spec fn id_key() -> Seq<char> {
    seq!['i', 'd']
}

/// The attribute value that stores an id: `Constant` for static text,
/// `String` for owned text.
pub open spec fn id_value(id: Cow<'static, str>) -> AttributeValue {
    match id {
        Cow::Borrowed(s) => AttributeValue::Constant(s),
        Cow::Owned(s) => AttributeValue::String(s),
    }
}

/// The names in their order with later repeats dropped: each name once, at
/// the place where it first occurs.
pub open spec fn first_occurrences(names: Seq<Seq<char>>) -> Seq<Seq<char>>
    decreases names.len(),
{
    if names.len() == 0 {
        names
    } else {
        member_added(first_occurrences(names.drop_last()), names.last())
    }
}

impl ElementModel {
    /// Attribute names are unique, and so are class names.
    pub open spec fn well_formed(self) -> bool {
        entry_keys(self.attributes).no_duplicates() && self.classes.no_duplicates()
    }

    /// The value of the attribute `name`, if the element has one.
    pub open spec fn attribute(self, name: Seq<char>) -> Option<AttributeValue> {
        entry_lookup(self.attributes, name)
    }

    /// The id: the text of the `id` attribute where that is string-like.
    pub open spec fn id(self) -> Option<Seq<char>> {
        match self.attribute(id_key()) {
            Some(v) => v.text_view(),
            None => None,
        }
    }

    pub open spec fn with_tag(self, tag: Seq<char>) -> ElementModel {
        ElementModel { tag, ..self }
    }

    pub open spec fn with_attribute(self, name: Seq<char>, value: AttributeValue) -> ElementModel {
        ElementModel { attributes: entry_inserted(self.attributes, name, value), ..self }
    }

    pub open spec fn with_class(self, name: Seq<char>) -> ElementModel {
        ElementModel { classes: member_added(self.classes, name), ..self }
    }

    pub open spec fn without_class(self, name: Seq<char>) -> ElementModel {
        ElementModel { classes: member_removed(self.classes, name), ..self }
    }

    pub open spec fn with_classes(self, names: Seq<Seq<char>>) -> ElementModel {
        ElementModel { classes: first_occurrences(names), ..self }
    }

    pub open spec fn with_children(self, children: Seq<HtmlNode>) -> ElementModel {
        ElementModel { children, ..self }
    }

    pub open spec fn with_child_at(self, index: int, child: HtmlNode) -> ElementModel {
        self.with_children(self.children.update(index, child))
    }

    pub open spec fn with_child(self, child: HtmlNode) -> ElementModel {
        self.with_children(self.children.push(child))
    }
}

/// Keeping first occurrences leaves no name twice.
pub proof fn lemma_first_occurrences_unique(names: Seq<Seq<char>>)
    ensures
        first_occurrences(names).no_duplicates(),
    decreases names.len(),
{
    if names.len() > 0 {
        lemma_first_occurrences_unique(names.drop_last());
        lemma_member_added_unique(first_occurrences(names.drop_last()), names.last());
    }
}

/// Adding a member keeps the members unique.
pub proof fn lemma_member_added_unique(s: Seq<Seq<char>>, name: Seq<char>)
    requires
        s.no_duplicates(),
    ensures
        member_added(s, name).no_duplicates(),
{
    if !s.contains(name) {
        let t = s.push(name);
        assert forall|i: int, j: int| 0 <= i < t.len() && 0 <= j < t.len() && i != j implies t[i]
            != t[j] by {
            if i == s.len() {
                assert(t[j] == s[j]);
            } else if j == s.len() {
                assert(t[i] == s[i]);
            }
        }
    }
}

/// Every operation of the trait that succeeds keeps the model well formed.
pub proof fn law_operations_keep_well_formed(
    m: ElementModel,
    tag: Seq<char>,
    name: Seq<char>,
    value: AttributeValue,
    names: Seq<Seq<char>>,
    index: int,
    child: HtmlNode,
    children: Seq<HtmlNode>,
)
    requires
        m.well_formed(),
    ensures
        m.with_tag(tag).well_formed(),
        m.with_attribute(name, value).well_formed(),
        m.with_class(name).well_formed(),
        m.without_class(name).well_formed(),
        m.with_classes(names).well_formed(),
        m.with_child_at(index, child).well_formed(),
        m.with_child(child).well_formed(),
        m.with_children(children).well_formed(),
{
    let keys = entry_keys(m.attributes);
    let after = entry_inserted(m.attributes, name, value);
    if keys.contains(name) {
        assert(entry_keys(after) =~= keys);
    } else {
        assert(entry_keys(after) =~= keys.push(name));
        lemma_member_added_unique(keys, name);
    }
    lemma_member_added_unique(m.classes, name);
    lemma_first_occurrences_unique(names);
    let c = m.classes;
    if c.contains(name) {
        let k = c.index_of(name);
        let t = member_removed(c, name);
        assert forall|i: int, j: int| 0 <= i < t.len() && 0 <= j < t.len() && i != j implies t[i]
            != t[j] by {
            let ii = if i < k { i } else { i + 1 };
            let jj = if j < k { j } else { j + 1 };
            assert(t[i] == c[ii] && t[j] == c[jj]);
        }
    }
}

/// After `value` is inserted under `key`, looking `key` up finds `value`.
pub proof fn lemma_lookup_after_insert(
    e: Seq<(Seq<char>, AttributeValue)>,
    key: Seq<char>,
    value: AttributeValue,
)
    ensures
        entry_lookup(entry_inserted(e, key, value), key) == Some(value),
{
    let keys = entry_keys(e);
    let after = entry_inserted(e, key, value);
    if keys.contains(key) {
        let i = keys.index_of(key);
        assert(entry_keys(after) =~= keys);
    } else {
        assert(entry_keys(after) =~= keys.push(key));
        assert(entry_keys(after)[e.len() as int] == key);
        let j = entry_keys(after).index_of(key);
        assert(j == e.len());
    }
}

/// Adding a class that the element lacks succeeds and leaves exactly one
/// entry of it; adding it a second time fails and changes nothing.
pub proof fn law_add_class_twice(m: ElementModel, name: Seq<char>)
    requires
        !m.classes.contains(name),
    ensures
        m.with_class(name).classes.contains(name),
        m.with_class(name).with_class(name) == m.with_class(name),
        m.with_class(name).classes.to_multiset().count(name) == 1,
{
    let after = m.with_class(name).classes;
    assert(after[m.classes.len() as int] == name);
    m.classes.to_multiset_ensures();
    after.to_multiset_ensures();
    assert(after =~= m.classes.push(name));
}

/// The children read back after setting them are the ones set, in their order.
pub proof fn law_children_round_trip(m: ElementModel, children: Seq<HtmlNode>)
    ensures
        m.with_children(children).children == children,
{
}

/// An id set through `set_id` is the id read back, whether it was static or
/// owned text.
pub proof fn law_id_round_trip(m: ElementModel, id: Cow<'static, str>)
    ensures
        m.with_attribute(id_key(), id_value(id)).id() == Some(id@),
{
    lemma_lookup_after_insert(m.attributes, id_key(), id_value(id));
}

/// An `id` attribute whose value is not string-like is present, yet yields no id.
pub proof fn law_non_text_id_hidden(m: ElementModel, value: AttributeValue)
    requires
        value.text_view() is None,
    ensures
        m.with_attribute(id_key(), value).attribute(id_key()) == Some(value),
        m.with_attribute(id_key(), value).id() is None,
{
    lemma_lookup_after_insert(m.attributes, id_key(), value);
}

/// Replacing the child at an index in range changes that position alone.
pub proof fn law_set_child_in_range(m: ElementModel, index: int, child: HtmlNode)
    requires
        0 <= index < m.children.len(),
    ensures
        m.with_child_at(index, child).children.len() == m.children.len(),
        m.with_child_at(index, child).children[index] == child,
        forall|j: int|
            0 <= j < m.children.len() && j != index ==> #[trigger] m.with_child_at(
                index,
                child,
            ).children[j] == m.children[j],
{
}

/// The id that an `id` attribute yields: its text where it is string-like,
/// nothing for any other value or where there is no such attribute.
pub fn id_text(v: Option<&AttributeValue>) -> (r: Option<&str>)
    ensures
        r is Some == (v is Some && v.unwrap().text_view() is Some),
        r is Some ==> v.unwrap().text_view() == Some(r.unwrap()@),
{
    match v {
        Some(AttributeValue::Constant(s)) => Some(*s),
        Some(AttributeValue::String(s)) => Some(s.as_str()),
        _ => None,
    }
}

/// The child at `index`, if the index is in range.
pub fn child_at(children: &[HtmlNode], index: usize) -> (r: Option<&HtmlNode>)
    ensures
        r is Some == (index < children@.len()),
        r is Some ==> *r.unwrap() == children@[index as int],
{
    if index < children.len() {
        Some(&children[index])
    } else {
        None
    }
}

/// The child at `index`, borrowed for changing in place, if the index is in range.
pub fn child_at_mut(children: &mut [HtmlNode], index: usize) -> (r: Option<&mut HtmlNode>)
    ensures
        r is Some == (index < old(children)@.len()),
        r is None ==> final(children)@ == old(children)@,
        r is Some ==> *r.unwrap() == old(children)@[index as int],
        r is Some ==> final(children)@ == old(children)@.update(index as int, *final(r.unwrap())),
{
    if index < children.len() {
        Some(&mut children[index])
    } else {
        None
    }
}

/// Overwrites the child at `index` where the index is in range; `false` and
/// nothing changed otherwise.
pub fn replace_child(children: &mut [HtmlNode], index: usize, child: HtmlNode) -> (r: bool)
    ensures
        r == (index < old(children)@.len()),
        r ==> final(children)@ == old(children)@.update(index as int, child),
        !r ==> final(children)@ == old(children)@,
{
    if index < children.len() {
        children[index] = child;
        true
    } else {
        false
    }
}

/// The trait of all html elements.
///
/// Every operation but `build` and `get_tag` has an inert default: a mutator
/// that an element does not support returns `false` and changes nothing, a
/// lookup finds nothing, a listing is empty. A mutator that returns `true`
/// has applied its whole effect.
pub trait Element {
    /// The abstract state of the element.
    spec fn model(&self) -> ElementModel;

    /// Construct html elements
    fn build(self) -> (r: HtmlElement);

    /// Get the tag of the element, all html elements must have tag
    fn get_tag(&self) -> (r: &str)
        ensures
            r@ == self.model().tag,
    ;

    /// Change the tag of the element and return whether the change is successful
    fn set_tag(&mut self, tag: Cow<'static, str>) -> (r: bool)
        ensures
            r ==> final(self).model() == old(self).model().with_tag(tag@),
            !r ==> final(self).model() == old(self).model(),
        default_ensures
            !r,
    {
        false
    }

    /// Get the html attribute based on the given name
    fn get_attribute(&self, name: &str) -> (r: Option<&AttributeValue>)
        ensures
            r is Some ==> self.model().attribute(name@) == Some(*r.unwrap()),
        default_ensures
            r is None,
    {
        None
    }

    /// Get the mutable html attribute based on the given name
    fn mut_attribute(&mut self, name: &str) -> (r: Option<&mut AttributeValue>)
        ensures
            r is None ==> final(self).model() == old(self).model(),
            r is Some ==> old(self).model().attribute(name@) == Some(*r.unwrap()),
            r is Some ==> final(self).model() == old(self).model().with_attribute(
                name@,
                *final(r.unwrap()),
            ),
        default_ensures
            r is None,
    {
        None
    }

    /// According to the given name, set the html attribute and return whether it is successful.
    fn set_attribute(&mut self, name: Cow<'static, str>, value: AttributeValue) -> (r: bool)
        ensures
            r ==> final(self).model() == old(self).model().with_attribute(name@, value),
            !r ==> final(self).model() == old(self).model(),
        default_ensures
            !r,
    {
        false
    }

    /// Get the legal html id.
    ///
    /// Note that Some will be returned only when the id exists and the value is a string.
    fn get_id(&self) -> (r: Option<&str>)
        ensures
            r is Some ==> self.model().id() == Some(r.unwrap()@),
        default_ensures
            exists|a: Option<&AttributeValue>|
                #[trigger] call_ensures(Self::get_attribute, (self, "id"), a) && call_ensures(
                    id_text,
                    (a,),
                    r,
                ),
    {
        proof {
            reveal_strlit("id");
            assert("id"@ =~= id_key());
        }
        id_text(self.get_attribute("id"))
    }

    /// Set html id and return whether successful
    fn set_id(&mut self, id: Cow<'static, str>) -> (r: bool)
        ensures
            r ==> final(self).model() == old(self).model().with_attribute(id_key(), id_value(id)),
            !r ==> final(self).model() == old(self).model(),
    {
        proof {
            reveal_strlit("id");
            assert("id"@ =~= id_key());
        }
        match id {
            Cow::Borrowed(s) => self.set_attribute(Cow::Borrowed("id"), AttributeValue::Constant(s)),
            Cow::Owned(s) => self.set_attribute(Cow::Borrowed("id"), AttributeValue::String(s)),
        }
    }

    /// Get the legal html class.
    fn get_classes(&self) -> (r: Vec<&str>)
        ensures
            r@.len() == 0 || r@.map_values(|s: &str| s@) == self.model().classes,
        default_ensures
            r@.len() == 0,
    {
        Vec::new()
    }

    /// Set html class and return whether successful
    fn set_classes(&mut self, classes: Vec<Cow<'static, str>>) -> (r: bool)
        ensures
            r ==> final(self).model() == old(self).model().with_classes(
                classes@.map_values(|c: Cow<'static, str>| c@),
            ),
            !r ==> final(self).model() == old(self).model(),
        default_ensures
            !r,
    {
        false
    }

    /// Add html class and return whether successful
    fn add_class(&mut self, class: Cow<'static, str>) -> (r: bool)
        ensures
            r ==> !old(self).model().classes.contains(class@),
            r ==> final(self).model() == old(self).model().with_class(class@),
            !r ==> final(self).model() == old(self).model(),
        default_ensures
            !r,
    {
        false
    }

    /// Remove html class and return whether successful
    fn remove_class(&mut self, class: &str) -> (r: bool)
        ensures
            r ==> old(self).model().classes.contains(class@),
            r ==> final(self).model() == old(self).model().without_class(class@),
            !r ==> final(self).model() == old(self).model(),
        default_ensures
            !r,
    {
        false
    }

    /// Get the child element based on the given index
    fn get_child(&self, index: usize) -> (r: Option<&HtmlNode>)
        ensures
            r is Some ==> index < self.model().children.len() && *r.unwrap()
                == self.model().children[index as int],
        default_ensures
            exists|c: &[HtmlNode]|
                #[trigger] call_ensures(Self::get_children, (self,), c) && call_ensures(
                    child_at,
                    (c, index),
                    r,
                ),
    {
        child_at(self.get_children(), index)
    }

    /// Get the mutable child element based on the given index
    fn mut_child(&mut self, index: usize) -> (r: Option<&mut HtmlNode>)
        ensures
            r is None ==> final(self).model() == old(self).model(),
            r is Some ==> index < old(self).model().children.len() && *r.unwrap() == old(
                self,
            ).model().children[index as int],
            r is Some ==> final(self).model() == old(self).model().with_child_at(
                index as int,
                *final(r.unwrap()),
            ),
    {
        child_at_mut(self.mut_children(), index)
    }

    /// Set the child element based on the given index and return whether successful
    fn set_child(&mut self, index: usize, child: HtmlNode) -> (r: bool)
        ensures
            r ==> index < old(self).model().children.len(),
            r ==> final(self).model() == old(self).model().with_child_at(index as int, child),
            !r ==> final(self).model() == old(self).model(),
    {
        replace_child(self.mut_children(), index, child)
    }

    /// Add a child element and return whether successful
    fn add_child(&mut self, child: HtmlNode) -> (r: bool)
        ensures
            r ==> final(self).model() == old(self).model().with_child(child),
            !r ==> final(self).model() == old(self).model(),
        default_ensures
            !r,
    {
        false
    }

    /// Get the children in their order
    fn get_children(&self) -> (r: &[HtmlNode])
        ensures
            r@.len() == 0 || r@ == self.model().children,
        default_ensures
            r@.len() == 0,
    {
        &[]
    }

    /// Get the children in their order, for changing them in place
    fn mut_children(&mut self) -> (r: &mut [HtmlNode])
        ensures
            (r@ == old(self).model().children && final(self).model() == old(
                self,
            ).model().with_children(final(r)@)) || (r@.len() == 0 && final(r)@.len() == 0
                && final(self).model() == old(self).model()),
        default_ensures
            r@.len() == 0,
    {
        &mut []
    }

    /// Replace all children, keeping the order given, and return whether successful
    fn set_children(&mut self, children: Vec<HtmlNode>) -> (r: bool)
        ensures
            r ==> final(self).model() == old(self).model().with_children(children@),
            !r ==> final(self).model() == old(self).model(),
        default_ensures
            !r,
    {
        false
    }
}

} // verus!
