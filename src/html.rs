use std::borrow::Cow;

use indexmap::{IndexMap, IndexSet};
use vstd::prelude::*;

use crate::element::{first_occurrences, id_key, Element, ElementModel};
use crate::indexed::{
    attribute_entries, entry_keys, attribute_map_get, attribute_map_get_mut, attribute_map_insert,
    attribute_map_new, class_entries, class_set_get_index, class_set_insert, class_set_len,
    class_set_new, class_set_shift_remove, class_set_clone, attribute_map_clone,
};
use crate::values::AttributeValue;

verus! {

/// The reference element: a tag, ordered attributes with unique keys, an
/// ordered set of classes, and children in their order.
#[derive(Debug)]
pub struct HtmlElement {
    tag: Cow<'static, str>,
    names: Names,
    children: Vec<HtmlNode>,
}

/// The class set and the attribute map of an element: class names are
/// unique, and so are attribute names.
#[derive(Debug)]
struct Names {
    classes: IndexSet<Cow<'static, str>>,
    attributes: IndexMap<Cow<'static, str>, AttributeValue>,
}

impl Names {
    #[verifier::type_invariant]
    spec fn unique(&self) -> bool {
        entry_keys(attribute_entries(self.attributes)).no_duplicates() && class_entries(
            self.classes,
        ).no_duplicates()
    }
}

/// A child of an element: text, a comment, or a nested element.
#[derive(Debug)]
pub enum HtmlNode {
    /// Textual content
    Text(Cow<'static, str>),
    /// A comment
    Comment(Cow<'static, str>),
    /// A nested element
    Standard(HtmlElement),
}

impl From<HtmlElement> for HtmlNode {
    fn from(element: HtmlElement) -> (r: HtmlNode)
        ensures
            r == HtmlNode::Standard(element),
    {
        HtmlNode::Standard(element)
    }
}

impl vstd::std_specs::convert::FromSpecImpl<HtmlElement> for HtmlNode {
    open spec fn obeys_from_spec() -> bool {
        true
    }

    open spec fn from_spec(element: HtmlElement) -> HtmlNode {
        HtmlNode::Standard(element)
    }
}

impl From<&'static str> for HtmlNode {
    fn from(text: &'static str) -> (r: HtmlNode)
        ensures
            r == HtmlNode::Text(Cow::Borrowed(text)),
    {
        HtmlNode::Text(Cow::Borrowed(text))
    }
}

impl vstd::std_specs::convert::FromSpecImpl<&'static str> for HtmlNode {
    open spec fn obeys_from_spec() -> bool {
        true
    }

    open spec fn from_spec(text: &'static str) -> HtmlNode {
        HtmlNode::Text(Cow::Borrowed(text))
    }
}

impl From<String> for HtmlNode {
    fn from(text: String) -> (r: HtmlNode)
        ensures
            r == HtmlNode::Text(Cow::<'static, str>::Owned(text)),
    {
        HtmlNode::Text(Cow::Owned(text))
    }
}

impl vstd::std_specs::convert::FromSpecImpl<String> for HtmlNode {
    open spec fn obeys_from_spec() -> bool {
        true
    }

    open spec fn from_spec(text: String) -> HtmlNode {
        HtmlNode::Text(Cow::Owned(text))
    }
}

/// `copy` has the tag, attributes and classes of `original`, and as many
/// children.
pub open spec fn copies_element(copy: &HtmlElement, original: &HtmlElement) -> bool {
    &&& copy.model().tag == original.model().tag
    &&& copy.model().attributes == original.model().attributes
    &&& copy.model().classes == original.model().classes
    &&& copy.model().children.len() == original.model().children.len()
}

/// A copy of a node, nested elements included.
fn clone_node(node: &HtmlNode) -> (r: HtmlNode)
    ensures
        r is Text == node is Text,
        r is Comment == node is Comment,
        r is Standard == node is Standard,
        r matches HtmlNode::Text(t) ==> node matches HtmlNode::Text(u) && t@ == u@,
        r matches HtmlNode::Comment(t) ==> node matches HtmlNode::Comment(u) && t@ == u@,
        r matches HtmlNode::Standard(f) ==> node matches HtmlNode::Standard(g) && copies_element(
            &f,
            &g,
        ),
    decreases node,
{
    match node {
        HtmlNode::Text(t) => HtmlNode::Text(clone_text(t)),
        HtmlNode::Comment(t) => HtmlNode::Comment(clone_text(t)),
        HtmlNode::Standard(e) => HtmlNode::Standard(clone_element(e)),
    }
}

/// A copy of an element, its children copied one by one.
fn clone_element(e: &HtmlElement) -> (r: HtmlElement)
    ensures
        copies_element(&r, e),
    decreases e,
{
    let mut children: Vec<HtmlNode> = Vec::new();
    let mut i: usize = 0;
    while i < e.children.len()
        invariant
            i <= e.children.len(),
            children@.len() == i,
        decreases e.children.len() - i,
    {
        proof {
            broadcast use vstd::std_specs::vec::axiom_vec_index_decreases;
            assert(decreases_to!(e.children => e.children[i as int]));
        }
        children.push(clone_node(&e.children[i]));
        i += 1;
    }
    proof {
        use_type_invariant(&e.names);
    }
    let names = Names {
        classes: class_set_clone(&e.names.classes),
        attributes: attribute_map_clone(&e.names.attributes),
    };
    HtmlElement { tag: clone_text(&e.tag), names, children }
}

impl Clone for HtmlNode {
    fn clone(&self) -> (r: HtmlNode)
        ensures
            r matches HtmlNode::Text(t) ==> self matches HtmlNode::Text(u) && t@ == u@,
            r matches HtmlNode::Comment(t) ==> self matches HtmlNode::Comment(u) && t@ == u@,
            r matches HtmlNode::Standard(f) ==> self matches HtmlNode::Standard(g)
                && copies_element(&f, &g),
            r is Text == self is Text,
            r is Comment == self is Comment,
    {
        clone_node(self)
    }
}

impl Clone for HtmlElement {
    fn clone(&self) -> (r: HtmlElement)
        ensures
            copies_element(&r, self),
    {
        clone_element(self)
    }
}

/// A copy of a static-or-owned string, in the same form.
fn clone_text(c: &Cow<'static, str>) -> (r: Cow<'static, str>)
    ensures
        r@ == c@,
{
    match c {
        Cow::Borrowed(s) => Cow::Borrowed(s),
        Cow::Owned(s) => Cow::Owned(s.clone()),
    }
}

/// The text of a static-or-owned string.
fn cow_str<'a>(c: &'a Cow<'static, str>) -> (r: &'a str)
    ensures
        r@ == c@,
{
    match c {
        Cow::Borrowed(s) => s,
        Cow::Owned(s) => s.as_str(),
    }
}

impl Default for HtmlElement {
    /// An element with an empty tag and nothing else.
    fn default() -> (r: HtmlElement)
        ensures
            r.model() == (ElementModel {
                tag: Seq::empty(),
                attributes: Seq::empty(),
                classes: Seq::empty(),
                children: Seq::empty(),
            }),
            r.model().well_formed(),
    {
        proof {
            reveal_strlit("");
            assert(""@ =~= Seq::<char>::empty());
        }
        let r = HtmlElement {
            tag: Cow::Borrowed(""),
            names: Names { classes: class_set_new(), attributes: attribute_map_new() },
            children: Vec::new(),
        };
        assert(r.children@ =~= Seq::<HtmlNode>::empty());
        r
    }
}

impl Element for HtmlElement {
    closed spec fn model(&self) -> ElementModel {
        ElementModel {
            tag: self.tag@,
            attributes: attribute_entries(self.names.attributes),
            classes: class_entries(self.names.classes),
            children: self.children@,
        }
    }

    fn build(self) -> (r: HtmlElement)
        ensures
            r == self,
    {
        self
    }

    fn get_tag(&self) -> (r: &str) {
        cow_str(&self.tag)
    }

    fn set_tag(&mut self, tag: Cow<'static, str>) -> (r: bool)
        ensures
            r,
            final(self).model().well_formed(),
    {
        proof {
            use_type_invariant(&self.names);
        }
        self.tag = tag;
        true
    }

    fn get_attribute(&self, name: &str) -> (r: Option<&AttributeValue>)
        ensures
            r is Some == self.model().attribute(name@) is Some,
    {
        attribute_map_get(&self.names.attributes, name)
    }

    fn mut_attribute(&mut self, name: &str) -> (r: Option<&mut AttributeValue>)
        ensures
            r is Some == old(self).model().attribute(name@) is Some,
            final(self).model().well_formed(),
    {
        proof {
            use_type_invariant(&self.names);
        }
        attribute_map_get_mut(&mut self.names.attributes, name)
    }

    fn set_attribute(&mut self, name: Cow<'static, str>, value: AttributeValue) -> (r: bool)
        ensures
            r,
            final(self).model().well_formed(),
    {
        proof {
            use_type_invariant(&self.names);
        }
        let mut attributes = attribute_map_new();
        core::mem::swap(&mut attributes, &mut self.names.attributes);
        attribute_map_insert(&mut attributes, name, value);
        self.names.attributes = attributes;
        true
    }

    fn get_id(&self) -> (r: Option<&str>)
        ensures
            r is Some == self.model().id() is Some,
    {
        proof {
            reveal_strlit("id");
            assert("id"@ =~= id_key());
        }
        match attribute_map_get(&self.names.attributes, "id") {
            Some(AttributeValue::Constant(s)) => Some(*s),
            Some(AttributeValue::String(s)) => Some(s.as_str()),
            _ => None,
        }
    }

    fn set_id(&mut self, id: Cow<'static, str>) -> (r: bool)
        ensures
            r,
            final(self).model().well_formed(),
    {
        proof {
            use_type_invariant(&self.names);
            reveal_strlit("id");
            assert("id"@ =~= id_key());
        }
        let value = match id {
            Cow::Borrowed(s) => AttributeValue::Constant(s),
            Cow::Owned(s) => AttributeValue::String(s),
        };
        let mut attributes = attribute_map_new();
        core::mem::swap(&mut attributes, &mut self.names.attributes);
        attribute_map_insert(&mut attributes, Cow::Borrowed("id"), value);
        self.names.attributes = attributes;
        true
    }

    fn get_classes(&self) -> (r: Vec<&str>)
        ensures
            r@.map_values(|s: &str| s@) == self.model().classes,
    {
        let n = class_set_len(&self.names.classes);
        let mut names: Vec<&str> = Vec::new();
        let mut i: usize = 0;
        while i < n
            invariant
                n == class_entries(self.names.classes).len(),
                i <= n,
                names@.len() == i,
                names@.map_values(|s: &str| s@) == class_entries(self.names.classes).take(i as int),
            decreases n - i,
        {
            let ghost prev = names@;
            if let Some(c) = class_set_get_index(&self.names.classes, i) {
                names.push(cow_str(c));
            }
            assert(names@ == prev.push(names@[i as int]));
            assert(names@[i as int]@ == class_entries(self.names.classes)[i as int]);
            assert(names@.map_values(|s: &str| s@) =~= class_entries(self.names.classes).take(
                i + 1,
            ));
            i += 1;
        }
        assert(class_entries(self.names.classes).take(n as int) =~= class_entries(self.names.classes));
        names
    }

    fn set_classes(&mut self, classes: Vec<Cow<'static, str>>) -> (r: bool)
        ensures
            r,
            final(self).model().well_formed(),
    {
        proof {
            use_type_invariant(&self.names);
        }
        let ghost items = classes@;
        let ghost names = items.map_values(|c: Cow<'static, str>| c@);
        let mut set = class_set_new();
        let mut rest = classes;
        let ghost mut k: int = 0;
        while rest.len() > 0
            invariant
                0 <= k <= items.len(),
                names == items.map_values(|c: Cow<'static, str>| c@),
                rest@ == items.skip(k),
                class_entries(set) == first_occurrences(names.take(k)),
                class_entries(set).no_duplicates(),
            decreases rest.len(),
        {
            let c = rest.remove(0);
            assert(names.take(k + 1).drop_last() =~= names.take(k));
            class_set_insert(&mut set, c);
            proof {
                k = k + 1;
            }
            assert(rest@ =~= items.skip(k));
        }
        assert(names.take(k) =~= names);
        self.names.classes = set;
        true
    }

    fn add_class(&mut self, class: Cow<'static, str>) -> (r: bool)
        ensures
            r == !old(self).model().classes.contains(class@),
            final(self).model() == old(self).model().with_class(class@),
            final(self).model().well_formed(),
    {
        proof {
            use_type_invariant(&self.names);
        }
        let mut classes = class_set_new();
        core::mem::swap(&mut classes, &mut self.names.classes);
        let added = class_set_insert(&mut classes, class);
        self.names.classes = classes;
        added
    }

    fn remove_class(&mut self, class: &str) -> (r: bool)
        ensures
            r == old(self).model().classes.contains(class@),
            final(self).model() == old(self).model().without_class(class@),
            final(self).model().well_formed(),
    {
        proof {
            use_type_invariant(&self.names);
        }
        let mut classes = class_set_new();
        core::mem::swap(&mut classes, &mut self.names.classes);
        let removed = class_set_shift_remove(&mut classes, class);
        self.names.classes = classes;
        removed
    }

    fn get_child(&self, index: usize) -> (r: Option<&HtmlNode>)
        ensures
            r is Some == (index < self.model().children.len()),
    {
        if index < self.children.len() {
            Some(&self.children[index])
        } else {
            None
        }
    }

    fn mut_child(&mut self, index: usize) -> (r: Option<&mut HtmlNode>)
        ensures
            r is Some == (index < old(self).model().children.len()),
            final(self).model().well_formed(),
    {
        proof {
            use_type_invariant(&self.names);
        }
        if index < self.children.len() {
            Some(&mut self.children[index])
        } else {
            None
        }
    }

    fn set_child(&mut self, index: usize, child: HtmlNode) -> (r: bool)
        ensures
            r == (index < old(self).model().children.len()),
            final(self).model().well_formed(),
    {
        proof {
            use_type_invariant(&self.names);
        }
        if index < self.children.len() {
            self.children.set(index, child);
            true
        } else {
            false
        }
    }

    fn add_child(&mut self, child: HtmlNode) -> (r: bool)
        ensures
            r,
            final(self).model().well_formed(),
    {
        proof {
            use_type_invariant(&self.names);
        }
        self.children.push(child);
        true
    }

    fn get_children(&self) -> (r: &[HtmlNode])
        ensures
            r@ == self.model().children,
    {
        self.children.as_slice()
    }

    fn mut_children(&mut self) -> (r: &mut [HtmlNode])
        ensures
            r@ == old(self).model().children,
            final(self).model() == old(self).model().with_children(final(r)@),
            final(self).model().well_formed(),
    {
        proof {
            use_type_invariant(&self.names);
        }
        self.children.as_mut_slice()
    }

    fn set_children(&mut self, children: Vec<HtmlNode>) -> (r: bool)
        ensures
            r,
            final(self).model().well_formed(),
    {
        proof {
            use_type_invariant(&self.names);
        }
        self.children = children;
        true
    }
}

} // verus!
