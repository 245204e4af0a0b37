//! The field map of one record, and the scalar accessors on it.
//!
//! An accessor states two things of a field: why it fails, if it does
//! (`..._failure`), and that the value it returns is what the field holds
//! (`is_...`). Both are opaque, so that a record of many fields is proved
//! from one fact for each field; a proof that needs what one of them says
//! reveals it.

use vstd::prelude::*;
use vstd::hash_map::StringHashMap;
use crate::document::{Document, NodeView, children};
use crate::failure::{DecodeError, Failure};
use crate::scalar::Scalar;
use crate::text::same_text;

verus! {

/// The map from tag name to element that a sequence of elements gives. Where
/// two elements share a tag name, the later one takes its place in the map.
pub open spec fn tag_index(nodes: Seq<NodeView>, elements: Seq<usize>) -> Map<Seq<char>, usize>
    decreases elements.len(),
{
    if elements.len() == 0 {
        Map::empty()
    } else {
        tag_index(nodes, elements.drop_last()).insert(
            nodes[elements.last() as int].tag,
            elements.last(),
        )
    }
}

/// What a field map is in contracts: the nodes of the document, and the
/// element that each field name stands for.
pub struct Fields {
    pub nodes: Seq<NodeView>,
    pub index: Map<Seq<char>, usize>,
}

impl Fields {
    /// The fields of the element at `parent`: its element children by tag
    /// name.
    pub open spec fn of(nodes: Seq<NodeView>, parent: usize) -> Fields {
        Fields { nodes, index: tag_index(nodes, children(nodes, parent)) }
    }

    /// The element of the field `name`.
    pub open spec fn lookup(self, name: Seq<char>) -> Result<usize, Failure> {
        if self.index.contains_key(name) {
            Ok(self.index[name])
        } else {
            Err(Failure::missing(name))
        }
    }

    /// The text content of the field `name`.
    pub open spec fn content(self, name: Seq<char>) -> Result<Seq<char>, Failure> {
        match self.lookup(name) {
            Err(f) => Err(f),
            Ok(i) => match self.nodes[i as int].text {
                None => Err(Failure::empty(name)),
                Some(t) => Ok(t),
            },
        }
    }

    /// The text content of the field `name`, which has to hold at least one
    /// character.
    pub open spec fn string(self, name: Seq<char>) -> Result<Seq<char>, Failure> {
        match self.content(name) {
            Err(f) => Err(f),
            Ok(t) => if t.len() == 0 {
                Err(Failure::empty(name))
            } else {
                Ok(t)
            },
        }
    }

    /// Whether the text content of the field `name` is exactly `true`.
    pub open spec fn flag(self, name: Seq<char>) -> Result<bool, Failure> {
        match self.content(name) {
            Err(f) => Err(f),
            Ok(t) => Ok(t == "true"@),
        }
    }

    /// Why the field `name` does not hold text; `None` where it holds some.
    #[verifier::opaque]
    pub open spec fn string_failure(self, name: Seq<char>) -> Option<Failure> {
        match self.string(name) {
            Ok(_) => None,
            Err(f) => Some(f),
        }
    }

    /// Whether `value` is the text that the field `name` holds.
    #[verifier::opaque]
    pub open spec fn is_string(self, name: Seq<char>, value: String) -> bool {
        self.string(name) == Ok::<Seq<char>, Failure>(value@)
    }

    /// Why the field `name` does not hold a flag; `None` where it holds one.
    #[verifier::opaque]
    pub open spec fn flag_failure(self, name: Seq<char>) -> Option<Failure> {
        match self.flag(name) {
            Ok(_) => None,
            Err(f) => Some(f),
        }
    }

    /// Whether `value` is the flag that the field `name` holds.
    #[verifier::opaque]
    pub open spec fn is_flag(self, name: Seq<char>, value: bool) -> bool {
        self.flag(name) == Ok::<bool, Failure>(value)
    }

    /// Why the field `name` does not hold a scalar of kind `T`; `None` where
    /// it holds one.
    #[verifier::opaque]
    pub open spec fn scalar_failure<T: Scalar>(self, name: Seq<char>) -> Option<Failure> {
        match self.content(name) {
            Err(f) => Some(f),
            Ok(t) => match T::fault(t) {
                Some(fault) => Some(Failure::invalid(name, t, fault)),
                None => None,
            },
        }
    }

    /// Whether `value` is the scalar that the field `name` holds.
    #[verifier::opaque]
    pub open spec fn is_scalar<T: Scalar>(self, name: Seq<char>, value: T) -> bool {
        self.content(name) matches Ok(t) && value.spelled(t)
    }
}

/// A field that has text holds a flag, whatever the text: `true` where the
/// text is exactly `true`, and `false` for any other text. Only a field that
/// is missing or has no text fails.
pub proof fn law_flag_is_exactly_true(fields: Fields, name: Seq<char>)
    ensures
        match fields.content(name) {
            Ok(t) => {
                &&& fields.flag_failure(name) is None
                &&& forall|b: bool| fields.is_flag(name, b) <==> (b <==> t == "true"@)
            },
            Err(f) => {
                &&& fields.flag_failure(name) == Some(f)
                &&& forall|b: bool| !fields.is_flag(name, b)
            },
        },
{
    reveal(Fields::flag_failure);
    reveal(Fields::is_flag);
}

/// A name is a field exactly where an element has it as its tag.
pub proof fn law_fields_are_tags(nodes: Seq<NodeView>, elements: Seq<usize>, name: Seq<char>)
    ensures
        tag_index(nodes, elements).contains_key(name) <==> exists|i: int|
            0 <= i < elements.len() && nodes[#[trigger] elements[i] as int].tag == name,
    decreases elements.len(),
{
    if elements.len() > 0 {
        let front = elements.drop_last();
        law_fields_are_tags(nodes, front, name);
        if tag_index(nodes, elements).contains_key(name) {
            if nodes[elements.last() as int].tag == name {
                assert(nodes[elements[elements.len() - 1] as int].tag == name);
            } else {
                let i = choose|i: int| 0 <= i < front.len() && nodes[#[trigger] front[i] as int].tag == name;
                assert(nodes[elements[i] as int].tag == name);
            }
        }
        if exists|i: int| 0 <= i < elements.len() && nodes[#[trigger] elements[i] as int].tag == name {
            let i = choose|i: int| 0 <= i < elements.len() && nodes[#[trigger] elements[i] as int].tag == name;
            if i < front.len() {
                assert(nodes[front[i] as int].tag == name);
            }
        }
    }
}

/// An element is found under its tag name unless a later element has the
/// same tag name: of elements that share one, the last is the field.
pub proof fn law_last_element_wins(nodes: Seq<NodeView>, elements: Seq<usize>, i: int)
    requires
        0 <= i < elements.len(),
        forall|j: int|
            i < j < elements.len() ==> nodes[#[trigger] elements[j] as int].tag
                != nodes[elements[i] as int].tag,
    ensures
        tag_index(nodes, elements).contains_key(nodes[elements[i] as int].tag),
        tag_index(nodes, elements)[nodes[elements[i] as int].tag] == elements[i],
    decreases elements.len(),
{
    if i < elements.len() - 1 {
        let front = elements.drop_last();
        assert forall|j: int| i < j < front.len() implies nodes[#[trigger] front[j] as int].tag
            != nodes[front[i] as int].tag by {
            assert(front[j] == elements[j]);
        }
        law_last_element_wins(nodes, front, i);
        assert(nodes[elements[elements.len() - 1] as int].tag != nodes[elements[i] as int].tag);
    }
}

/// Two children with different tag names are two fields, each found under
/// its own name.
pub proof fn law_two_tags_two_fields(nodes: Seq<NodeView>, parent: usize)
    requires
        children(nodes, parent).len() == 2,
        nodes[children(nodes, parent)[0] as int].tag != nodes[children(nodes, parent)[1] as int].tag,
    ensures
        Fields::of(nodes, parent).lookup(nodes[children(nodes, parent)[0] as int].tag) == Ok::<
            usize,
            Failure,
        >(children(nodes, parent)[0]),
        Fields::of(nodes, parent).lookup(nodes[children(nodes, parent)[1] as int].tag) == Ok::<
            usize,
            Failure,
        >(children(nodes, parent)[1]),
{
    let elements = children(nodes, parent);
    law_last_element_wins(nodes, elements, 0);
    law_last_element_wins(nodes, elements, 1);
}

/// Two children with the same tag name are one field: the second child.
pub proof fn law_shared_tag_one_field(nodes: Seq<NodeView>, parent: usize)
    requires
        children(nodes, parent).len() == 2,
        nodes[children(nodes, parent)[0] as int].tag == nodes[children(nodes, parent)[1] as int].tag,
    ensures
        Fields::of(nodes, parent).index.dom() == set![nodes[children(nodes, parent)[1] as int].tag],
        Fields::of(nodes, parent).index.dom().len() == 1,
        Fields::of(nodes, parent).lookup(nodes[children(nodes, parent)[1] as int].tag) == Ok::<
            usize,
            Failure,
        >(children(nodes, parent)[1]),
{
    let elements = children(nodes, parent);
    let tag = nodes[elements[1] as int].tag;
    law_last_element_wins(nodes, elements, 1);
    assert forall|name: Seq<char>| tag_index(nodes, elements).contains_key(name) implies name
        == tag by {
        law_fields_are_tags(nodes, elements, name);
    }
    assert(Fields::of(nodes, parent).index.dom() =~= set![tag]);
}

/// The working context of one record's decode: the element children of one
/// element, by tag name.
pub struct FieldMap<'a> {
    doc: &'a Document,
    index: StringHashMap<usize>,
}

impl<'a> View for FieldMap<'a> {
    type V = Fields;

    closed spec fn view(&self) -> Fields {
        Fields { nodes: self.doc@, index: self.index@ }
    }
}

impl<'a> FieldMap<'a> {
    /// Every field stands for a node of the document.
    #[verifier::type_invariant]
    spec fn well_formed(self) -> bool {
        forall|name: Seq<char>| #[trigger]
            self.index@.contains_key(name) ==> self.index@[name] < self.doc.nodes@.len()
    }

    /// Builds the field map of the element at `parent`.
    pub fn new(doc: &'a Document, parent: usize) -> (map: FieldMap<'a>)
        ensures
            map@ == Fields::of(doc@, parent),
    {
        let elements = doc.children(parent);
        let mut index: StringHashMap<usize> = StringHashMap::new();
        let mut n: usize = 0;
        while n < elements.len()
            invariant
                n <= elements@.len(),
                forall|i: int| 0 <= i < elements@.len() ==> #[trigger] elements@[i] < doc.nodes@.len(),
                index@ == tag_index(doc@, elements@.take(n as int)),
                forall|name: Seq<char>| #[trigger]
                    index@.contains_key(name) ==> index@[name] < doc.nodes@.len(),
            decreases elements@.len() - n,
        {
            let at = elements[n];
            assert(elements@.take(n + 1).drop_last() == elements@.take(n as int));
            index.insert(doc.nodes[at].tag.clone(), at);
            n = n + 1;
        }
        assert(elements@.take(n as int) == elements@);
        FieldMap { doc, index }
    }

    /// The document that the fields lie in.
    pub fn document(&self) -> (doc: &'a Document)
        ensures
            doc@ == self@.nodes,
    {
        self.doc
    }
}

/// The element of the field `name`.
pub fn get(map: &FieldMap<'_>, name: &str) -> (r: Result<usize, DecodeError>)
    ensures
        match r {
            Ok(i) => map@.lookup(name@) == Ok::<usize, Failure>(i) && i < map@.nodes.len(),
            Err(e) => map@.lookup(name@) == Err::<usize, Failure>(e@),
        },
{
    proof {
        use_type_invariant(map);
    }
    match map.index.get(name) {
        Some(i) => Ok(*i),
        None => Err(DecodeError::missing(name)),
    }
}

/// The text content of the field `name`.
fn content<'a>(map: &FieldMap<'a>, name: &str) -> (r: Result<&'a str, DecodeError>)
    ensures
        match r {
            Ok(t) => map@.content(name@) == Ok::<Seq<char>, Failure>(t@),
            Err(e) => map@.content(name@) == Err::<Seq<char>, Failure>(e@),
        },
{
    let i = get(map, name)?;
    match &map.doc.nodes[i].text {
        Some(t) => Ok(t.as_str()),
        None => Err(DecodeError::empty(name)),
    }
}

/// The text content of the field `name`, which has to hold at least one
/// character.
pub fn get_string(map: &FieldMap<'_>, name: &str) -> (r: Result<String, DecodeError>)
    ensures
        match r {
            Ok(t) => map@.string_failure(name@) is None && map@.is_string(name@, t),
            Err(e) => map@.string_failure(name@) == Some(e@),
        },
{
    reveal(Fields::string_failure);
    reveal(Fields::is_string);
    let t = content(map, name)?;
    if t.is_empty() {
        Err(DecodeError::empty(name))
    } else {
        Ok(t.to_owned())
    }
}

/// Whether the text content of the field `name` is exactly `true`. Any other
/// text is `false`, and no failure.
pub fn get_bool(map: &FieldMap<'_>, name: &str) -> (r: Result<bool, DecodeError>)
    ensures
        match r {
            Ok(b) => map@.flag_failure(name@) is None && map@.is_flag(name@, b),
            Err(e) => map@.flag_failure(name@) == Some(e@),
        },
{
    reveal(Fields::flag_failure);
    reveal(Fields::is_flag);
    let t = content(map, name)?;
    Ok(same_text(t, "true"))
}

/// The scalar of kind `T` that the text content of the field `name` spells.
pub fn parse<T: Scalar>(map: &FieldMap<'_>, name: &str) -> (r: Result<T, DecodeError>)
    ensures
        match r {
            Ok(v) => map@.scalar_failure::<T>(name@) is None && map@.is_scalar(name@, v),
            Err(e) => map@.scalar_failure::<T>(name@) == Some(e@),
        },
{
    reveal(Fields::scalar_failure);
    reveal(Fields::is_scalar);
    let t = content(map, name)?;
    match T::read(t) {
        Ok(v) => Ok(v),
        Err(fault) => Err(DecodeError::invalid(name, t, fault)),
    }
}

} // verus!
