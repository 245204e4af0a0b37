//! Lists: the children of a container element, decoded in document order.

use vstd::prelude::*;
use crate::document::{NodeView, children, find_attribute, text_view_of};
use crate::failure::{DecodeError, Failure, nest};
use crate::fields::{FieldMap, Fields, get};
use crate::scalar::Scalar;
use crate::text::same_text;

verus! {

/// The namespace of the attributes that mark an item as nil or give its kind.
pub const INSTANCE_NAMESPACE: &'static str = "http://www.w3.org/2001/XMLSchema-instance";

/// Why the element `item` is not an item with tag `tag` that holds a scalar
/// of kind `T`.
pub open spec fn item_failure<T: Scalar>(nodes: Seq<NodeView>, item: usize, tag: Seq<char>) -> Option<
    Failure,
> {
    let node = nodes[item as int];
    if node.tag != tag {
        Some(Failure::mismatch(tag, node.tag))
    } else {
        match node.text {
            None => Some(Failure::empty(tag)),
            Some(t) => match T::fault(t) {
                Some(fault) => Some(Failure::invalid(tag, t, fault)),
                None => None,
            },
        }
    }
}

/// Whether `value` is the scalar that the text of the element `item` spells.
pub open spec fn item_holds<T: Scalar>(nodes: Seq<NodeView>, item: usize, value: T) -> bool {
    nodes[item as int].text matches Some(t) && value.spelled(t)
}

/// The failure of the first of `items` that fails.
pub open spec fn items_failure<T: Scalar>(
    nodes: Seq<NodeView>,
    items: Seq<usize>,
    tag: Seq<char>,
) -> Option<Failure>
    decreases items.len(),
{
    if items.len() == 0 {
        None
    } else {
        match items_failure::<T>(nodes, items.drop_last(), tag) {
            Some(f) => Some(f),
            None => item_failure::<T>(nodes, items.last(), tag),
        }
    }
}

/// A failure among the first `n` items is the failure of the list.
proof fn lemma_items_failure_stays<T: Scalar>(
    nodes: Seq<NodeView>,
    items: Seq<usize>,
    tag: Seq<char>,
    n: int,
)
    requires
        0 <= n <= items.len(),
        items_failure::<T>(nodes, items.take(n), tag) is Some,
    ensures
        items_failure::<T>(nodes, items, tag) == items_failure::<T>(nodes, items.take(n), tag),
    decreases items.len() - n,
{
    if n < items.len() {
        assert(items.drop_last().take(n) == items.take(n));
        lemma_items_failure_stays::<T>(nodes, items.drop_last(), tag, n);
    } else {
        assert(items.take(n) == items);
    }
}

/// Whether an element carries the nil marker: the attribute `nil` of the
/// instance namespace, with the value `true`.
pub open spec fn is_nil(node: NodeView) -> bool {
    find_attribute(node.attributes, INSTANCE_NAMESPACE@, "nil"@) == Some("true"@)
}

/// The kind that an element declares: the attribute `type` of the instance
/// namespace.
pub open spec fn kind_of(node: NodeView) -> Option<Seq<char>> {
    find_attribute(node.attributes, INSTANCE_NAMESPACE@, "type"@)
}

/// The `items` that do not carry the nil marker, in their order.
pub open spec fn without_nil(nodes: Seq<NodeView>, items: Seq<usize>) -> Seq<usize>
    decreases items.len(),
{
    if items.len() == 0 {
        Seq::empty()
    } else if is_nil(nodes[items.last() as int]) {
        without_nil(nodes, items.drop_last())
    } else {
        without_nil(nodes, items.drop_last()).push(items.last())
    }
}

/// The items that a list of variants is decoded from are those without the
/// nil marker, each once, in the order of the document.
pub proof fn law_nil_items_are_left_out(nodes: Seq<NodeView>, items: Seq<usize>)
    ensures
        without_nil(nodes, items) == items.filter(|i: usize| !is_nil(nodes[i as int])),
    decreases items.len(),
{
    reveal(Seq::filter);
    if items.len() > 0 {
        law_nil_items_are_left_out(nodes, items.drop_last());
    }
}

/// A value whose shape is chosen by the kind that its element declares.
pub trait Variant: Sized {
    /// The failure of decoding a value of the declared `kind` from `fields`.
    spec fn failure(kind: Option<Seq<char>>, fields: Fields) -> Option<Failure>;

    /// Whether the value holds what `fields` hold, in the shape of `kind`.
    spec fn decoded(&self, kind: Option<Seq<char>>, fields: Fields) -> bool;

    /// Decodes the value from the kind that its element declares, if it
    /// declares one, and the fields of the element.
    fn from_variant(kind: Option<&str>, map: &FieldMap<'_>) -> (r: Result<Self, DecodeError>)
        ensures
            match r {
                Ok(v) => Self::failure(text_view_of(kind), map@) is None
                    && v.decoded(text_view_of(kind), map@),
                Err(e) => Self::failure(text_view_of(kind), map@) == Some(e@),
            },
    ;
}

/// Why the element `item` is not an item with tag `tag` that holds a
/// variant of `T`.
pub open spec fn variant_failure<T: Variant>(nodes: Seq<NodeView>, item: usize, tag: Seq<char>) -> Option<
    Failure,
> {
    let node = nodes[item as int];
    if node.tag != tag {
        Some(Failure::mismatch(tag, node.tag))
    } else {
        T::failure(kind_of(node), Fields::of(nodes, item))
    }
}

/// The failure of the first of `items` that fails.
pub open spec fn variants_failure<T: Variant>(
    nodes: Seq<NodeView>,
    items: Seq<usize>,
    tag: Seq<char>,
) -> Option<Failure>
    decreases items.len(),
{
    if items.len() == 0 {
        None
    } else {
        match variants_failure::<T>(nodes, items.drop_last(), tag) {
            Some(f) => Some(f),
            None => variant_failure::<T>(nodes, items.last(), tag),
        }
    }
}

impl Fields {
    /// Why the field `name` does not hold a list of scalars of kind `T` in
    /// items tagged `tag`: the field is missing, or an item fails, which is
    /// told with `name` in front of its path.
    #[verifier::opaque]
    pub open spec fn list_failure<T: Scalar>(self, name: Seq<char>, tag: Seq<char>) -> Option<
        Failure,
    > {
        match self.lookup(name) {
            Err(f) => Some(f),
            Ok(i) => nest(items_failure::<T>(self.nodes, children(self.nodes, i), tag), name),
        }
    }

    /// Whether `values` are the scalars that the items of the field `name`
    /// hold, one for each item, in document order.
    #[verifier::opaque]
    pub open spec fn is_list<T: Scalar>(self, name: Seq<char>, values: Seq<T>) -> bool {
        &&& self.lookup(name) matches Ok(i)
        &&& values.len() == children(self.nodes, i).len()
        &&& forall|k: int|
            0 <= k < values.len() ==> item_holds(
                self.nodes,
                children(self.nodes, i)[k],
                #[trigger] values[k],
            )
    }

    /// Why the field `name` does not hold a list of variants of `T` in items
    /// tagged `tag`. Items that carry the nil marker are passed over.
    #[verifier::opaque]
    pub open spec fn variants_failure<T: Variant>(self, name: Seq<char>, tag: Seq<char>) -> Option<
        Failure,
    > {
        match self.lookup(name) {
            Err(f) => Some(f),
            Ok(i) => nest(
                variants_failure::<T>(
                    self.nodes,
                    without_nil(self.nodes, children(self.nodes, i)),
                    tag,
                ),
                name,
            ),
        }
    }

    /// Whether `values` are the variants that the items of the field `name`
    /// hold, one for each item without the nil marker, in document order.
    #[verifier::opaque]
    pub open spec fn is_variants<T: Variant>(self, name: Seq<char>, values: Seq<T>) -> bool {
        &&& self.lookup(name) matches Ok(i)
        &&& values.len() == without_nil(self.nodes, children(self.nodes, i)).len()
        &&& forall|k: int|
            0 <= k < values.len() ==> (#[trigger] values[k]).decoded(
                kind_of(self.nodes[without_nil(self.nodes, children(self.nodes, i))[k] as int]),
                Fields::of(self.nodes, without_nil(self.nodes, children(self.nodes, i))[k]),
            )
    }
}

/// Decodes the list that the field `name` holds: one scalar of kind `T` from
/// the text of each item, in document order. Every item has to have the tag
/// `tag`; the first item that fails ends the decode, and no list is returned.
#[verifier::loop_isolation(false)]
pub fn get_list<T: Scalar>(map: &FieldMap<'_>, name: &str, tag: &str) -> (r: Result<
    Vec<T>,
    DecodeError,
>)
    ensures
        match r {
            Ok(v) => map@.list_failure::<T>(name@, tag@) is None && map@.is_list(name@, v@),
            Err(e) => map@.list_failure::<T>(name@, tag@) == Some(e@),
        },
{
    reveal(Fields::list_failure);
    reveal(Fields::is_list);
    let at = get(map, name)?;
    let doc = map.document();
    let items = doc.children(at);
    let mut out: Vec<T> = Vec::new();
    let mut k: usize = 0;
    while k < items.len()
        invariant
            k <= items@.len(),
            doc@ == map@.nodes,
            forall|i: int| 0 <= i < items@.len() ==> #[trigger] items@[i] < doc.nodes@.len(),
            items_failure::<T>(doc@, items@.take(k as int), tag@) is None,
            out@.len() == k,
            forall|j: int| 0 <= j < k ==> item_holds(doc@, items@[j], #[trigger] out@[j]),
        decreases items@.len() - k,
    {
        let node = &doc.nodes[items[k]];
        assert(items@.take(k + 1).drop_last() == items@.take(k as int));
        assert(items@.take(k + 1).last() == items@[k as int]);
        if !same_text(node.tag.as_str(), tag) {
            proof {
                lemma_items_failure_stays::<T>(doc@, items@, tag@, k + 1);
            }
            return Err(DecodeError::mismatch(tag, node.tag.as_str()).within(name));
        }
        let text = match &node.text {
            Some(t) => t.as_str(),
            None => {
                proof {
                    lemma_items_failure_stays::<T>(doc@, items@, tag@, k + 1);
                }
                return Err(DecodeError::empty(tag).within(name));
            },
        };
        match T::read(text) {
            Ok(v) => {
                let ghost earlier = out@;
                out.push(v);
                assert forall|j: int| 0 <= j < k + 1 implies item_holds(
                    doc@,
                    items@[j],
                    #[trigger] out@[j],
                ) by {
                    if j < k {
                        assert(out@[j] == earlier[j]);
                    }
                }
            },
            Err(fault) => {
                proof {
                    lemma_items_failure_stays::<T>(doc@, items@, tag@, k + 1);
                }
                return Err(DecodeError::invalid(tag, text, fault).within(name));
            },
        }
        k = k + 1;
    }
    assert(items@.take(k as int) == items@);
    Ok(out)
}

/// The list of numbers that the field `name` holds in items tagged `int`.
pub fn get_int_list(map: &FieldMap<'_>, name: &str) -> (r: Result<Vec<u64>, DecodeError>)
    ensures
        match r {
            Ok(v) => map@.list_failure::<u64>(name@, "int"@) is None && map@.is_list(name@, v@),
            Err(e) => map@.list_failure::<u64>(name@, "int"@) == Some(e@),
        },
{
    get_list::<u64>(map, name, "int")
}

/// The list of texts that the field `name` holds in items tagged `tag`.
pub fn get_string_list_with_tag(map: &FieldMap<'_>, name: &str, tag: &str) -> (r: Result<
    Vec<String>,
    DecodeError,
>)
    ensures
        match r {
            Ok(v) => map@.list_failure::<String>(name@, tag@) is None && map@.is_list(name@, v@),
            Err(e) => map@.list_failure::<String>(name@, tag@) == Some(e@),
        },
{
    get_list::<String>(map, name, tag)
}

/// The list of texts that the field `name` holds in items tagged `string`.
pub fn get_string_list(map: &FieldMap<'_>, name: &str) -> (r: Result<Vec<String>, DecodeError>)
    ensures
        match r {
            Ok(v) => map@.list_failure::<String>(name@, "string"@) is None && map@.is_list(name@, v@),
            Err(e) => map@.list_failure::<String>(name@, "string"@) == Some(e@),
        },
{
    get_string_list_with_tag(map, name, "string")
}

/// Decodes the list that the field `name` holds: one variant of `T` from
/// each item that does not carry the nil marker, in document order. Every
/// such item has to have the tag `tag`; its declared kind and its own fields
/// go to the variant's decode. The first item that fails ends the decode.
#[verifier::loop_isolation(false)]
pub fn try_into_list<T: Variant>(map: &FieldMap<'_>, name: &str, tag: &str) -> (r: Result<
    Vec<T>,
    DecodeError,
>)
    ensures
        match r {
            Ok(v) => map@.variants_failure::<T>(name@, tag@) is None && map@.is_variants(name@, v@),
            Err(e) => map@.variants_failure::<T>(name@, tag@) == Some(e@),
        },
{
    reveal(Fields::variants_failure);
    reveal(Fields::is_variants);
    let at = get(map, name)?;
    let doc = map.document();
    let items = doc.children(at);
    let mut out: Vec<T> = Vec::new();
    let mut k: usize = 0;
    while k < items.len()
        invariant
            k <= items@.len(),
            doc@ == map@.nodes,
            forall|i: int| 0 <= i < items@.len() ==> #[trigger] items@[i] < doc.nodes@.len(),
            variants_failure::<T>(doc@, without_nil(doc@, items@.take(k as int)), tag@) is None,
            out@.len() == without_nil(doc@, items@.take(k as int)).len(),
            forall|j: int|
                0 <= j < out@.len() ==> (#[trigger] out@[j]).decoded(
                    kind_of(doc@[without_nil(doc@, items@.take(k as int))[j] as int]),
                    Fields::of(doc@, without_nil(doc@, items@.take(k as int))[j]),
                ),
        decreases items@.len() - k,
    {
        let item = items[k];
        let node = &doc.nodes[item];
        let ghost before = without_nil(doc@, items@.take(k as int));
        let ghost now = without_nil(doc@, items@.take(k + 1));
        assert(items@.take(k + 1).drop_last() == items@.take(k as int));
        assert(items@.take(k + 1).last() == item);
        let nil = match doc.attribute(item, INSTANCE_NAMESPACE, "nil") {
            Some(v) => same_text(v, "true"),
            None => false,
        };
        if !nil {
            assert(now == before.push(item));
            assert(now.drop_last() == before);
            if !same_text(node.tag.as_str(), tag) {
                proof {
                    lemma_kept_failure_stays::<T>(doc@, items@, tag@, k + 1);
                }
                return Err(DecodeError::mismatch(tag, node.tag.as_str()).within(name));
            }
            let kind = doc.attribute(item, INSTANCE_NAMESPACE, "type");
            let inner = FieldMap::new(doc, item);
            match T::from_variant(kind, &inner) {
                Ok(v) => {
                    let ghost earlier = out@;
                    out.push(v);
                    assert forall|j: int| 0 <= j < out@.len() implies (#[trigger] out@[j]).decoded(
                        kind_of(doc@[now[j] as int]),
                        Fields::of(doc@, now[j]),
                    ) by {
                        if j < earlier.len() {
                            assert(out@[j] == earlier[j]);
                            assert(now[j] == before[j]);
                        }
                    }
                },
                Err(e) => {
                    proof {
                        lemma_kept_failure_stays::<T>(doc@, items@, tag@, k + 1);
                    }
                    return Err(e.within(name));
                },
            }
        } else {
            assert(now == before);
        }
        k = k + 1;
    }
    assert(items@.take(k as int) == items@);
    Ok(out)
}

/// A failure among the first `n` items, nil items passed over, is the
/// failure of the list.
proof fn lemma_kept_failure_stays<T: Variant>(
    nodes: Seq<NodeView>,
    items: Seq<usize>,
    tag: Seq<char>,
    n: int,
)
    requires
        0 <= n <= items.len(),
        variants_failure::<T>(nodes, without_nil(nodes, items.take(n)), tag) is Some,
    ensures
        variants_failure::<T>(nodes, without_nil(nodes, items), tag) == variants_failure::<T>(
            nodes,
            without_nil(nodes, items.take(n)),
            tag,
        ),
    decreases items.len() - n,
{
    if n < items.len() {
        assert(items.drop_last().take(n) == items.take(n));
        lemma_kept_failure_stays::<T>(nodes, items.drop_last(), tag, n);
        if !is_nil(nodes[items.last() as int]) {
            assert(without_nil(nodes, items).drop_last() == without_nil(nodes, items.drop_last()));
        }
    } else {
        assert(items.take(n) == items);
    }
}

} // verus!
