//! The document model: an arena of nodes, each naming its parent.

use vstd::prelude::*;
use crate::text::same_text;

verus! {

/// One attribute of an element.
#[derive(Debug, PartialEq, Eq)]
pub struct Attribute {
    /// The namespace URI the attribute's prefix stands for, if it has one.
    pub namespace: Option<String>,
    /// The local name.
    pub name: String,
    pub value: String,
}

/// An attribute in contracts.
pub struct AttributeView {
    pub namespace: Option<Seq<char>>,
    pub name: Seq<char>,
    pub value: Seq<char>,
}

/// The view of an optional string.
pub open spec fn text_view(text: Option<String>) -> Option<Seq<char>> {
    match text {
        Some(s) => Some(s@),
        None => None,
    }
}

/// The view of an optional string slice.
pub open spec fn text_view_of(text: Option<&str>) -> Option<Seq<char>> {
    match text {
        Some(s) => Some(s@),
        None => None,
    }
}

impl View for Attribute {
    type V = AttributeView;

    open spec fn view(&self) -> AttributeView {
        AttributeView {
            namespace: text_view(self.namespace),
            name: self.name@,
            value: self.value@,
        }
    }
}

/// One node of a document.
///
/// Only elements have a tag name and attributes. The text of an element is
/// the text it starts with, if it starts with any.
#[derive(Debug, PartialEq, Eq)]
pub struct Node {
    /// The position of the parent in the document; `None` for the root.
    pub parent: Option<usize>,
    /// Whether the node is an element, as opposed to text, a comment or the like.
    pub element: bool,
    pub tag: String,
    pub text: Option<String>,
    pub attributes: Vec<Attribute>,
}

/// A node in contracts.
pub struct NodeView {
    pub parent: Option<usize>,
    pub element: bool,
    pub tag: Seq<char>,
    pub text: Option<Seq<char>>,
    pub attributes: Seq<AttributeView>,
}

impl View for Node {
    type V = NodeView;

    open spec fn view(&self) -> NodeView {
        NodeView {
            parent: self.parent,
            element: self.element,
            tag: self.tag@,
            text: text_view(self.text),
            attributes: self.attributes@.map_values(|a: Attribute| a@),
        }
    }
}

/// The views of a sequence of nodes.
pub open spec fn node_views(nodes: Seq<Node>) -> Seq<NodeView> {
    nodes.map_values(|n: Node| n@)
}

/// A document: its nodes in document order. A node is addressed by its
/// position.
#[derive(Debug, PartialEq, Eq)]
pub struct Document {
    pub nodes: Vec<Node>,
}

impl View for Document {
    type V = Seq<NodeView>;

    open spec fn view(&self) -> Seq<NodeView> {
        node_views(self.nodes@)
    }
}

/// Whether node `j` is an element directly under node `parent`.
pub open spec fn is_child(nodes: Seq<NodeView>, parent: usize, j: int) -> bool {
    0 <= j < nodes.len() && nodes[j].element && nodes[j].parent == Some(parent)
}

/// The element children of `parent` among the first `n` nodes, in document
/// order.
pub open spec fn children_before(nodes: Seq<NodeView>, parent: usize, n: int) -> Seq<usize>
    decreases n,
{
    if n <= 0 {
        Seq::empty()
    } else if is_child(nodes, parent, n - 1) {
        children_before(nodes, parent, n - 1).push((n - 1) as usize)
    } else {
        children_before(nodes, parent, n - 1)
    }
}

/// The element children of `parent`, in document order.
pub open spec fn children(nodes: Seq<NodeView>, parent: usize) -> Seq<usize> {
    children_before(nodes, parent, nodes.len() as int)
}

/// The value of the first attribute with the given namespace and local
/// name.
pub open spec fn find_attribute(
    attributes: Seq<AttributeView>,
    namespace: Seq<char>,
    name: Seq<char>,
) -> Option<Seq<char>>
    decreases attributes.len(),
{
    if attributes.len() == 0 {
        None
    } else if attributes[0].namespace == Some(namespace) && attributes[0].name == name {
        Some(attributes[0].value)
    } else {
        find_attribute(attributes.drop_first(), namespace, name)
    }
}

/// The value of the first attribute of the node at `at` with the given
/// namespace and local name; `None` where `at` is no node.
pub open spec fn attribute_at(
    nodes: Seq<NodeView>,
    at: usize,
    namespace: Seq<char>,
    name: Seq<char>,
) -> Option<Seq<char>> {
    if at < nodes.len() {
        find_attribute(nodes[at as int].attributes, namespace, name)
    } else {
        None
    }
}

impl Document {
    /// The value of the first attribute of the node at `at` with the given
    /// namespace and local name.
    #[verifier::loop_isolation(false)]
    pub fn attribute(&self, at: usize, namespace: &str, name: &str) -> (r: Option<&str>)
        ensures
            text_view_of(r) == attribute_at(self@, at, namespace@, name@),
    {
        if at >= self.nodes.len() {
            return None;
        }
        let attributes = &self.nodes[at].attributes;
        let ghost all = self@[at as int].attributes;
        let mut k: usize = 0;
        assert(all.skip(0) == all);
        while k < attributes.len()
            invariant
                k <= attributes@.len(),
                all == attributes@.map_values(|a: Attribute| a@),
                find_attribute(all, namespace@, name@) == find_attribute(
                    all.skip(k as int),
                    namespace@,
                    name@,
                ),
            decreases attributes@.len() - k,
        {
            let a = &attributes[k];
            let same_namespace = match &a.namespace {
                Some(ns) => same_text(ns.as_str(), namespace),
                None => false,
            };
            assert(all.skip(k as int)[0] == a@);
            assert(same_namespace == (a@.namespace == Some(namespace@)));
            if same_namespace && same_text(a.name.as_str(), name) {
                return Some(a.value.as_str());
            }
            assert(all.skip(k as int).drop_first() == all.skip(k + 1));
            k = k + 1;
        }
        None
    }
}

/// What holds of the children among the first `n` nodes.
proof fn lemma_children_before(nodes: Seq<NodeView>, parent: usize, n: int)
    requires
        0 <= n <= nodes.len() <= usize::MAX,
    ensures
        forall|i: int|
            0 <= i < children_before(nodes, parent, n).len() ==> {
                &&& is_child(nodes, parent, #[trigger] children_before(nodes, parent, n)[i] as int)
                &&& children_before(nodes, parent, n)[i] < n
            },
        forall|i: int, j: int|
            0 <= i < j < children_before(nodes, parent, n).len() ==> children_before(
                nodes,
                parent,
                n,
            )[i] < children_before(nodes, parent, n)[j],
        forall|j: int|
            0 <= j < n && is_child(nodes, parent, j) ==> children_before(nodes, parent, n).contains(
                j as usize,
            ),
    decreases n,
{
    if n > 0 {
        lemma_children_before(nodes, parent, n - 1);
        let before = children_before(nodes, parent, n - 1);
        let now = children_before(nodes, parent, n);
        if is_child(nodes, parent, n - 1) {
            assert(now[now.len() - 1] == (n - 1) as usize);
            assert forall|j: int| 0 <= j < n && is_child(nodes, parent, j) implies now.contains(
                j as usize,
            ) by {
                if j < n - 1 {
                    let i = choose|i: int| 0 <= i < before.len() && before[i] == j as usize;
                    assert(now[i] == j as usize);
                } else {
                    assert(now[now.len() - 1] == j as usize);
                }
            }
        }
    }
}

/// The children of a node are the elements that name it as their parent:
/// every one of them, each once, in the order of the document.
pub proof fn law_children_in_document_order(nodes: Seq<NodeView>, parent: usize)
    requires
        nodes.len() <= usize::MAX,
    ensures
        forall|i: int|
            0 <= i < children(nodes, parent).len() ==> is_child(
                nodes,
                parent,
                #[trigger] children(nodes, parent)[i] as int,
            ),
        forall|i: int, j: int|
            0 <= i < j < children(nodes, parent).len() ==> children(nodes, parent)[i] < children(
                nodes,
                parent,
            )[j],
        forall|j: int|
            is_child(nodes, parent, j) ==> children(nodes, parent).contains(j as usize),
{
    lemma_children_before(nodes, parent, nodes.len() as int);
}

impl Document {
    /// The element children of the node at `parent`, in document order.
    pub fn children(&self, parent: usize) -> (r: Vec<usize>)
        ensures
            r@ == children(self@, parent),
            forall|i: int| 0 <= i < r@.len() ==> #[trigger] r@[i] < self.nodes@.len(),
    {
        let mut out: Vec<usize> = Vec::new();
        let mut n: usize = 0;
        while n < self.nodes.len()
            invariant
                n <= self.nodes@.len(),
                out@ == children_before(self@, parent, n as int),
                forall|i: int| 0 <= i < out@.len() ==> #[trigger] out@[i] < self.nodes@.len(),
            decreases self.nodes@.len() - n,
        {
            let node = &self.nodes[n];
            let under = match node.parent {
                Some(p) => p == parent,
                None => false,
            };
            if node.element && under {
                out.push(n);
            }
            n = n + 1;
        }
        out
    }

    /// The first element child of the node at `parent`.
    pub fn first_child(&self, parent: usize) -> (r: Option<usize>)
        ensures
            match r {
                Some(i) => children(self@, parent).len() > 0 && children(self@, parent)[0] == i
                    && i < self.nodes@.len(),
                None => children(self@, parent).len() == 0,
            },
    {
        let mut n: usize = 0;
        while n < self.nodes.len()
            invariant
                n <= self.nodes@.len(),
                children_before(self@, parent, n as int).len() == 0,
            decreases self.nodes@.len() - n,
        {
            let node = &self.nodes[n];
            let under = match node.parent {
                Some(p) => p == parent,
                None => false,
            };
            if node.element && under {
                proof {
                    lemma_first_child(self@, parent, n as int + 1, self.nodes@.len() as int);
                }
                return Some(n);
            }
            n = n + 1;
        }
        None
    }

    /// The element that holds all others: the first element child of the
    /// document's first node.
    pub fn root_element(&self) -> (r: Option<usize>)
        ensures
            match r {
                Some(i) => children(self@, 0).len() > 0 && children(self@, 0)[0] == i && i
                    < self.nodes@.len(),
                None => children(self@, 0).len() == 0,
            },
    {
        self.first_child(0)
    }
}

/// Nodes further on do not change which child is the first.
proof fn lemma_first_child(nodes: Seq<NodeView>, parent: usize, n: int, m: int)
    requires
        0 < n <= m <= nodes.len(),
        children_before(nodes, parent, n).len() > 0,
    ensures
        children_before(nodes, parent, m).len() > 0,
        children_before(nodes, parent, m)[0] == children_before(nodes, parent, n)[0],
    decreases m - n,
{
    if n < m {
        lemma_first_child(nodes, parent, n, m - 1);
    }
}

} // verus!
