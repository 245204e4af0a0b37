//! Reading a document from XML text.

use vstd::prelude::*;
use crate::document::{Attribute, Document, Node, NodeView, node_views};
use crate::failure::{DecodeError, Failure};

verus! {

/// The error of the XML parser, `roxmltree::Error`. Nothing is read from it:
/// whatever the parser objects to, the document is malformed.
#[verifier::external_type_specification]
#[verifier::external_body]
pub struct ExXmlError(roxmltree::Error);

/// The nodes that the XML parser finds in a text, in document order, or
/// `None` where it rejects the text.
pub uninterp spec fn parsed(text: Seq<char>) -> Option<Seq<NodeView>>;

/// Parses `text` with `roxmltree::Document::parse` and copies out every node
/// of the tree (`Document::descendants`, which starts at the root node), each
/// with the position of its parent (`Node::parent`, `NodeId::get_usize`), its
/// kind (`Node::is_element`), its local tag name (`Node::tag_name`), its text
/// (`Node::text`) and its attributes (`Node::attributes`).
///
/// Not proved: the contract only gives the outcome a name, `parsed`, as a
/// function of the text.
#[verifier::external_body]
fn read_nodes(text: &str) -> (r: Result<Vec<Node>, roxmltree::Error>)
    ensures
        match r {
            Ok(nodes) => parsed(text@) == Some(node_views(nodes@)),
            Err(_) => parsed(text@) is None,
        },
{
    let doc = roxmltree::Document::parse(text)?;
    Ok(doc.descendants().map(|n| Node {
        parent: n.parent().map(|p| p.id().get_usize()),
        element: n.is_element(),
        tag: n.tag_name().name().to_string(),
        text: n.text().map(|t| t.to_string()),
        attributes: n.attributes().iter().map(|a| Attribute {
            namespace: a.namespace().map(|s| s.to_string()),
            name: a.name().to_string(),
            value: a.value().to_string(),
        }).collect(),
    }).collect())
}

impl Document {
    /// Reads a document from XML text. A text that the parser rejects is a
    /// malformed document.
    pub fn parse(text: &str) -> (r: Result<Document, DecodeError>)
        ensures
            match r {
                Ok(doc) => parsed(text@) == Some(doc@),
                Err(e) => parsed(text@) is None && e@ == Failure::malformed(),
            },
    {
        match read_nodes(text) {
            Ok(nodes) => Ok(Document { nodes }),
            Err(_) => Err(DecodeError::malformed()),
        }
    }
}

} // verus!
