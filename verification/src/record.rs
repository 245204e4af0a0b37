//! Records, and the decoding of a record nested in a field.

use vstd::prelude::*;
use crate::document::{Document, NodeView, children};
use crate::failure::{DecodeError, Failure, nest, render, within_text};
use crate::fields::{FieldMap, Fields, get};
use crate::scalar::Scalar;

verus! {

/// A value that is decoded from the fields of one element.
pub trait Record: Sized {
    /// The failure of decoding a record from `fields`: that of the first
    /// field, in the order of the record's shape, that fails. `None` where
    /// every field decodes.
    spec fn failure(fields: Fields) -> Option<Failure>;

    /// Whether the record holds what `fields` hold, field by field.
    spec fn decoded(&self, fields: Fields) -> bool;

    /// Decodes the record from the fields of its element, in the order of
    /// its shape. The first field that fails ends the decode.
    fn from_fields(map: &FieldMap<'_>) -> (r: Result<Self, DecodeError>)
        ensures
            match r {
                Ok(v) => Self::failure(map@) is None && v.decoded(map@),
                Err(e) => Self::failure(map@) == Some(e@),
            },
    ;
}

/// The failure of a run of fields that are decoded one after another. A
/// record's `failure` is written as one chain that starts with `no_failure()`
/// and names the failure of each field in turn.
pub trait Otherwise {
    /// The failure so far, or else that of the next field.
    spec fn otherwise(self, next: Option<Failure>) -> Option<Failure>;
}

impl Otherwise for Option<Failure> {
    open spec fn otherwise(self, next: Option<Failure>) -> Option<Failure> {
        match self {
            Some(f) => Some(f),
            None => next,
        }
    }
}

/// The start of a chain: no field has failed yet.
pub open spec fn no_failure() -> Option<Failure> {
    None
}

impl Fields {
    /// Why the field `name` does not hold a record of type `T`: the field
    /// is missing, or the record in it fails to decode, which is told with
    /// `name` in front of its path.
    #[verifier::opaque]
    pub open spec fn record_failure<T: Record>(self, name: Seq<char>) -> Option<Failure> {
        match self.lookup(name) {
            Err(f) => Some(f),
            Ok(i) => nest(T::failure(Fields::of(self.nodes, i)), name),
        }
    }

    /// Whether `value` is the record that the field `name` holds.
    #[verifier::opaque]
    pub open spec fn is_record<T: Record>(self, name: Seq<char>, value: T) -> bool {
        self.lookup(name) matches Ok(i) && value.decoded(Fields::of(self.nodes, i))
    }

    /// Why the first element under the field `name` does not hold a scalar
    /// of kind `T`.
    #[verifier::opaque]
    pub open spec fn inner_failure<T: Scalar>(self, name: Seq<char>) -> Option<Failure> {
        match self.lookup(name) {
            Err(f) => Some(f),
            Ok(i) => if children(self.nodes, i).len() == 0 {
                Some(Failure::empty(name))
            } else {
                match self.nodes[children(self.nodes, i)[0] as int].text {
                    None => Some(Failure::empty(name)),
                    Some(t) => match T::fault(t) {
                        Some(fault) => Some(Failure::invalid(name, t, fault)),
                        None => None,
                    },
                }
            },
        }
    }

    /// Whether `value` is the scalar that the first element under the field
    /// `name` holds.
    #[verifier::opaque]
    pub open spec fn is_inner<T: Scalar>(self, name: Seq<char>, value: T) -> bool {
        &&& self.lookup(name) matches Ok(i)
        &&& children(self.nodes, i).len() > 0
        &&& self.nodes[children(self.nodes, i)[0] as int].text matches Some(t)
        &&& value.spelled(t)
    }
}

/// A failure inside a nested record is the failure of the field that holds
/// the record, with the name of that field in front of its path and of its
/// message. A record nested in a record nested in a record, and so on, adds
/// one name at each level.
pub proof fn law_nested_failure_names_its_field<T: Record>(fields: Fields, name: Seq<char>)
    ensures
        match fields.lookup(name) {
            Err(f) => fields.record_failure::<T>(name) == Some(f),
            Ok(i) => match T::failure(Fields::of(fields.nodes, i)) {
                None => fields.record_failure::<T>(name) is None,
                Some(f) => {
                    &&& fields.record_failure::<T>(name) == Some(f.within(name))
                    &&& f.within(name).path == seq![name] + f.path
                    &&& f.within(name).cause == f.cause
                    &&& render(f.within(name)) == within_text(name) + render(f)
                },
            },
        },
{
    reveal(Fields::record_failure);
    match fields.lookup(name) {
        Err(f) => {},
        Ok(i) => match T::failure(Fields::of(fields.nodes, i)) {
            None => {},
            Some(f) => {
                crate::failure::law_within_renders(f, name);
            },
        },
    }
}

/// Why a document does not hold a record of type `T` in its root element:
/// it has no root element, or the record fails to decode.
pub open spec fn document_failure<T: Record>(nodes: Seq<NodeView>) -> Option<Failure> {
    if children(nodes, 0).len() == 0 {
        Some(Failure::malformed())
    } else {
        T::failure(Fields::of(nodes, children(nodes, 0)[0]))
    }
}

/// Whether `value` is the record that the root element of a document holds.
pub open spec fn is_document<T: Record>(nodes: Seq<NodeView>, value: T) -> bool {
    children(nodes, 0).len() > 0 && value.decoded(Fields::of(nodes, children(nodes, 0)[0]))
}

/// Decodes the record of type `T` that the root element of `doc` holds, from
/// the fields of that element.
pub fn from_document<T: Record>(doc: &Document) -> (r: Result<T, DecodeError>)
    ensures
        match r {
            Ok(v) => document_failure::<T>(doc@) is None && is_document(doc@, v),
            Err(e) => document_failure::<T>(doc@) == Some(e@),
        },
{
    let root = match doc.root_element() {
        Some(i) => i,
        None => { return Err(DecodeError::malformed()); },
    };
    let map = FieldMap::new(doc, root);
    T::from_fields(&map)
}

/// Decodes the record of type `T` that the field `name` holds, from the
/// fields of that element.
pub fn try_into<T: Record>(map: &FieldMap<'_>, name: &str) -> (r: Result<T, DecodeError>)
    ensures
        match r {
            Ok(v) => map@.record_failure::<T>(name@) is None && map@.is_record(name@, v),
            Err(e) => map@.record_failure::<T>(name@) == Some(e@),
        },
{
    reveal(Fields::record_failure);
    reveal(Fields::is_record);
    let at = get(map, name)?;
    let inner = FieldMap::new(map.document(), at);
    match T::from_fields(&inner) {
        Ok(v) => Ok(v),
        Err(e) => Err(e.within(name)),
    }
}

/// Reads the scalar of kind `T` that the first element under the field
/// `name` spells.
pub fn parse_inner<T: Scalar>(map: &FieldMap<'_>, name: &str) -> (r: Result<T, DecodeError>)
    ensures
        match r {
            Ok(v) => map@.inner_failure::<T>(name@) is None && map@.is_inner(name@, v),
            Err(e) => map@.inner_failure::<T>(name@) == Some(e@),
        },
{
    reveal(Fields::inner_failure);
    reveal(Fields::is_inner);
    let at = get(map, name)?;
    let doc = map.document();
    let first = match doc.first_child(at) {
        Some(i) => i,
        None => { return Err(DecodeError::empty(name)); },
    };
    let text = match &doc.nodes[first].text {
        Some(t) => t.as_str(),
        None => { return Err(DecodeError::empty(name)); },
    };
    match T::read(text) {
        Ok(v) => Ok(v),
        Err(fault) => Err(DecodeError::invalid(name, text, fault)),
    }
}

} // verus!
