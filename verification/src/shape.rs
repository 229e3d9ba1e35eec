//! The spelling of a field's declared type, and the reader primitive it calls for.
//!
//! The choice is made from the spelling alone: a path that starts with the name
//! of the growable sequence is read as a list whatever type that name resolves
//! to where the generated code is compiled.

use vstd::prelude::*;
use vstd::string::StringExecFns;

verus! {

/// One of the two operations of the stream reader that generated code may call.
#[derive(Clone, Copy, Debug, PartialEq, Eq, Structural)]
pub enum Primitive {
    /// Decode a single self-delimiting value.
    ReadOne,
    /// Decode a count, then that many values.
    ReadList,
}

/// How the declared type of a field is spelled.
#[derive(Clone, Debug, PartialEq, Eq)]
pub enum TypeShape {
    /// A fixed-length array, `[T; n]`.
    FixedArray,
    /// An unsized slice, `[T]`.
    Slice,
    /// A path such as `Vec<T>` or `std::collections::HashMap<K, V>`: the
    /// identifier of its first segment, then those of the segments after it.
    NamedPath { head: String, rest: Vec<String> },
    /// Any other spelling: a reference, a tuple, a pointer and so on.
    Other,
}

/// A `TypeShape` with its identifiers as character sequences.
pub enum TypeShapeView {
    FixedArray,
    Slice,
    NamedPath { head: Seq<char>, rest: Seq<Seq<char>> },
    Other,
}

impl View for TypeShape {
    type V = TypeShapeView;

    open spec fn view(&self) -> TypeShapeView {
        match self {
            TypeShape::FixedArray => TypeShapeView::FixedArray,
            TypeShape::Slice => TypeShapeView::Slice,
            TypeShape::NamedPath { head, rest } => TypeShapeView::NamedPath {
                head: head@,
                rest: rest.deep_view(),
            },
            TypeShape::Other => TypeShapeView::Other,
        }
    }
}

/// The head identifier that marks a path as the growable sequence.
pub open spec fn growable_sequence_name() -> Seq<char> {
    "Vec"@
}

/// The primitive that decodes a field of the given shape.
pub open spec fn primitive_for(shape: TypeShapeView) -> Primitive {
    match shape {
        TypeShapeView::FixedArray => Primitive::ReadList,
        TypeShapeView::Slice => Primitive::ReadList,
        TypeShapeView::NamedPath { head, .. } => if head == growable_sequence_name() {
            Primitive::ReadList
        } else {
            Primitive::ReadOne
        },
        TypeShapeView::Other => Primitive::ReadOne,
    }
}

/// Picks the reader primitive for a declared shape. Arrays, slices and paths
/// headed by the growable sequence's name share the length-prefixed encoding
/// and are read as lists; everything else is read as one value.
pub fn select_primitive(shape: &TypeShape) -> (primitive: Primitive)
    ensures
        primitive == primitive_for(shape@),
        shape@ is FixedArray || shape@ is Slice ==> primitive == Primitive::ReadList,
        shape@ matches TypeShapeView::NamedPath { head, .. } && head == growable_sequence_name()
            ==> primitive == Primitive::ReadList,
        shape@ matches TypeShapeView::NamedPath { head, .. } && head != growable_sequence_name()
            ==> primitive == Primitive::ReadOne,
        shape@ is Other ==> primitive == Primitive::ReadOne,
{
    match shape {
        TypeShape::FixedArray => Primitive::ReadList,
        TypeShape::Slice => Primitive::ReadList,
        TypeShape::NamedPath { head, .. } => {
            let growable = String::from_str("Vec");
            if *head == growable {
                Primitive::ReadList
            } else {
                Primitive::ReadOne
            }
        },
        TypeShape::Other => Primitive::ReadOne,
    }
}

} // verus!
