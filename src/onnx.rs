//! The parts of the ONNX model schema that this library reads, as plain data.
//!
//! Every field that the schema marks optional is an `Option` here, so that an
//! absent message stays distinguishable from an empty one.

use vstd::prelude::*;

verus! {

/// The root message of a model file.
#[derive(Clone, Debug, PartialEq)]
pub struct ModelProto {
    pub ir_version: i64,
    pub producer_name: String,
    pub producer_version: String,
    pub domain: String,
    pub model_version: i64,
    pub doc_string: String,
    pub graph: Option<GraphProto>,
    pub opset_import: Vec<OperatorSetIdProto>,
    pub metadata_props: Vec<StringStringEntryProto>,
}

/// The computation graph; only its declared inputs and outputs are kept.
#[derive(Clone, Debug, PartialEq)]
pub struct GraphProto {
    pub name: String,
    pub input: Vec<ValueInfoProto>,
    pub output: Vec<ValueInfoProto>,
}

/// One named input or output slot of a graph.
#[derive(Clone, Debug, PartialEq)]
pub struct ValueInfoProto {
    pub name: String,
    pub ty: Option<TypeProto>,
    pub doc_string: String,
}

/// A type descriptor, whose variant may be unset.
#[derive(Clone, Debug, PartialEq)]
pub struct TypeProto {
    pub value: Option<TypeValue>,
    pub denotation: String,
}

/// The variants of a type descriptor. Only the two tensor variants carry a
/// shape; the others are kept as bare tags.
#[derive(Clone, Debug, PartialEq)]
pub enum TypeValue {
    TensorType(TensorTypeProto),
    SequenceType,
    MapType,
    OpaqueType,
    SparseTensorType(SparseTensorTypeProto),
    OptionalType,
}

/// A dense tensor type: element type code and an optional shape.
#[derive(Clone, Debug, PartialEq)]
pub struct TensorTypeProto {
    pub elem_type: i32,
    pub shape: Option<TensorShapeProto>,
}

/// A sparse tensor type: element type code and an optional shape.
#[derive(Clone, Debug, PartialEq)]
pub struct SparseTensorTypeProto {
    pub elem_type: i32,
    pub shape: Option<TensorShapeProto>,
}

/// A shape: its dimensions in rank order.
#[derive(Clone, Debug, PartialEq)]
pub struct TensorShapeProto {
    pub dim: Vec<Dimension>,
}

/// One dimension of a shape, whose value may be unset.
#[derive(Clone, Debug, PartialEq)]
pub struct Dimension {
    pub value: Option<DimensionValue>,
    pub denotation: String,
}

/// A dimension is either a concrete size or a symbolic name.
#[derive(Clone, Debug, PartialEq)]
pub enum DimensionValue {
    DimValue(i64),
    DimParam(String),
}

/// An operator set that the model imports.
#[derive(Clone, Debug, PartialEq)]
pub struct OperatorSetIdProto {
    pub domain: String,
    pub version: i64,
}

/// One free-form metadata entry.
#[derive(Clone, Debug, PartialEq)]
pub struct StringStringEntryProto {
    pub key: String,
    pub value: String,
}

} // verus!
