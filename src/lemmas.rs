//! Facts about the shape accessors that hold across calls or across models.

use crate::helper::{
    all_shapes, info_dims, info_shape, inputs_of, named_shape, outputs_of, slot_shape, type_shape, OnnxHelper,
};
use crate::onnx::{ModelProto, ValueInfoProto, SparseTensorTypeProto, TensorTypeProto, TypeValue};
use vstd::prelude::*;

verus! {

/// The dimensions of a resolved shape, without its element type.
pub open spec fn dims_only(r: Option<(Seq<i64>, i32)>) -> Option<Seq<i64>> {
    match r {
        Some(p) => Some(p.0),
        None => None,
    }
}

/// Two helpers over the same decoded model give the same answer to every
/// query: each accessor's result is a function of the model and its arguments.
pub proof fn lemma_answers_depend_on_model_only(a: OnnxHelper, b: OnnxHelper)
    requires
        a@ == b@,
    ensures
        a@.model_version == b@.model_version,
        a@.producer_name@ == b@.producer_name@,
        a@.producer_version@ == b@.producer_version@,
        a@.metadata_props@ == b@.metadata_props@,
        a@.opset_import@ == b@.opset_import@,
        all_shapes(inputs_of(a@)) == all_shapes(inputs_of(b@)),
        all_shapes(outputs_of(a@)) == all_shapes(outputs_of(b@)),
        forall|idx: int| slot_shape(inputs_of(a@), idx) == slot_shape(inputs_of(b@), idx),
        forall|idx: int| slot_shape(outputs_of(a@), idx) == slot_shape(outputs_of(b@), idx),
        forall|name: Seq<char>| named_shape(inputs_of(a@), name) == named_shape(inputs_of(b@), name),
        forall|name: Seq<char>| named_shape(outputs_of(a@), name) == named_shape(outputs_of(b@), name),
{
}

/// A graph that declares no inputs has an empty list of input shapes, which is
/// a success and not a failed resolution.
pub proof fn lemma_no_inputs_gives_empty_shapes(m: ModelProto)
    requires
        m.graph matches Some(g) && g.input@.len() == 0,
    ensures
        all_shapes(inputs_of(m)) == Some(Seq::<Seq<i64>>::empty()),
{
    let s = inputs_of(m)->0;
    assert(Seq::new(s.len(), |i: int| info_dims(s[i])) =~= Seq::<Seq<i64>>::empty());
}

/// An output without a type descriptor has no shape, and makes the batch of
/// all output shapes fail as a whole, whatever the other outputs hold.
pub proof fn lemma_untyped_output_fails_batch(m: ModelProto, idx: int)
    requires
        outputs_of(m) matches Some(s) && 0 <= idx < s.len() && s[idx].ty is None,
    ensures
        slot_shape(outputs_of(m), idx) is None,
        all_shapes(outputs_of(m)) is None,
{
    let s = outputs_of(m)->0;
    assert(info_shape(s[idx]) is None);
}

/// A name that no slot carries, and a position past the last slot, both give
/// no shape.
pub proof fn lemma_missing_slot_gives_none(slots: Option<Seq<ValueInfoProto>>, name: Seq<char>, idx: int)
    requires
        slots matches Some(s) ==> forall|i: int| 0 <= i < s.len() ==> (#[trigger] s[i]).name@ != name,
        slots matches Some(s) ==> idx >= s.len(),
    ensures
        named_shape(slots, name) is None,
        slot_shape(slots, idx) is None,
{
}

/// A sparse tensor type resolves to the same dimensions as a dense tensor type
/// with the same shape descriptor, and to the same result when the element
/// types agree too.
pub proof fn lemma_sparse_resolves_as_dense(dense: TensorTypeProto, sparse: SparseTensorTypeProto)
    requires
        dense.shape == sparse.shape,
    ensures
        dims_only(type_shape(TypeValue::TensorType(dense))) == dims_only(
            type_shape(TypeValue::SparseTensorType(sparse)),
        ),
        dense.elem_type == sparse.elem_type ==> type_shape(TypeValue::TensorType(dense))
            == type_shape(TypeValue::SparseTensorType(sparse)),
{
}

} // verus!
