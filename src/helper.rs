//! Shape resolution over the declared inputs and outputs of a model.

use crate::onnx::{
    Dimension, DimensionValue, ModelProto, OperatorSetIdProto, StringStringEntryProto,
    TensorShapeProto, TypeValue, ValueInfoProto,
};
use vstd::prelude::*;

verus! {

/// The value a set dimension resolves to: its size, or `-1` for a symbolic one.
pub open spec fn resolved_dim(d: Dimension) -> i64 {
    match d.value {
        Some(DimensionValue::DimValue(a)) => a,
        _ => -1i64,
    }
}

/// The resolved dimensions, or `None` when any dimension is unset.
pub open spec fn dims_spec(dims: Seq<Dimension>) -> Option<Seq<i64>> {
    if forall|i: int| 0 <= i < dims.len() ==> (#[trigger] dims[i]).value is Some {
        Some(Seq::new(dims.len(), |i: int| resolved_dim(dims[i])))
    } else {
        None
    }
}

/// The contents of an optional shape.
pub open spec fn vec_view(r: Option<Vec<i64>>) -> Option<Seq<i64>> {
    match r {
        Some(v) => Some(v@),
        None => None,
    }
}

fn proto_dims_to_vec(dims: &[Dimension]) -> (r: Option<Vec<i64>>)
    ensures
        vec_view(r) == dims_spec(dims@),
{
    let mut res: Vec<i64> = Vec::new();
    let mut i: usize = 0;
    while i < dims.len()
        invariant
            i <= dims.len(),
            res@.len() == i,
            forall|j: int| 0 <= j < i ==> (#[trigger] dims@[j]).value is Some && res@[j] == resolved_dim(dims@[j]),
        decreases dims.len() - i,
    {
        let d: i64 = match &dims[i].value {
            Some(DimensionValue::DimValue(a)) => *a,
            Some(DimensionValue::DimParam(_)) => -1,
            None => {
                return None;
            },
        };
        res.push(d);
        i = i + 1;
    }
    assert(res@ =~= Seq::new(dims@.len(), |j: int| resolved_dim(dims@[j])));
    Some(res)
}


/// The shape and element type that a shape descriptor and an element type code
/// resolve to; `None` when the descriptor is absent or a dimension is unset.
pub open spec fn descriptor_shape(shape: Option<TensorShapeProto>, elem_type: i32) -> Option<(Seq<i64>, i32)> {
    match shape {
        Some(s) => match dims_spec(s.dim@) {
            Some(d) => Some((d, elem_type)),
            None => None,
        },
        None => None,
    }
}

/// What a type descriptor's variant resolves to: only tensor variants have a shape.
pub open spec fn type_shape(v: TypeValue) -> Option<(Seq<i64>, i32)> {
    match v {
        TypeValue::TensorType(t) => descriptor_shape(t.shape, t.elem_type),
        TypeValue::SparseTensorType(t) => descriptor_shape(t.shape, t.elem_type),
        _ => None,
    }
}

/// What a slot resolves to; `None` when its type descriptor or variant is absent.
pub open spec fn info_shape(info: ValueInfoProto) -> Option<(Seq<i64>, i32)> {
    match info.ty {
        Some(t) => match t.value {
            Some(v) => type_shape(v),
            None => None,
        },
        None => None,
    }
}

/// The dimensions of a slot that resolves.
pub open spec fn info_dims(info: ValueInfoProto) -> Seq<i64> {
    match info_shape(info) {
        Some(p) => p.0,
        None => Seq::empty(),
    }
}

/// The contents of an optional shape with its element type.
pub open spec fn pair_view(r: Option<(Vec<i64>, i32)>) -> Option<(Seq<i64>, i32)> {
    match r {
        Some((v, e)) => Some((v@, e)),
        None => None,
    }
}

fn get_shape(val: &TypeValue) -> (r: Option<(Vec<i64>, i32)>)
    ensures
        pair_view(r) == type_shape(*val),
{
    match val {
        TypeValue::TensorType(a) => {
            let shape = match &a.shape {
                Some(s) => s,
                None => return None,
            };
            match proto_dims_to_vec(shape.dim.as_slice()) {
                Some(d) => Some((d, a.elem_type)),
                None => None,
            }
        },
        TypeValue::SparseTensorType(a) => {
            let shape = match &a.shape {
                Some(s) => s,
                None => return None,
            };
            match proto_dims_to_vec(shape.dim.as_slice()) {
                Some(d) => Some((d, a.elem_type)),
                None => None,
            }
        },
        _ => None,
    }
}

fn info_shape_of(info: &ValueInfoProto) -> (r: Option<(Vec<i64>, i32)>)
    ensures
        pair_view(r) == info_shape(*info),
{
    let t = match &info.ty {
        Some(t) => t,
        None => return None,
    };
    match &t.value {
        Some(v) => get_shape(v),
        None => None,
    }
}

/// The shape of the slot at `idx`, or `None` when the slots are absent, `idx`
/// is out of range, or the slot does not resolve.
pub open spec fn slot_shape(slots: Option<Seq<ValueInfoProto>>, idx: int) -> Option<Seq<i64>> {
    match slots {
        Some(s) => if 0 <= idx < s.len() {
            match info_shape(s[idx]) {
                Some(p) => Some(p.0),
                None => None,
            }
        } else {
            None
        },
        None => None,
    }
}

/// `i` is the position of the first slot named `name`.
pub open spec fn first_named(s: Seq<ValueInfoProto>, name: Seq<char>, i: int) -> bool {
    &&& 0 <= i < s.len()
    &&& s[i].name@ == name
    &&& forall|j: int| 0 <= j < i ==> (#[trigger] s[j]).name@ != name
}

/// The shape of the first slot named `name`, or `None` when the slots are
/// absent, no slot has that name, or that slot does not resolve.
pub open spec fn named_shape(slots: Option<Seq<ValueInfoProto>>, name: Seq<char>) -> Option<Seq<i64>> {
    match slots {
        Some(s) => if exists|i: int| first_named(s, name, i) {
            slot_shape(slots, choose|i: int| first_named(s, name, i))
        } else {
            None
        },
        None => None,
    }
}

/// The shapes of all slots, or `None` when the slots are absent or any one of
/// them does not resolve.
pub open spec fn all_shapes(slots: Option<Seq<ValueInfoProto>>) -> Option<Seq<Seq<i64>>> {
    match slots {
        Some(s) => if forall|i: int| 0 <= i < s.len() ==> (#[trigger] info_shape(s[i])) is Some {
            Some(Seq::new(s.len(), |i: int| info_dims(s[i])))
        } else {
            None
        },
        None => None,
    }
}

/// The contents of an optional list of shapes.
pub open spec fn shapes_view(r: Option<Vec<Vec<i64>>>) -> Option<Seq<Seq<i64>>> {
    match r {
        Some(v) => Some(v@.map_values(|x: Vec<i64>| x@)),
        None => None,
    }
}

fn shape_at(slots: &Vec<ValueInfoProto>, idx: usize) -> (r: Option<Vec<i64>>)
    ensures
        vec_view(r) == slot_shape(Some(slots@), idx as int),
{
    if idx >= slots.len() {
        return None;
    }
    match info_shape_of(&slots[idx]) {
        Some((d, _)) => Some(d),
        None => None,
    }
}

fn shape_named(slots: &Vec<ValueInfoProto>, name: &str) -> (r: Option<Vec<i64>>)
    ensures
        vec_view(r) == named_shape(Some(slots@), name@),
{
    let target = name.to_owned();
    let mut i: usize = 0;
    while i < slots.len()
        invariant
            i <= slots.len(),
            target@ == name@,
            forall|j: int| 0 <= j < i ==> (#[trigger] slots@[j]).name@ != name@,
        decreases slots.len() - i,
    {
        if slots[i].name == target {
            assert(first_named(slots@, name@, i as int));
            proof {
                let k = choose|k: int| first_named(slots@, name@, k);
                assert(k == i) by {
                    if k < i {
                        assert(slots@[k].name@ != name@);
                    } else if k > i {
                        assert(slots@[i as int].name@ != name@);
                    }
                }
            }
            return shape_at(slots, i);
        }
        i = i + 1;
    }
    assert(!exists|k: int| first_named(slots@, name@, k)) by {
        if exists|k: int| first_named(slots@, name@, k) {
            let k = choose|k: int| first_named(slots@, name@, k);
            assert(slots@[k].name@ != name@);
        }
    }
    None
}

fn all_slot_shapes(slots: &Vec<ValueInfoProto>) -> (r: Option<Vec<Vec<i64>>>)
    ensures
        shapes_view(r) == all_shapes(Some(slots@)),
{
    let len = slots.len();
    let mut res: Vec<Vec<i64>> = Vec::with_capacity(len);
    let mut i: usize = 0;
    while i < len
        invariant
            i <= len,
            len == slots@.len(),
            res@.len() == i,
            forall|j: int| 0 <= j < i ==> (#[trigger] info_shape(slots@[j])) is Some
                && res@[j]@ == info_dims(slots@[j]),
        decreases len - i,
    {
        match shape_at(slots, i) {
            Some(a) => res.push(a),
            None => {
                assert(info_shape(slots@[i as int]) is None);
                return None;
            },
        }
        i = i + 1;
    }
    assert(res@.map_values(|x: Vec<i64>| x@) =~= Seq::new(len as nat, |j: int| info_dims(slots@[j])));
    Some(res)
}

/// A decoded model, read through shape and metadata accessors.
pub struct OnnxHelper {
    model: ModelProto,
}

/// Name, shape and element type of one graph input.
#[derive(Clone, Debug, PartialEq)]
pub struct InputInfo {
    pub name: String,
    pub shape: Vec<i64>,
    pub elem_type: i32,
}

/// Name, shape and element type of one graph output.
#[derive(Clone, Debug, PartialEq)]
pub struct OutputInfo {
    pub name: String,
    pub shape: Vec<i64>,
    pub elem_type: i32,
}

/// The declared inputs of a model, or `None` when it has no graph.
pub open spec fn inputs_of(m: ModelProto) -> Option<Seq<ValueInfoProto>> {
    match m.graph {
        Some(g) => Some(g.input@),
        None => None,
    }
}

/// The declared outputs of a model, or `None` when it has no graph.
pub open spec fn outputs_of(m: ModelProto) -> Option<Seq<ValueInfoProto>> {
    match m.graph {
        Some(g) => Some(g.output@),
        None => None,
    }
}

/// Every slot resolves to a shape.
pub open spec fn all_resolve(s: Seq<ValueInfoProto>) -> bool {
    forall|i: int| 0 <= i < s.len() ==> (#[trigger] info_shape(s[i])) is Some
}

/// `name`, `shape` and `elem_type` are the slot `info`'s name and what it resolves to.
pub open spec fn record_of(info: ValueInfoProto, name: String, shape: Vec<i64>, elem_type: i32) -> bool {
    &&& name@ == info.name@
    &&& info_shape(info) == Some((shape@, elem_type))
}

/// `r` holds one record per slot exactly when all slots resolve, and is `None`
/// when the slots are absent.
pub open spec fn input_records(slots: Option<Seq<ValueInfoProto>>, r: Option<Vec<InputInfo>>) -> bool {
    match slots {
        None => r is None,
        Some(s) => {
            &&& (r is Some <==> all_resolve(s))
            &&& r matches Some(v) ==> {
                &&& v@.len() == s.len()
                &&& forall|i: int| 0 <= i < s.len() ==> record_of(s[i], #[trigger] v@[i].name, v@[i].shape, v@[i].elem_type)
            }
        },
    }
}

/// As `input_records`, for output records.
pub open spec fn output_records(slots: Option<Seq<ValueInfoProto>>, r: Option<Vec<OutputInfo>>) -> bool {
    match slots {
        None => r is None,
        Some(s) => {
            &&& (r is Some <==> all_resolve(s))
            &&& r matches Some(v) ==> {
                &&& v@.len() == s.len()
                &&& forall|i: int| 0 <= i < s.len() ==> record_of(s[i], #[trigger] v@[i].name, v@[i].shape, v@[i].elem_type)
            }
        },
    }
}

impl View for OnnxHelper {
    type V = ModelProto;

    closed spec fn view(&self) -> ModelProto {
        self.model
    }
}

impl OnnxHelper {
    /// Wraps a decoded model.
    pub fn new(model: ModelProto) -> (r: OnnxHelper)
        ensures
            r@ == model,
    {
        OnnxHelper { model }
    }

    pub fn model_version(&self) -> (r: i64)
        ensures
            r == self@.model_version,
    {
        self.model.model_version
    }

    /// The metadata entries, in the order they were declared.
    pub fn metadata_props(&self) -> (r: &[StringStringEntryProto])
        ensures
            r@ == self@.metadata_props@,
    {
        self.model.metadata_props.as_slice()
    }

    pub fn producer_name(&self) -> (r: &str)
        ensures
            r@ == self@.producer_name@,
    {
        self.model.producer_name.as_str()
    }

    pub fn producer_version(&self) -> (r: &str)
        ensures
            r@ == self@.producer_version@,
    {
        self.model.producer_version.as_str()
    }

    /// The imported operator sets, in the order they were declared.
    pub fn opset_import(&self) -> (r: &[OperatorSetIdProto])
        ensures
            r@ == self@.opset_import@,
    {
        self.model.opset_import.as_slice()
    }

    /// The shape of the first input named `name`.
    pub fn input_shape(&self, name: &str) -> (r: Option<Vec<i64>>)
        ensures
            vec_view(r) == named_shape(inputs_of(self@), name@),
    {
        match &self.model.graph {
            Some(g) => shape_named(&g.input, name),
            None => None,
        }
    }

    /// The shape of the input at position `idx`.
    pub fn input_shape_with_idx(&self, idx: usize) -> (r: Option<Vec<i64>>)
        ensures
            vec_view(r) == slot_shape(inputs_of(self@), idx as int),
    {
        match &self.model.graph {
            Some(g) => shape_at(&g.input, idx),
            None => None,
        }
    }

    /// The shapes of all inputs; `None` as a whole if any one does not resolve.
    pub fn input_shapes(&self) -> (r: Option<Vec<Vec<i64>>>)
        ensures
            shapes_view(r) == all_shapes(inputs_of(self@)),
    {
        match &self.model.graph {
            Some(g) => all_slot_shapes(&g.input),
            None => None,
        }
    }

    /// The shape of the first output named `name`.
    pub fn output_shape(&self, name: &str) -> (r: Option<Vec<i64>>)
        ensures
            vec_view(r) == named_shape(outputs_of(self@), name@),
    {
        match &self.model.graph {
            Some(g) => shape_named(&g.output, name),
            None => None,
        }
    }

    /// The shape of the output at position `idx`.
    pub fn output_shape_with_idx(&self, idx: usize) -> (r: Option<Vec<i64>>)
        ensures
            vec_view(r) == slot_shape(outputs_of(self@), idx as int),
    {
        match &self.model.graph {
            Some(g) => shape_at(&g.output, idx),
            None => None,
        }
    }

    /// The shapes of all outputs; `None` as a whole if any one does not resolve.
    pub fn output_shapes(&self) -> (r: Option<Vec<Vec<i64>>>)
        ensures
            shapes_view(r) == all_shapes(outputs_of(self@)),
    {
        match &self.model.graph {
            Some(g) => all_slot_shapes(&g.output),
            None => None,
        }
    }

    /// Name, shape and element type of every input; `None` as a whole if any
    /// one does not resolve.
    pub fn inputs(&self) -> (r: Option<Vec<InputInfo>>)
        ensures
            input_records(inputs_of(self@), r),
    {
        let g = match &self.model.graph {
            Some(g) => g,
            None => return None,
        };
        let mut res: Vec<InputInfo> = Vec::new();
        let mut i: usize = 0;
        while i < g.input.len()
            invariant
                i <= g.input@.len(),
                inputs_of(self@) == Some(g.input@),
                res@.len() == i,
                forall|j: int| 0 <= j < i ==> record_of(g.input@[j], #[trigger] res@[j].name, res@[j].shape, res@[j].elem_type),
            decreases g.input.len() - i,
        {
            let info = &g.input[i];
            match info_shape_of(info) {
                Some((shape, elem_type)) => {
                    res.push(InputInfo { name: info.name.clone(), shape, elem_type });
                },
                None => {
                    assert(info_shape(g.input@[i as int]) is None);
                    return None;
                },
            }
            i = i + 1;
        }
        assert(all_resolve(g.input@)) by {
            assert forall|j: int| 0 <= j < g.input@.len() implies (#[trigger] info_shape(g.input@[j])) is Some by {
                assert(record_of(g.input@[j], res@[j].name, res@[j].shape, res@[j].elem_type));
            }
        }
        Some(res)
    }

    /// Name, shape and element type of every output; `None` as a whole if any
    /// one does not resolve.
    pub fn outputs(&self) -> (r: Option<Vec<OutputInfo>>)
        ensures
            output_records(outputs_of(self@), r),
    {
        let g = match &self.model.graph {
            Some(g) => g,
            None => return None,
        };
        let mut res: Vec<OutputInfo> = Vec::new();
        let mut i: usize = 0;
        while i < g.output.len()
            invariant
                i <= g.output@.len(),
                outputs_of(self@) == Some(g.output@),
                res@.len() == i,
                forall|j: int| 0 <= j < i ==> record_of(g.output@[j], #[trigger] res@[j].name, res@[j].shape, res@[j].elem_type),
            decreases g.output.len() - i,
        {
            let info = &g.output[i];
            match info_shape_of(info) {
                Some((shape, elem_type)) => {
                    res.push(OutputInfo { name: info.name.clone(), shape, elem_type });
                },
                None => {
                    assert(info_shape(g.output@[i as int]) is None);
                    return None;
                },
            }
            i = i + 1;
        }
        assert(all_resolve(g.output@)) by {
            assert forall|j: int| 0 <= j < g.output@.len() implies (#[trigger] info_shape(g.output@[j])) is Some by {
                assert(record_of(g.output@[j], res@[j].name, res@[j].shape, res@[j].elem_type));
            }
        }
        Some(res)
    }
}

} // verus!
