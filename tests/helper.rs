use onnx_helper::onnx::{
    Dimension, DimensionValue, GraphProto, ModelProto, OperatorSetIdProto, SparseTensorTypeProto,
    StringStringEntryProto, TensorShapeProto, TensorTypeProto, TypeProto, TypeValue, ValueInfoProto,
};
use onnx_helper::{InputInfo, OnnxHelper, OutputInfo};

fn concrete(v: i64) -> Dimension {
    Dimension { value: Some(DimensionValue::DimValue(v)), denotation: String::new() }
}

fn symbolic(name: &str) -> Dimension {
    Dimension { value: Some(DimensionValue::DimParam(name.to_string())), denotation: String::new() }
}

fn unset() -> Dimension {
    Dimension { value: None, denotation: String::new() }
}

fn shape(dims: Vec<Dimension>) -> Option<TensorShapeProto> {
    Some(TensorShapeProto { dim: dims })
}

fn slot(name: &str, value: Option<TypeValue>) -> ValueInfoProto {
    ValueInfoProto {
        name: name.to_string(),
        ty: Some(TypeProto { value, denotation: String::new() }),
        doc_string: String::new(),
    }
}

fn dense(name: &str, elem_type: i32, dims: Vec<Dimension>) -> ValueInfoProto {
    slot(name, Some(TypeValue::TensorType(TensorTypeProto { elem_type, shape: shape(dims) })))
}

fn sparse(name: &str, elem_type: i32, dims: Vec<Dimension>) -> ValueInfoProto {
    slot(name, Some(TypeValue::SparseTensorType(SparseTensorTypeProto { elem_type, shape: shape(dims) })))
}

fn untyped(name: &str) -> ValueInfoProto {
    ValueInfoProto { name: name.to_string(), ty: None, doc_string: String::new() }
}

fn model(graph: Option<(Vec<ValueInfoProto>, Vec<ValueInfoProto>)>) -> ModelProto {
    ModelProto {
        ir_version: 8,
        producer_name: String::new(),
        producer_version: String::new(),
        domain: String::new(),
        model_version: 0,
        doc_string: String::new(),
        graph: graph.map(|(input, output)| GraphProto { name: "g".to_string(), input, output }),
        opset_import: vec![],
        metadata_props: vec![],
    }
}

fn helper(input: Vec<ValueInfoProto>, output: Vec<ValueInfoProto>) -> OnnxHelper {
    OnnxHelper::new(model(Some((input, output))))
}

#[test]
fn no_inputs_gives_empty_shape_list() {
    let h = helper(vec![], vec![dense("y", 1, vec![concrete(2)])]);
    assert_eq!(h.input_shapes(), Some(vec![]));
    assert_eq!(h.inputs(), Some(vec![]));
}

#[test]
fn missing_graph_gives_nothing() {
    let h = OnnxHelper::new(model(None));
    assert_eq!(h.input_shapes(), None);
    assert_eq!(h.output_shapes(), None);
    assert_eq!(h.input_shape_with_idx(0), None);
    assert_eq!(h.output_shape("y"), None);
    assert_eq!(h.inputs(), None);
    assert_eq!(h.outputs(), None);
}

#[test]
fn symbolic_dimension_becomes_minus_one() {
    let h = helper(vec![dense("x", 1, vec![concrete(7), symbolic("batch")])], vec![]);
    assert_eq!(h.input_shape_with_idx(0), Some(vec![7, -1]));
    assert_eq!(h.input_shape("x"), Some(vec![7, -1]));
}

#[test]
fn absent_output_type_fails_whole_batch() {
    let h = helper(vec![], vec![dense("a", 1, vec![concrete(2), concrete(3)]), untyped("b")]);
    assert_eq!(h.output_shape_with_idx(0), Some(vec![2, 3]));
    assert_eq!(h.output_shape_with_idx(1), None);
    assert_eq!(h.output_shape("b"), None);
    assert_eq!(h.output_shapes(), None);
    assert_eq!(h.outputs(), None);
}

#[test]
fn unknown_name_and_index_past_end() {
    let h = helper(
        vec![
            dense("a", 1, vec![concrete(1)]),
            dense("b", 1, vec![concrete(2)]),
            dense("c", 1, vec![concrete(3)]),
        ],
        vec![],
    );
    assert_eq!(h.input_shape("z"), None);
    assert_eq!(h.input_shape_with_idx(5), None);
    assert_eq!(h.input_shape_with_idx(3), None);
    assert_eq!(h.input_shape_with_idx(2), Some(vec![3]));
    assert_eq!(h.output_shape("a"), None);
}

#[test]
fn metadata_entries_keep_their_order() {
    let empty = OnnxHelper::new(model(None));
    assert!(empty.metadata_props().is_empty());
    let mut m = model(None);
    m.metadata_props = vec![
        StringStringEntryProto { key: "b".to_string(), value: "2".to_string() },
        StringStringEntryProto { key: "a".to_string(), value: "1".to_string() },
        StringStringEntryProto { key: "b".to_string(), value: "3".to_string() },
    ];
    let h = OnnxHelper::new(m);
    let keys: Vec<(&str, &str)> =
        h.metadata_props().iter().map(|e| (e.key.as_str(), e.value.as_str())).collect();
    assert_eq!(keys, vec![("b", "2"), ("a", "1"), ("b", "3")]);
}

#[test]
fn sparse_input_resolves_like_dense() {
    let h = helper(
        vec![dense("d", 1, vec![concrete(3), concrete(4)]), sparse("s", 1, vec![concrete(3), concrete(4)])],
        vec![],
    );
    assert_eq!(h.input_shape("s"), Some(vec![3, 4]));
    assert_eq!(h.input_shape("s"), h.input_shape("d"));
    let infos = h.inputs().unwrap();
    assert_eq!(infos[0].shape, infos[1].shape);
    assert_eq!(infos[0].elem_type, infos[1].elem_type);
}

#[test]
fn same_model_gives_same_answers() {
    let mut m = model(Some((
        vec![dense("x", 1, vec![concrete(1), symbolic("n")])],
        vec![sparse("y", 7, vec![concrete(5)])],
    )));
    m.producer_name = "tool".to_string();
    m.model_version = 3;
    let a = OnnxHelper::new(m.clone());
    let b = OnnxHelper::new(m);
    assert_eq!(a.input_shapes(), b.input_shapes());
    assert_eq!(a.output_shapes(), b.output_shapes());
    assert_eq!(a.inputs(), b.inputs());
    assert_eq!(a.outputs(), b.outputs());
    assert_eq!(a.producer_name(), b.producer_name());
    assert_eq!(a.model_version(), b.model_version());
}

#[test]
fn unset_dimension_fails_the_whole_shape() {
    let h = helper(vec![dense("x", 1, vec![concrete(2), unset(), symbolic("n")])], vec![]);
    assert_eq!(h.input_shape_with_idx(0), None);
    assert_eq!(h.input_shapes(), None);
}

#[test]
fn absent_shape_or_variant_gives_nothing() {
    let no_shape = slot("a", Some(TypeValue::TensorType(TensorTypeProto { elem_type: 1, shape: None })));
    let no_variant = slot("b", None);
    let sequence = slot("c", Some(TypeValue::SequenceType));
    let map = slot("d", Some(TypeValue::MapType));
    let h = helper(vec![no_shape, no_variant, sequence, map], vec![]);
    for i in 0..4 {
        assert_eq!(h.input_shape_with_idx(i), None);
    }
    assert_eq!(h.input_shapes(), None);
}

#[test]
fn first_slot_with_a_name_wins() {
    let h = helper(vec![], vec![dense("y", 1, vec![concrete(1)]), dense("y", 1, vec![concrete(2)])]);
    assert_eq!(h.output_shape("y"), Some(vec![1]));
}

#[test]
fn zero_and_negative_sizes_pass_through() {
    let h = helper(vec![dense("x", 1, vec![concrete(0), concrete(-5), symbolic("")])], vec![]);
    assert_eq!(h.input_shape("x"), Some(vec![0, -5, -1]));
}

#[test]
fn scalar_shape_is_empty() {
    let h = helper(vec![dense("x", 1, vec![])], vec![]);
    assert_eq!(h.input_shape_with_idx(0), Some(vec![]));
    assert_eq!(h.input_shapes(), Some(vec![vec![]]));
}

#[test]
fn records_carry_name_shape_and_type() {
    let h = helper(
        vec![dense("x", 1, vec![concrete(1), symbolic("n")]), sparse("s", 6, vec![concrete(9)])],
        vec![dense("y", 7, vec![concrete(4)])],
    );
    assert_eq!(
        h.inputs(),
        Some(vec![
            InputInfo { name: "x".to_string(), shape: vec![1, -1], elem_type: 1 },
            InputInfo { name: "s".to_string(), shape: vec![9], elem_type: 6 },
        ])
    );
    assert_eq!(h.outputs(), Some(vec![OutputInfo { name: "y".to_string(), shape: vec![4], elem_type: 7 }]));
    assert_eq!(h.input_shapes(), Some(vec![vec![1, -1], vec![9]]));
    assert_eq!(h.output_shapes(), Some(vec![vec![4]]));
}

#[test]
fn scalar_metadata_fields() {
    let mut m = model(None);
    m.model_version = 42;
    m.producer_name = "pytorch".to_string();
    m.producer_version = "2.1".to_string();
    m.opset_import = vec![
        OperatorSetIdProto { domain: String::new(), version: 17 },
        OperatorSetIdProto { domain: "ai.onnx.ml".to_string(), version: 3 },
    ];
    let h = OnnxHelper::new(m);
    assert_eq!(h.model_version(), 42);
    assert_eq!(h.producer_name(), "pytorch");
    assert_eq!(h.producer_version(), "2.1");
    assert_eq!(h.opset_import().len(), 2);
    assert_eq!(h.opset_import()[0].version, 17);
    assert_eq!(h.opset_import()[1].domain, "ai.onnx.ml");
    let plain = OnnxHelper::new(model(None));
    assert_eq!(plain.producer_name(), "");
    assert_eq!(plain.model_version(), 0);
}
