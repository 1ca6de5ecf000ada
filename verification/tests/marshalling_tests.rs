use churon::errors::ChurOnError;
use churon::run::InputBag;
use churon::session::RSession;
use churon::tensor::{encode_input, EncodedTensor, FetchedTensor, TensorValue};

fn bits_of(values: &[f64]) -> Vec<u64> {
    values.iter().map(|v| v.to_bits()).collect()
}

fn floats_of(bits: &[u64]) -> Vec<f64> {
    bits.iter().map(|b| f64::from_bits(*b)).collect()
}

fn two_input_session() -> RSession {
    RSession::from_metadata(
        "model.onnx".to_string(),
        vec!["x".to_string(), "y".to_string()],
        vec![vec![2, 3], vec![3]],
        vec!["Float32".to_string(), "String".to_string()],
        vec!["out".to_string()],
        vec![vec![-1, 2]],
        vec!["Float32".to_string()],
        vec!["CPU".to_string()],
    )
}

#[test]
fn test_encode_decode_round_trip_preserves_shape_and_values() {
    let data = [1.5, -2.25, 3.0, 4.5, 0.0, 6.125];
    let value = TensorValue::Numeric { shape: vec![2, 3], bits: bits_of(&data) };
    let declared: Vec<i64> = vec![-1, 3];

    let encoded = encode_input(&declared, &value).unwrap();
    let (enc_shape, enc_bits) = match encoded {
        EncodedTensor::Numeric { shape, bits } => (shape, bits),
        _ => panic!("Expected a numeric tensor"),
    };
    assert_eq!(enc_shape, vec![2, 3]);

    let session = RSession::from_metadata(
        "model.onnx".to_string(),
        vec!["x".to_string()],
        vec![vec![2, 3]],
        vec!["Float32".to_string()],
        vec!["out".to_string()],
        vec![vec![2, 3]],
        vec!["Float32".to_string()],
        vec!["CPU".to_string()],
    );
    let results = vec![(
        "out".to_string(),
        FetchedTensor::Numeric { shape: enc_shape.clone(), bits: enc_bits.clone() },
    )];
    let outputs = session.collect_outputs(&results).unwrap();
    assert_eq!(outputs.len(), 1);
    assert_eq!(outputs[0].0, "out");
    match &outputs[0].1 {
        TensorValue::Numeric { shape, bits } => {
            assert_eq!(*shape, vec![2, 3]);
            assert_eq!(floats_of(bits), data.to_vec());
        },
        _ => panic!("Expected a numeric value"),
    }
}

#[test]
fn test_encode_uses_declared_static_shape() {
    let value = TensorValue::Numeric { shape: vec![6], bits: bits_of(&[1.0; 6]) };
    let declared: Vec<i64> = vec![2, 3];

    match encode_input(&declared, &value).unwrap() {
        EncodedTensor::Numeric { shape, .. } => assert_eq!(shape, vec![2, 3]),
        _ => panic!("Expected a numeric tensor"),
    }
}

#[test]
fn test_encode_uses_caller_shape_when_declared_dynamic() {
    let value = TensorValue::Numeric { shape: vec![3, 2], bits: bits_of(&[1.0; 6]) };
    let declared: Vec<i64> = vec![-1, 2];

    match encode_input(&declared, &value).unwrap() {
        EncodedTensor::Numeric { shape, .. } => assert_eq!(shape, vec![3, 2]),
        _ => panic!("Expected a numeric tensor"),
    }
}

#[test]
fn test_encode_count_mismatch_fails() {
    let value = TensorValue::Numeric { shape: vec![4], bits: bits_of(&[1.0; 4]) };
    let declared: Vec<i64> = vec![2, 3];

    match encode_input(&declared, &value) {
        Err(ChurOnError::DataConversion(msg)) => {
            assert_eq!(msg, "Data length 4 doesn't match shape (expected 6)");
        },
        _ => panic!("Expected DataConversion error"),
    }
}

#[test]
fn test_encode_text_gets_count_shape() {
    let value = TensorValue::Text {
        values: vec!["a".to_string(), "b".to_string(), "c".to_string()],
    };
    let declared: Vec<i64> = vec![3];

    match encode_input(&declared, &value).unwrap() {
        EncodedTensor::Text { shape, values } => {
            assert_eq!(shape, vec![3]);
            assert_eq!(values, vec!["a".to_string(), "b".to_string(), "c".to_string()]);
        },
        _ => panic!("Expected a text tensor"),
    }
}

#[test]
fn test_end_to_end_plan_and_collect() {
    let session = two_input_session();
    let bag = InputBag {
        names: vec!["x".to_string(), "y".to_string()],
        values: vec![
            TensorValue::Numeric {
                shape: vec![2, 3],
                bits: bits_of(&[1.0, 2.0, 3.0, 4.0, 5.0, 6.0]),
            },
            TensorValue::Text {
                values: vec!["a".to_string(), "b".to_string(), "c".to_string()],
            },
        ],
    };

    let plan = session.plan_run(&bag).unwrap();
    assert_eq!(plan.len(), 2);
    assert_eq!(plan[0].0, "x");
    assert_eq!(plan[1].0, "y");
    match &plan[0].1 {
        EncodedTensor::Numeric { shape, .. } => assert_eq!(*shape, vec![2, 3]),
        _ => panic!("Expected a numeric tensor for x"),
    }
    match &plan[1].1 {
        EncodedTensor::Text { shape, .. } => assert_eq!(*shape, vec![3]),
        _ => panic!("Expected a text tensor for y"),
    }

    let engine_reported_shape = vec![4, 2];
    let results = vec![(
        "out".to_string(),
        FetchedTensor::Numeric { shape: engine_reported_shape.clone(), bits: bits_of(&[0.5; 8]) },
    )];
    let outputs = session.collect_outputs(&results).unwrap();
    assert_eq!(outputs.len(), 1);
    assert_eq!(outputs[0].0, "out");
    match &outputs[0].1 {
        TensorValue::Numeric { shape, bits } => {
            assert_eq!(*shape, engine_reported_shape);
            assert_eq!(bits.len(), 8);
        },
        _ => panic!("Expected a numeric value"),
    }
}

#[test]
fn test_collect_outputs_unsupported_type_fails() {
    let session = two_input_session();
    let results = vec![("out".to_string(), FetchedTensor::Unsupported)];
    match session.collect_outputs(&results) {
        Err(ChurOnError::DataConversion(msg)) => {
            assert_eq!(msg, "Unsupported output data type for 'out'");
        },
        _ => panic!("Expected DataConversion error"),
    }
}

#[test]
fn test_collect_outputs_missing_output_fails() {
    let session = two_input_session();
    let results = vec![(
        "something_else".to_string(),
        FetchedTensor::Numeric { shape: vec![1], bits: bits_of(&[1.0]) },
    )];
    match session.collect_outputs(&results) {
        Err(ChurOnError::Inference(msg)) => {
            assert_eq!(msg, "Output 'out' not found in inference results");
        },
        _ => panic!("Expected Inference error"),
    }
}

#[test]
fn test_collect_outputs_follows_declared_order() {
    let mut session = two_input_session();
    session.output_names = vec!["first".to_string(), "second".to_string()];
    session.output_shapes = vec![vec![1], vec![1]];
    session.output_types = vec!["Float32".to_string(), "Float32".to_string()];

    let results = vec![
        ("second".to_string(), FetchedTensor::Numeric { shape: vec![1], bits: bits_of(&[2.0]) }),
        ("first".to_string(), FetchedTensor::Numeric { shape: vec![1], bits: bits_of(&[1.0]) }),
    ];
    let outputs = session.collect_outputs(&results).unwrap();
    assert_eq!(outputs.len(), 2);
    assert_eq!(outputs[0].0, "first");
    assert_eq!(outputs[1].0, "second");
    match &outputs[0].1 {
        TensorValue::Numeric { bits, .. } => assert_eq!(floats_of(bits), vec![1.0]),
        _ => panic!("Expected a numeric value"),
    }
}

#[test]
fn test_plan_run_unknown_shape_entry_mismatch() {
    let session = two_input_session();
    let bag = InputBag {
        names: vec!["x".to_string(), "y".to_string()],
        values: vec![
            TensorValue::Numeric { shape: vec![5], bits: bits_of(&[1.0; 5]) },
            TensorValue::Text { values: vec!["a".to_string()] },
        ],
    };
    match session.plan_run(&bag) {
        Err(ChurOnError::DataConversion(msg)) => {
            assert_eq!(msg, "Data length 5 doesn't match shape (expected 6)");
        },
        _ => panic!("Expected DataConversion error"),
    }
}
