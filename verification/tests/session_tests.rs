use churon::errors::ChurOnError;
use churon::run::InputBag;
use churon::session::RSession;
use churon::tensor::TensorValue;

fn bits_of(values: &[f64]) -> Vec<u64> {
    values.iter().map(|v| v.to_bits()).collect()
}

fn two_input_session() -> RSession {
    RSession::from_metadata(
        "model.onnx".to_string(),
        vec!["x".to_string(), "y".to_string()],
        vec![vec![2, 3], vec![3]],
        vec!["Float32".to_string(), "String".to_string()],
        vec!["out".to_string()],
        vec![vec![-1, 2]],
        vec!["Float32".to_string()],
        vec!["CPU".to_string()],
    )
}

#[test]
fn test_session_getters() {
    let session = two_input_session();
    assert_eq!(session.get_model_path(), "model.onnx");
    assert_eq!(session.get_providers(), vec!["CPU".to_string()]);
}

#[test]
fn test_get_input_info_narrows_shapes() {
    let session = two_input_session();
    let infos = session.get_input_info();
    assert_eq!(infos.len(), 2);
    assert_eq!(infos[0].get_name(), "x");
    assert_eq!(infos[0].get_shape(), vec![2, 3]);
    assert_eq!(infos[0].get_data_type(), "Float32");
    assert_eq!(infos[1].get_name(), "y");
    assert_eq!(infos[1].get_shape(), vec![3]);
    assert_eq!(infos[1].get_data_type(), "String");
}

#[test]
fn test_get_output_info_keeps_dynamic_sentinel() {
    let session = two_input_session();
    let infos = session.get_output_info();
    assert_eq!(infos.len(), 1);
    assert_eq!(infos[0].get_name(), "out");
    assert_eq!(infos[0].get_shape(), vec![-1, 2]);
}

#[test]
fn test_validate_session_rejects_empty_metadata() {
    let mut session = two_input_session();
    session.input_names = Vec::new();
    match session.validate_session() {
        Err(ChurOnError::Validation(msg)) => {
            assert_eq!(msg, "Session has no input tensors defined");
        },
        _ => panic!("Expected Validation error"),
    }

    let mut session = two_input_session();
    session.output_names = Vec::new();
    match session.validate_session() {
        Err(ChurOnError::Validation(msg)) => {
            assert_eq!(msg, "Session has no output tensors defined");
        },
        _ => panic!("Expected Validation error"),
    }

    let mut session = two_input_session();
    session.model_path = String::new();
    match session.validate_session() {
        Err(ChurOnError::Validation(msg)) => {
            assert_eq!(msg, "Session has no model path defined");
        },
        _ => panic!("Expected Validation error"),
    }
}

#[test]
fn test_run_with_missing_required_input_fails() {
    let session = two_input_session();
    let bag = InputBag {
        names: vec!["x".to_string()],
        values: vec![TensorValue::Numeric { shape: vec![2, 3], bits: bits_of(&[1.0; 6]) }],
    };
    match session.plan_run(&bag) {
        Err(ChurOnError::Validation(msg)) => {
            assert_eq!(msg, "Required input 'y' not provided");
        },
        _ => panic!("Expected Validation error"),
    }
}

#[test]
fn test_run_with_unexpected_input_fails() {
    let session = two_input_session();
    let bag = InputBag {
        names: vec!["x".to_string(), "y".to_string(), "z".to_string()],
        values: vec![
            TensorValue::Numeric { shape: vec![2, 3], bits: bits_of(&[1.0; 6]) },
            TensorValue::Text { values: vec!["a".to_string()] },
            TensorValue::Text { values: vec!["b".to_string()] },
        ],
    };
    match session.plan_run(&bag) {
        Err(ChurOnError::Validation(msg)) => {
            assert_eq!(msg, "Unexpected input 'z' provided");
        },
        _ => panic!("Expected Validation error"),
    }
}

#[test]
fn test_run_with_unnamed_bag_fails() {
    let session = two_input_session();
    let bag = InputBag {
        names: Vec::new(),
        values: vec![TensorValue::Numeric { shape: vec![2, 3], bits: bits_of(&[1.0; 6]) }],
    };
    match session.plan_run(&bag) {
        Err(ChurOnError::Validation(msg)) => {
            assert_eq!(msg, "Input data must be a named list");
        },
        _ => panic!("Expected Validation error"),
    }
}

#[test]
fn test_run_with_empty_bag_fails() {
    let session = two_input_session();
    let bag = InputBag { names: Vec::new(), values: Vec::new() };
    match session.plan_run(&bag) {
        Err(ChurOnError::Validation(msg)) => {
            assert_eq!(msg, "No input data provided");
        },
        _ => panic!("Expected Validation error"),
    }
}
