use churon::errors::ChurOnError;
use churon::marshal::DataConverter;
use churon::tensor::TensorInfo;

#[test]
fn test_data_converter_r_to_ndarray_i32() {
    let test_data = vec![1, 2, 3, 4, 5, 6];
    let shape = vec![3, 2];

    let result = DataConverter::r_to_ndarray_i32(test_data.clone(), &shape);
    assert!(result.is_ok());

    let array = result.unwrap();
    assert_eq!(DataConverter::shape_of_i32(&array), vec![3, 2]);

    let actual_data = DataConverter::ndarray_i32_to_r(array).unwrap();
    assert_eq!(actual_data, test_data);
}

#[test]
fn test_data_converter_r_to_ndarray_i64() {
    let test_data: Vec<i64> = vec![10, 20, 30, 40];
    let shape = vec![2, 2];

    let result = DataConverter::r_to_ndarray_i64(test_data.clone(), &shape);
    assert!(result.is_ok());

    let array = result.unwrap();
    assert_eq!(DataConverter::shape_of_i64(&array), vec![2, 2]);

    let expected_data: Vec<i32> = test_data.iter().map(|&x| x as i32).collect();
    let actual_data = DataConverter::ndarray_i64_to_r(array).unwrap();
    assert_eq!(actual_data, expected_data);
}

#[test]
fn test_data_converter_ndarray_i32_to_r() {
    let test_data = vec![1, 2, 3, 4];
    let array = DataConverter::r_to_ndarray_i32(test_data.clone(), &vec![2, 2]).unwrap();

    let result = DataConverter::ndarray_i32_to_r(array);
    assert!(result.is_ok());
    assert_eq!(result.unwrap(), test_data);
}

#[test]
fn test_data_converter_ndarray_i64_to_r() {
    let test_data: Vec<i64> = vec![10, 20, 30, 40];
    let array = DataConverter::r_to_ndarray_i64(test_data.clone(), &vec![2, 2]).unwrap();

    let result = DataConverter::ndarray_i64_to_r(array);
    assert!(result.is_ok());

    let expected_data: Vec<i32> = test_data.iter().map(|&x| x as i32).collect();
    assert_eq!(result.unwrap(), expected_data);
}

#[test]
fn test_r_to_ndarray_i32_shape_mismatch() {
    let test_data = vec![1, 2, 3, 4];
    let shape = vec![2, 3];

    let result = DataConverter::r_to_ndarray_i32(test_data, &shape);
    assert!(result.is_err());

    if let Err(ChurOnError::DataConversion(msg)) = result {
        assert_eq!(msg, "Data length 4 doesn't match shape (expected 6)");
    } else {
        panic!("Expected DataConversion error");
    }
}

#[test]
fn test_ndarray_i64_to_r_truncates() {
    let test_data: Vec<i64> = vec![2147483648, -1];
    let array = DataConverter::r_to_ndarray_i64(test_data, &vec![2]).unwrap();

    let narrowed = DataConverter::ndarray_i64_to_r(array).unwrap();
    assert_eq!(narrowed, vec![-2147483648, -1]);
}

#[test]
fn test_validate_input_data_success() {
    let data_shape: Vec<usize> = vec![2, 3, 4];
    let tensor_info = TensorInfo::new("test".to_string(), vec![2, 3, 4], "Float32".to_string());

    let result = DataConverter::validate_input_data(&data_shape, &tensor_info);
    assert!(result.is_ok());
}

#[test]
fn test_validate_input_data_dynamic_dimension() {
    let data_shape: Vec<usize> = vec![5, 3, 4];
    let tensor_info = TensorInfo::new("test".to_string(), vec![-1, 3, 4], "Float32".to_string());

    let result = DataConverter::validate_input_data(&data_shape, &tensor_info);
    assert!(result.is_ok());
}

#[test]
fn test_validate_input_data_dimension_mismatch() {
    let data_shape: Vec<usize> = vec![2, 3];
    let tensor_info = TensorInfo::new("test".to_string(), vec![2, 3, 4], "Float32".to_string());

    let result = DataConverter::validate_input_data(&data_shape, &tensor_info);
    assert!(result.is_err());

    if let Err(ChurOnError::Validation(msg)) = result {
        assert!(msg.contains("Shape dimension mismatch"));
    } else {
        panic!("Expected Validation error");
    }
}

#[test]
fn test_validate_input_data_size_mismatch() {
    let data_shape: Vec<usize> = vec![2, 5, 4];
    let tensor_info = TensorInfo::new("test".to_string(), vec![2, 3, 4], "Float32".to_string());

    let result = DataConverter::validate_input_data(&data_shape, &tensor_info);
    assert!(result.is_err());

    if let Err(ChurOnError::Validation(msg)) = result {
        assert!(msg.contains("Shape mismatch at dimension"));
        assert_eq!(msg, "Shape mismatch at dimension 1: got 5, expected 3");
    } else {
        panic!("Expected Validation error");
    }
}
