use fasttext_serving::error::PredictError;

#[test]
fn input_error_reads_with_its_kind() {
    let e = PredictError::InputError("Empty text input".to_string());
    assert_eq!(e.to_string(), "Input error: Empty text input");
    assert!(e.is_input_error());
    assert_eq!(e.message(), "Empty text input");
}

#[test]
fn model_error_reads_with_its_kind() {
    let e = PredictError::ModelError("Prediction failed: boom".to_string());
    assert_eq!(e.to_string(), "Model error: Prediction failed: boom");
    assert!(!e.is_input_error());
    assert_eq!(e.message(), "Prediction failed: boom");
}

#[test]
fn error_with_an_empty_message() {
    assert_eq!(PredictError::ModelError(String::new()).to_string(), "Model error: ");
    assert_eq!(PredictError::InputError(String::new()).to_string(), "Input error: ");
}
