use std::cell::Cell;

use fasttext_serving::embed::{embed_one, embed_one_safe, finish_embedding};
use fasttext_serving::payload::{embedding_payload, zero_vector};
use fasttext_serving::PredictError;

fn bits(values: &[f32]) -> Vec<u32> {
    values.iter().map(|v| v.to_bits()).collect()
}

/// A model of dimension four whose vector depends on the length of the text.
fn length_model(text: &String) -> Result<Vec<u32>, String> {
    Ok(bits(&[text.len() as f32, 1.0, -2.5, 0.0]))
}

fn failing_model(_text: &String) -> Result<Vec<u32>, String> {
    Err("no vector".to_string())
}

#[test]
fn vector_passes_through() {
    assert_eq!(embed_one_safe(&length_model, "hello\n", 100), Ok(bits(&[6.0, 1.0, -2.5, 0.0])));
}

#[test]
fn the_embedder_is_asked_with_the_normalized_text() {
    let seen = Cell::new(String::new());
    let model = |text: &String| -> Result<Vec<u32>, String> {
        seen.set(text.clone());
        length_model(text)
    };
    assert_eq!(embed_one_safe(&model, "hello", 100), Ok(bits(&[6.0, 1.0, -2.5, 0.0])));
    assert_eq!(seen.take(), "hello\n");
}

#[test]
fn empty_text_is_not_embedded() {
    assert_eq!(
        embed_one_safe(&length_model, "", 100),
        Err(PredictError::InputError("Empty text input".to_string()))
    );
}

#[test]
fn long_text_is_not_embedded() {
    assert_eq!(
        embed_one_safe(&length_model, "hello", 4),
        Err(PredictError::InputError("Text too long: 5 bytes".to_string()))
    );
}

#[test]
fn embedder_failure_keeps_its_detail() {
    assert_eq!(
        embed_one_safe(&failing_model, "hello", 100),
        Err(PredictError::ModelError("no vector".to_string()))
    );
    assert_eq!(
        finish_embedding(Err("x".to_string())),
        Err(PredictError::ModelError("x".to_string()))
    );
    assert_eq!(finish_embedding(Ok(vec![1, 2])), Ok(vec![1, 2]));
}

#[test]
fn embed_one_falls_back_to_zeros() {
    assert_eq!(embed_one(&length_model, "", 100, 3), vec![0u32, 0, 0]);
    assert_eq!(embed_one(&failing_model, "hello", 100, 2), vec![0u32, 0]);
    assert_eq!(embed_one(&length_model, "hello", 2, 0), Vec::<u32>::new());
}

#[test]
fn embed_one_hands_back_the_models_vector() {
    assert_eq!(embed_one(&length_model, "ab", 100, 7), bits(&[3.0, 1.0, -2.5, 0.0]));
}

#[test]
fn zero_vector_is_all_zero() {
    assert_eq!(zero_vector(0), Vec::<u32>::new());
    assert_eq!(zero_vector(1), vec![0u32]);
    let v = zero_vector(100);
    assert_eq!(v.len(), 100);
    assert!(v.iter().all(|bits| f32::from_bits(*bits) == 0.0 && *bits == 0));
}

#[test]
fn embedding_payload_of_either_result() {
    assert_eq!(embedding_payload(Ok(vec![5, 6, 7]), 2), vec![5, 6, 7]);
    assert_eq!(
        embedding_payload(Err(PredictError::ModelError("x".to_string())), 2),
        vec![0, 0]
    );
    assert_eq!(
        embedding_payload(Err(PredictError::InputError("x".to_string())), 1),
        vec![0]
    );
}
