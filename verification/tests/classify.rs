use std::cell::Cell;

use fasttext_serving::classify::{
    coerce_k, finish_prediction, prepare_query, Query, RawPrediction,
};
use fasttext_serving::{predict_one, predict_one_safe, PredictError};

fn raw(label: &str, prob: f32) -> RawPrediction {
    RawPrediction { label: label.to_string(), prob: prob.to_bits() }
}

/// A model of three labels that honours the label count and the threshold.
fn sports_model(query: &Query) -> Result<Vec<RawPrediction>, String> {
    let all = vec![
        raw("__label__sports", 0.5),
        raw("__label__news", 0.25),
        raw("__label__weather", 0.125),
    ];
    let threshold = f32::from_bits(query.threshold);
    Ok(all
        .into_iter()
        .filter(|p| f32::from_bits(p.prob) >= threshold)
        .take(query.k as usize)
        .collect())
}

fn failing_model(_query: &Query) -> Result<Vec<RawPrediction>, String> {
    Err("boom".to_string())
}

#[test]
fn empty_text_is_an_input_error() {
    let r = predict_one_safe(&sports_model, "", 1, 0, 100);
    assert_eq!(r, Err(PredictError::InputError("Empty text input".to_string())));
}

#[test]
fn long_text_is_an_input_error_with_its_byte_count() {
    let r = predict_one_safe(&sports_model, "hello world", 1, 0, 10);
    assert_eq!(r, Err(PredictError::InputError("Text too long: 11 bytes".to_string())));
}

#[test]
fn labels_lose_their_prefix_and_probabilities_pass_through() {
    let r = predict_one_safe(&sports_model, "hello", 2, 0, 100);
    assert_eq!(
        r,
        Ok((
            vec!["sports".to_string(), "news".to_string()],
            vec![0.5f32.to_bits(), 0.25f32.to_bits()]
        ))
    );
}

#[test]
fn the_models_order_is_kept() {
    let unsorted = |_q: &Query| -> Result<Vec<RawPrediction>, String> {
        Ok(vec![raw("__label__low", 0.1), raw("__label__high", 0.9), raw("__label__mid", 0.5)])
    };
    let (labels, probs) = predict_one_safe(&unsorted, "text", 3, 0, 100).unwrap();
    assert_eq!(labels, vec!["low", "high", "mid"]);
    assert_eq!(probs, vec![0.1f32.to_bits(), 0.9f32.to_bits(), 0.5f32.to_bits()]);
}

#[test]
fn label_count_of_zero_is_asked_as_one() {
    let seen = Cell::new(None);
    let model = |q: &Query| -> Result<Vec<RawPrediction>, String> {
        seen.set(Some(q.k));
        sports_model(q)
    };
    let r = predict_one_safe(&model, "hello", 0, 0, 100);
    assert_eq!(seen.get(), Some(1));
    assert_eq!(r, Ok((vec!["sports".to_string()], vec![0.5f32.to_bits()])));
}

#[test]
fn coerce_k_leaves_positive_counts() {
    assert_eq!(coerce_k(0), 1);
    assert_eq!(coerce_k(1), 1);
    assert_eq!(coerce_k(5), 5);
    assert_eq!(coerce_k(u32::MAX), u32::MAX);
}

#[test]
fn the_model_is_asked_with_the_normalized_text() {
    let echo = |q: &Query| -> Result<Vec<RawPrediction>, String> {
        Ok(vec![RawPrediction { label: q.text.clone(), prob: q.threshold }])
    };
    let threshold = 0.3f32.to_bits();
    assert_eq!(
        predict_one_safe(&echo, "hello", 1, threshold, 100),
        Ok((vec!["hello\n".to_string()], vec![threshold]))
    );
    assert_eq!(
        predict_one_safe(&echo, "hello\n", 1, threshold, 100),
        Ok((vec!["hello\n".to_string()], vec![threshold]))
    );
}

#[test]
fn the_limit_is_held_against_the_text_as_it_came() {
    // Five bytes pass a limit of five although the model is handed six.
    let echo = |q: &Query| -> Result<Vec<RawPrediction>, String> {
        Ok(vec![RawPrediction { label: q.text.clone(), prob: 0 }])
    };
    assert_eq!(
        predict_one_safe(&echo, "hello", 1, 0, 5),
        Ok((vec!["hello\n".to_string()], vec![0]))
    );
}

#[test]
fn the_threshold_reaches_the_model() {
    let r = predict_one_safe(&sports_model, "hello", 3, 0.2f32.to_bits(), 100);
    assert_eq!(
        r,
        Ok((
            vec!["sports".to_string(), "news".to_string()],
            vec![0.5f32.to_bits(), 0.25f32.to_bits()]
        ))
    );
}

#[test]
fn a_refused_text_never_reaches_the_model() {
    let calls = Cell::new(0u32);
    let model = |q: &Query| -> Result<Vec<RawPrediction>, String> {
        calls.set(calls.get() + 1);
        sports_model(q)
    };
    assert!(predict_one_safe(&model, "", 1, 0, 100).is_err());
    assert!(predict_one_safe(&model, "too long", 1, 0, 3).is_err());
    assert_eq!(calls.get(), 0);
    assert!(predict_one_safe(&model, "fine", 1, 0, 100).is_ok());
    assert_eq!(calls.get(), 1);
}

#[test]
fn model_failure_is_wrapped_with_its_detail() {
    let r = predict_one_safe(&failing_model, "hello", 1, 0, 100);
    assert_eq!(r, Err(PredictError::ModelError("Prediction failed: boom".to_string())));
    assert_eq!(r.unwrap_err().to_string(), "Model error: Prediction failed: boom");
}

#[test]
fn finish_prediction_of_an_empty_answer() {
    assert_eq!(finish_prediction(Ok(vec![])), Ok((vec![], vec![])));
    assert_eq!(
        finish_prediction(Err(String::new())),
        Err(PredictError::ModelError("Prediction failed: ".to_string()))
    );
}

#[test]
fn predict_one_falls_back_to_error_label() {
    assert_eq!(predict_one(&sports_model, "", 1, 0, 100), (vec!["error".to_string()], vec![0u32]));
    assert_eq!(
        predict_one(&sports_model, "hello world", 1, 0, 5),
        (vec!["error".to_string()], vec![0u32])
    );
    assert_eq!(
        predict_one(&failing_model, "hello", 1, 0, 100),
        (vec!["error".to_string()], vec![0u32])
    );
}

#[test]
fn predict_one_hands_back_the_real_result() {
    assert_eq!(
        predict_one(&sports_model, "hello", 1, 0, 100),
        (vec!["sports".to_string()], vec![0.5f32.to_bits()])
    );
}

#[test]
fn the_fallback_probability_is_zero() {
    let (_, probs) = predict_one(&failing_model, "hello", 1, 0, 100);
    assert_eq!(f32::from_bits(probs[0]), 0.0);
}

#[test]
fn prepared_query_holds_what_the_model_is_asked() {
    assert_eq!(
        prepare_query("hello", 0, 5, 100),
        Ok(Query { text: "hello\n".to_string(), k: 1, threshold: 5 })
    );
    assert_eq!(
        prepare_query("hello\n", 3, 0, 6),
        Ok(Query { text: "hello\n".to_string(), k: 3, threshold: 0 })
    );
}

#[test]
fn refused_text_has_no_query() {
    assert_eq!(
        prepare_query("", 1, 0, 100),
        Err(PredictError::InputError("Empty text input".to_string()))
    );
    assert_eq!(
        prepare_query("hello\n", 1, 0, 5),
        Err(PredictError::InputError("Text too long: 6 bytes".to_string()))
    );
}

#[test]
fn a_doubled_prefix_loses_one_and_an_inner_prefix_stays() {
    let model = |_q: &Query| -> Result<Vec<RawPrediction>, String> {
        Ok(vec![raw("__label____label__x", 0.5), raw("a__label__b", 0.25)])
    };
    assert_eq!(
        predict_one_safe(&model, "hi", 2, 0.0f32.to_bits(), 100),
        Ok((
            vec!["__label__x".to_string(), "a__label__b".to_string()],
            vec![0.5f32.to_bits(), 0.25f32.to_bits()]
        ))
    );
}
