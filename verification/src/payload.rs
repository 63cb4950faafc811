//! What a caller receives for one item: the real result, or the payload that
//! stands for a failed item so that no item is ever dropped.

use vstd::prelude::*;
use vstd::string::StringExecFns;
use crate::error::{PredictError, PredictErrorView};

verus! {

/// The labels of one item, best first as the model ranked them, and beside
/// them their probabilities, each as the bits of a single-precision number.
pub type Prediction = (Vec<String>, Vec<u32>);

/// The result of classifying one item.
pub type Outcome = Result<Prediction, PredictError>;

/// The result of embedding one item: the components of its vector, each as
/// the bits of a single-precision number.
pub type EmbeddingOutcome = Result<Vec<u32>, PredictError>;

/// A [`Prediction`] as plain values.
pub type PredictionView = (Seq<Seq<char>>, Seq<u32>);

/// An [`Outcome`] as plain values.
pub type OutcomeView = Result<PredictionView, PredictErrorView>;

/// An [`EmbeddingOutcome`] as plain values.
pub type EmbeddingOutcomeView = Result<Seq<u32>, PredictErrorView>;

/// The transport that carries a response.  The two differ only in the label
/// that marks a failed classification.
#[derive(Clone, Copy, Debug, PartialEq, Eq)]
pub enum Transport {
    /// Request and response over HTTP.
    Http,
    /// The streaming RPC.
    Grpc,
}

/// The bits of the probability that a fallback label carries: zero.
pub const FALLBACK_PROB: u32 = 0;

/// The characters of each string of a sequence.
pub open spec fn texts_of(strings: Seq<String>) -> Seq<Seq<char>> {
    Seq::new(strings.len(), |i: int| strings[i]@)
}

/// The plain values of one classification payload.
pub open spec fn prediction_view(prediction: Prediction) -> PredictionView {
    (texts_of(prediction.0@), prediction.1@)
}

/// The plain values of the result of classifying one item.
pub open spec fn outcome_view(outcome: Outcome) -> OutcomeView {
    match outcome {
        Ok(prediction) => Ok(prediction_view(prediction)),
        Err(e) => Err(e@),
    }
}

/// The plain values of the result of embedding one item.
pub open spec fn embedding_outcome_view(outcome: EmbeddingOutcome) -> EmbeddingOutcomeView {
    match outcome {
        Ok(values) => Ok(values@),
        Err(e) => Err(e@),
    }
}

impl Transport {
    /// The label that marks a failed classification on this transport.
    pub open spec fn fallback_label_text(self) -> Seq<char> {
        match self {
            Transport::Http => "error"@,
            Transport::Grpc => "__label__error"@,
        }
    }

    /// The label that marks a failed classification on this transport.
    pub fn fallback_label(self) -> (label: String)
        ensures
            label@ == self.fallback_label_text(),
    {
        match self {
            Transport::Http => String::from_str("error"),
            Transport::Grpc => String::from_str("__label__error"),
        }
    }
}

/// The payload that stands for a failed classification: the transport's
/// fallback label alone, with probability zero.
pub open spec fn fallback_prediction(transport: Transport) -> PredictionView {
    (seq![transport.fallback_label_text()], seq![FALLBACK_PROB])
}

/// The payload that stands for a failed embedding: `dim` zeros.
pub open spec fn fallback_embedding(dim: nat) -> Seq<u32> {
    Seq::new(dim, |i: int| 0u32)
}

/// The payload of a classified item: its result where there is one, else the
/// fallback.
pub open spec fn prediction_payload_of(outcome: OutcomeView, transport: Transport) -> PredictionView {
    match outcome {
        Ok(prediction) => prediction,
        Err(_) => fallback_prediction(transport),
    }
}

/// The payload of an embedded item: its vector where there is one, else the
/// fallback.
pub open spec fn embedding_payload_of(outcome: EmbeddingOutcomeView, dim: nat) -> Seq<u32> {
    match outcome {
        Ok(values) => values,
        Err(_) => fallback_embedding(dim),
    }
}

/// Builds the all-zero vector of length `dim`.
pub fn zero_vector(dim: usize) -> (values: Vec<u32>)
    ensures
        values@ == fallback_embedding(dim as nat),
{
    let mut values: Vec<u32> = Vec::new();
    let mut i: usize = 0;
    while i < dim
        invariant
            i <= dim,
            values.len() == i,
            forall|j: int| 0 <= j < i ==> values[j] == 0u32,
        decreases dim - i,
    {
        values.push(0u32);
        i += 1;
    }
    assert(values@ =~= fallback_embedding(dim as nat));
    values
}

/// Maps the result of classifying one item to what the caller receives.
pub fn prediction_payload(outcome: Outcome, transport: Transport) -> (payload: Prediction)
    ensures
        prediction_view(payload) == prediction_payload_of(outcome_view(outcome), transport),
{
    match outcome {
        Ok(prediction) => prediction,
        Err(_) => {
            let mut labels: Vec<String> = Vec::new();
            labels.push(transport.fallback_label());
            let mut probs: Vec<u32> = Vec::new();
            probs.push(FALLBACK_PROB);
            assert(texts_of(labels@) =~= seq![transport.fallback_label_text()]);
            assert(probs@ =~= seq![FALLBACK_PROB]);
            (labels, probs)
        },
    }
}

/// Maps the result of embedding one item to what the caller receives.
pub fn embedding_payload(outcome: EmbeddingOutcome, fallback_dim: usize) -> (payload: Vec<u32>)
    ensures
        payload@ == embedding_payload_of(embedding_outcome_view(outcome), fallback_dim as nat),
{
    match outcome {
        Ok(values) => values,
        Err(_) => zero_vector(fallback_dim),
    }
}

} // verus!
