//! Embedding of one text: what is asked of the model and what becomes of its
//! answer.

use vstd::prelude::*;
use crate::error::{PredictError, PredictErrorView};
use crate::payload::{
    embedding_outcome_view, embedding_payload, embedding_payload_of, EmbeddingOutcome,
    EmbeddingOutcomeView,
};
use crate::text::{normalize_text, normalized, validate_text, validation_error};

verus! {

/// The model's answer to one embedding request: the components of the
/// vector, each as the bits of a single-precision number, or the detail of
/// its failure.
pub type EmbeddingReply = Result<Vec<u32>, String>;

/// An [`EmbeddingReply`] as plain values.
pub type EmbeddingReplyView = Result<Seq<u32>, Seq<char>>;

/// The plain values of a model's answer.
pub open spec fn embedding_reply_view(reply: EmbeddingReply) -> EmbeddingReplyView {
    match reply {
        Ok(values) => Ok(values@),
        Err(detail) => Err(detail@),
    }
}

/// True when `model` may be asked for the vector of any string that holds
/// `text`.
pub open spec fn embedder_accepts<E: Fn(&String) -> EmbeddingReply>(
    model: E,
    text: Seq<char>,
) -> bool {
    forall|t: &String| t@ == text ==> call_requires(model, (t,))
}

/// True when `reply` holds the plain values of an answer that `model` may
/// give when it is asked for the vector of `text`.
pub open spec fn embedder_answers<E: Fn(&String) -> EmbeddingReply>(
    model: E,
    text: Seq<char>,
    reply: EmbeddingReplyView,
) -> bool {
    exists|t: String, r: EmbeddingReply|
        t@ == text && call_ensures(model, (&t,), r) && embedding_reply_view(r) == reply
}

/// What becomes of the model's answer: the vector passes through as it is,
/// a failure becomes a model error that keeps the detail as it came.
pub open spec fn embedded(reply: EmbeddingReplyView) -> EmbeddingOutcomeView {
    match reply {
        Ok(values) => Ok(values),
        Err(detail) => Err(PredictErrorView::ModelError(detail)),
    }
}

/// The result for one text, given what the model answers where it is asked:
/// a refused text has the validator's error whatever the model would say.
pub open spec fn embedding_item_outcome(
    text: Seq<char>,
    max_text_length: nat,
    reply: EmbeddingReplyView,
) -> EmbeddingOutcomeView {
    match validation_error(text, max_text_length) {
        Some(e) => Err(e),
        None => embedded(reply),
    }
}

/// Turns the model's answer to one embedding request into the result for
/// the item.
pub fn finish_embedding(reply: EmbeddingReply) -> (r: EmbeddingOutcome)
    ensures
        embedding_outcome_view(r) == embedded(embedding_reply_view(reply)),
{
    match reply {
        Ok(values) => Ok(values),
        Err(detail) => Err(PredictError::ModelError(detail)),
    }
}

/// Embeds one text: the text is checked, normalised and handed to the
/// model; the model's answer is turned into the result.  A refused text
/// never reaches the model: the model need only accept the normalised form
/// of an accepted text, and nothing is asked of it for any other.
pub fn embed_one_safe<E: Fn(&String) -> EmbeddingReply>(
    model: &E,
    text: &str,
    max_text_length: usize,
) -> (r: EmbeddingOutcome)
    requires
        validation_error(text@, max_text_length as nat) is None ==> embedder_accepts(
            *model,
            normalized(text@),
        ),
    ensures
        validation_error(text@, max_text_length as nat) matches Some(e)
            ==> embedding_outcome_view(r) == Err::<Seq<u32>, PredictErrorView>(e),
        exists|reply: EmbeddingReplyView|
            {
                &&& validation_error(text@, max_text_length as nat) is None ==> embedder_answers(
                    *model,
                    normalized(text@),
                    reply,
                )
                &&& embedding_outcome_view(r) == #[trigger] embedding_item_outcome(
                    text@,
                    max_text_length as nat,
                    reply,
                )
            },
{
    match validate_text(text, max_text_length) {
        Err(e) => {
            assert(embedding_outcome_view(Err(e)) == embedding_item_outcome(
                text@,
                max_text_length as nat,
                Err(Seq::<char>::empty()),
            ));
            Err(e)
        },
        Ok(_) => {
            let asked = normalize_text(text);
            let reply = model(&asked);
            let ghost answer = embedding_reply_view(reply);
            let r = finish_embedding(reply);
            assert(embedding_outcome_view(r) == embedding_item_outcome(
                text@,
                max_text_length as nat,
                answer,
            ));
            r
        },
    }
}

/// Embeds one text and always hands back a vector: the model's, or
/// `fallback_dim` zeros where the text was refused or the model failed.
/// The model need only accept the normalised form of an accepted text.
pub fn embed_one<E: Fn(&String) -> EmbeddingReply>(
    model: &E,
    text: &str,
    max_text_length: usize,
    fallback_dim: usize,
) -> (payload: Vec<u32>)
    requires
        validation_error(text@, max_text_length as nat) is None ==> embedder_accepts(
            *model,
            normalized(text@),
        ),
    ensures
        exists|reply: EmbeddingReplyView|
            {
                &&& validation_error(text@, max_text_length as nat) is None ==> embedder_answers(
                    *model,
                    normalized(text@),
                    reply,
                )
                &&& payload@ == embedding_payload_of(
                    #[trigger] embedding_item_outcome(text@, max_text_length as nat, reply),
                    fallback_dim as nat,
                )
            },
{
    embedding_payload(embed_one_safe(model, text, max_text_length), fallback_dim)
}

} // verus!
