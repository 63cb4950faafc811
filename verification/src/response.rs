//! The response to a whole batch: one payload for each item, in the order
//! of the request, with the counters of the batch.

use vstd::prelude::*;
use crate::batch::{
    batch_outcomes, embed_batch, embedder_accepts_batch, embedder_answers_batch,
    embedding_batch_outcomes, embedding_outcome_views, embedding_payloads, item_views,
    model_accepts_batch, model_answers_batch, outcome_views, predict_batch, prediction_payloads,
    prediction_views, text_views, vector_views, PredictionItem, PredictionItemView,
};
use crate::classify::{Query, Reply, ReplyView};
use crate::config::ServerConfig;
use crate::embed::{EmbeddingReply, EmbeddingReplyView};
use crate::payload::{
    embedding_outcome_view, embedding_payload, embedding_payload_of, outcome_view,
    prediction_payload, prediction_payload_of, prediction_view, EmbeddingOutcome, Outcome,
    Prediction, PredictionView, Transport,
};
use crate::summary::{lemma_failure_count_by_place, summarize, summary_of, BatchSummary};

verus! {

/// The payloads with which a batch of texts to classify is answered, given
/// the model's answers: for each item, at its place, the payload of its
/// result.
pub open spec fn prediction_response(
    items: Seq<PredictionItemView>,
    replies: Seq<ReplyView>,
    config: ServerConfig,
    transport: Transport,
) -> Seq<PredictionView> {
    prediction_payloads(batch_outcomes(items, replies, config), transport)
}

/// The vectors with which a batch of texts to embed is answered, given the
/// model's answers: for each text, at its place, the payload of its result.
pub open spec fn embedding_response(
    texts: Seq<Seq<char>>,
    replies: Seq<EmbeddingReplyView>,
    config: ServerConfig,
) -> Seq<Seq<u32>> {
    embedding_payloads(
        embedding_batch_outcomes(texts, replies, config),
        config.default_vector_dim as nat,
    )
}

/// Maps the classification results of a batch to what the caller receives:
/// a payload for every result, at its place.
pub fn assemble_predictions(outcomes: Vec<Outcome>, transport: Transport) -> (payloads: Vec<
    Prediction,
>)
    ensures
        payloads.len() == outcomes.len(),
        prediction_views(payloads@) == prediction_payloads(outcome_views(outcomes@), transport),
{
    let ghost all = outcomes@;
    let mut payloads: Vec<Prediction> = Vec::with_capacity(outcomes.len());
    for outcome in it: outcomes.into_iter()
        invariant
            it.seq() == all,
            payloads.len() == it.index(),
            forall|j: int|
                0 <= j < it.index() ==> prediction_view(#[trigger] payloads[j])
                    == prediction_payload_of(outcome_view(all[j]), transport),
    {
        payloads.push(prediction_payload(outcome, transport));
    }
    assert(prediction_views(payloads@) =~= prediction_payloads(outcome_views(all), transport));
    payloads
}

/// Maps the embedding results of a batch to what the caller receives: a
/// vector for every result, at its place; `fallback_dim` zeros for a
/// failure.
pub fn assemble_embeddings(outcomes: Vec<EmbeddingOutcome>, fallback_dim: usize) -> (payloads: Vec<
    Vec<u32>,
>)
    ensures
        payloads.len() == outcomes.len(),
        vector_views(payloads@) == embedding_payloads(
            embedding_outcome_views(outcomes@),
            fallback_dim as nat,
        ),
{
    let ghost all = outcomes@;
    let mut payloads: Vec<Vec<u32>> = Vec::with_capacity(outcomes.len());
    for outcome in it: outcomes.into_iter()
        invariant
            it.seq() == all,
            payloads.len() == it.index(),
            forall|j: int|
                0 <= j < it.index() ==> (#[trigger] payloads[j])@ == embedding_payload_of(
                    embedding_outcome_view(all[j]),
                    fallback_dim as nat,
                ),
    {
        payloads.push(embedding_payload(outcome, fallback_dim));
    }
    assert(vector_views(payloads@) =~= embedding_payloads(
        embedding_outcome_views(all),
        fallback_dim as nat,
    ));
    payloads
}

/// Answers a batch of texts to classify.  The response has one payload for
/// each item, in the order of the request: the labels and probabilities of
/// an item that went well, the transport's fallback for one that was refused
/// or on which the model failed.  The call itself never fails, and an empty
/// batch has an empty response.  The model need only accept the queries of
/// the accepted items.  The errors of the failed items are counted here and
/// not handed out: a caller that wants each failure's detail calls
/// [`predict_batch`], [`summarize`] and [`assemble_predictions`] in turn.
pub fn process_predictions<M: Fn(&Query) -> Reply>(
    model: &M,
    items: &Vec<PredictionItem>,
    config: &ServerConfig,
    transport: Transport,
) -> (response: (Vec<Prediction>, BatchSummary))
    requires
        model_accepts_batch(*model, item_views(items@), *config),
    ensures
        response.0.len() == items.len(),
        exists|replies: Seq<ReplyView>|
            {
                &&& model_answers_batch(*model, item_views(items@), replies, *config)
                &&& prediction_views(response.0@) == #[trigger] prediction_response(
                    item_views(items@),
                    replies,
                    *config,
                    transport,
                )
                &&& response.1@ == summary_of(batch_outcomes(item_views(items@), replies, *config))
            },
{
    let outcomes = predict_batch(model, items, config);
    let summary = summarize(&outcomes);
    let ghost replies = choose|replies: Seq<ReplyView>|
        {
            &&& model_answers_batch(*model, item_views(items@), replies, *config)
            &&& outcome_views(outcomes@) == #[trigger] batch_outcomes(
                item_views(items@),
                replies,
                *config,
            )
        };
    proof {
        lemma_failure_count_by_place(outcomes@, outcome_views(outcomes@));
    }
    let payloads = assemble_predictions(outcomes, transport);
    assert(prediction_views(payloads@) == prediction_response(
        item_views(items@),
        replies,
        *config,
        transport,
    ));
    (payloads, summary)
}

/// Answers a batch of texts to embed.  The response has one vector for each
/// text, in the order of the request: the model's for a text that went well,
/// as many zeros as the configuration's fallback dimension for one that was
/// refused or on which the model failed.  The model need only accept the
/// accepted texts, in their normalised form.  The errors of the failed texts
/// are counted here and not handed out: a caller that wants each failure's
/// detail calls [`embed_batch`], [`summarize`] and [`assemble_embeddings`]
/// in turn.
pub fn process_embeddings<E: Fn(&String) -> EmbeddingReply>(
    model: &E,
    texts: &Vec<String>,
    config: &ServerConfig,
) -> (response: (Vec<Vec<u32>>, BatchSummary))
    requires
        embedder_accepts_batch(*model, text_views(texts@), *config),
    ensures
        response.0.len() == texts.len(),
        exists|replies: Seq<EmbeddingReplyView>|
            {
                &&& embedder_answers_batch(*model, text_views(texts@), replies, *config)
                &&& vector_views(response.0@) == #[trigger] embedding_response(
                    text_views(texts@),
                    replies,
                    *config,
                )
                &&& response.1@ == summary_of(
                    embedding_batch_outcomes(text_views(texts@), replies, *config),
                )
            },
{
    let outcomes = embed_batch(model, texts, config);
    let summary = summarize(&outcomes);
    let ghost replies = choose|replies: Seq<EmbeddingReplyView>|
        {
            &&& embedder_answers_batch(*model, text_views(texts@), replies, *config)
            &&& embedding_outcome_views(outcomes@) == #[trigger] embedding_batch_outcomes(
                text_views(texts@),
                replies,
                *config,
            )
        };
    proof {
        lemma_failure_count_by_place(outcomes@, embedding_outcome_views(outcomes@));
    }
    let payloads = assemble_embeddings(outcomes, config.default_vector_dim);
    assert(vector_views(payloads@) == embedding_response(text_views(texts@), replies, *config));
    (payloads, summary)
}

} // verus!
