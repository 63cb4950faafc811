//! The batch processor: every item of a batch goes through the same steps,
//! in order, and yields a result of its own whatever becomes of the others.

use vstd::prelude::*;
use crate::classify::{
    item_outcome, model_accepts, model_answers, predict_one_safe, query_for, Query, QueryView,
    Reply, ReplyView,
};
use crate::config::ServerConfig;
use crate::embed::{
    embed_one_safe, embedder_accepts, embedder_answers, embedding_item_outcome, EmbeddingReply,
    EmbeddingReplyView,
};
use crate::payload::{
    embedding_outcome_view, embedding_payload_of, outcome_view, prediction_payload_of,
    prediction_view, EmbeddingOutcome, EmbeddingOutcomeView, Outcome, OutcomeView, Prediction,
    PredictionView, Transport,
};
use crate::text::{normalized, validation_error};

verus! {

/// The label count of an item that names none.
pub const DEFAULT_K: u32 = 1;

/// One text to classify, with the options of its request.
#[derive(Debug, Clone, PartialEq, Eq)]
pub struct PredictionItem {
    /// The raw text; it may be empty or too long, which is found out here.
    pub text: String,
    /// How many of the best labels are wanted.
    pub k: Option<u32>,
    /// The least probability a label must have, as the bits of a
    /// single-precision number.
    pub threshold: Option<u32>,
}

/// A [`PredictionItem`] with its text as a sequence of characters.
pub struct PredictionItemView {
    pub text: Seq<char>,
    pub k: Option<u32>,
    pub threshold: Option<u32>,
}

impl View for PredictionItem {
    type V = PredictionItemView;

    open spec fn view(&self) -> PredictionItemView {
        PredictionItemView { text: self.text@, k: self.k, threshold: self.threshold }
    }
}

impl PredictionItemView {
    /// The label count of the item, before it is coerced.
    pub open spec fn requested_k(self) -> u32 {
        match self.k {
            Some(k) => k,
            None => DEFAULT_K,
        }
    }

    /// The threshold of the item: its own, else the configured default.
    pub open spec fn requested_threshold(self, config: ServerConfig) -> u32 {
        match self.threshold {
            Some(threshold) => threshold,
            None => config.default_threshold,
        }
    }

    /// True when the item passes the validator.
    pub open spec fn accepted(self, config: ServerConfig) -> bool {
        validation_error(self.text, config.max_text_length as nat) is None
    }

    /// What the model is asked for the item, where the item is accepted.
    pub open spec fn query(self, config: ServerConfig) -> QueryView {
        query_for(self.text, self.requested_k(), self.requested_threshold(config))
    }
}

/// The items of a batch as plain values.
pub open spec fn item_views(items: Seq<PredictionItem>) -> Seq<PredictionItemView> {
    Seq::new(items.len(), |i: int| items[i]@)
}

/// The texts of a batch as plain values.
pub open spec fn text_views(texts: Seq<String>) -> Seq<Seq<char>> {
    Seq::new(texts.len(), |i: int| texts[i]@)
}

/// The classification results of a batch as plain values.
pub open spec fn outcome_views(outcomes: Seq<Outcome>) -> Seq<OutcomeView> {
    Seq::new(outcomes.len(), |i: int| outcome_view(outcomes[i]))
}

/// The embedding results of a batch as plain values.
pub open spec fn embedding_outcome_views(outcomes: Seq<EmbeddingOutcome>) -> Seq<
    EmbeddingOutcomeView,
> {
    Seq::new(outcomes.len(), |i: int| embedding_outcome_view(outcomes[i]))
}

/// The classification payloads of a batch as plain values.
pub open spec fn prediction_views(payloads: Seq<Prediction>) -> Seq<PredictionView> {
    Seq::new(payloads.len(), |i: int| prediction_view(payloads[i]))
}

/// The embedding payloads of a batch as plain values.
pub open spec fn vector_views(payloads: Seq<Vec<u32>>) -> Seq<Seq<u32>> {
    Seq::new(payloads.len(), |i: int| payloads[i]@)
}

/// True when `model` may be asked the query of each accepted item of the
/// batch.  Nothing is asked of it for a refused item.
pub open spec fn model_accepts_batch<M: Fn(&Query) -> Reply>(
    model: M,
    items: Seq<PredictionItemView>,
    config: ServerConfig,
) -> bool {
    forall|i: int|
        0 <= i < items.len() && items[i].accepted(config) ==> model_accepts(
            model,
            #[trigger] items[i].query(config),
        )
}

/// True when `model` may be asked for the vector of each accepted text of
/// the batch, in its normalised form.
pub open spec fn embedder_accepts_batch<E: Fn(&String) -> EmbeddingReply>(
    model: E,
    texts: Seq<Seq<char>>,
    config: ServerConfig,
) -> bool {
    forall|i: int|
        0 <= i < texts.len() && validation_error(texts[i], config.max_text_length as nat) is None
            ==> embedder_accepts(model, #[trigger] normalized(texts[i]))
}

/// True when `replies` holds, for each accepted item of the batch, an answer
/// that `model` may give to that item's query.  What stands at the place of
/// a refused item is of no account.
pub open spec fn model_answers_batch<M: Fn(&Query) -> Reply>(
    model: M,
    items: Seq<PredictionItemView>,
    replies: Seq<ReplyView>,
    config: ServerConfig,
) -> bool {
    &&& replies.len() == items.len()
    &&& forall|i: int|
        0 <= i < items.len() && items[i].accepted(config) ==> model_answers(
            model,
            #[trigger] items[i].query(config),
            replies[i],
        )
}

/// True when `replies` holds, for each accepted text of the batch, an answer
/// that `model` may give when asked for that text's vector.
pub open spec fn embedder_answers_batch<E: Fn(&String) -> EmbeddingReply>(
    model: E,
    texts: Seq<Seq<char>>,
    replies: Seq<EmbeddingReplyView>,
    config: ServerConfig,
) -> bool {
    &&& replies.len() == texts.len()
    &&& forall|i: int|
        0 <= i < texts.len() && validation_error(texts[i], config.max_text_length as nat) is None
            ==> embedder_answers(model, #[trigger] normalized(texts[i]), replies[i])
}

/// The classification results of a batch, given the model's answers: one
/// for each item, at the item's place, made of that item and its answer
/// alone.
pub open spec fn batch_outcomes(
    items: Seq<PredictionItemView>,
    replies: Seq<ReplyView>,
    config: ServerConfig,
) -> Seq<OutcomeView> {
    Seq::new(
        items.len(),
        |i: int| item_outcome(items[i].text, config.max_text_length as nat, replies[i]),
    )
}

/// The embedding results of a batch, given the model's answers: one for each
/// text, at the text's place, made of that text and its answer alone.
pub open spec fn embedding_batch_outcomes(
    texts: Seq<Seq<char>>,
    replies: Seq<EmbeddingReplyView>,
    config: ServerConfig,
) -> Seq<EmbeddingOutcomeView> {
    Seq::new(
        texts.len(),
        |i: int| embedding_item_outcome(texts[i], config.max_text_length as nat, replies[i]),
    )
}

/// The payloads that answer a batch of results: one for each, at its place.
pub open spec fn prediction_payloads(outcomes: Seq<OutcomeView>, transport: Transport) -> Seq<
    PredictionView,
> {
    Seq::new(outcomes.len(), |i: int| prediction_payload_of(outcomes[i], transport))
}

/// The vectors that answer a batch of results: one for each, at its place.
pub open spec fn embedding_payloads(outcomes: Seq<EmbeddingOutcomeView>, dim: nat) -> Seq<Seq<u32>> {
    Seq::new(outcomes.len(), |i: int| embedding_payload_of(outcomes[i], dim))
}

/// Classifies one item of a batch with the defaults of the configuration.
/// The model need only accept the item's query, and only where the item is
/// accepted.
pub fn predict_item<M: Fn(&Query) -> Reply>(
    model: &M,
    item: &PredictionItem,
    config: &ServerConfig,
) -> (r: Outcome)
    requires
        item@.accepted(*config) ==> model_accepts(*model, item@.query(*config)),
    ensures
        exists|reply: ReplyView|
            {
                &&& item@.accepted(*config) ==> model_answers(*model, item@.query(*config), reply)
                &&& outcome_view(r) == #[trigger] item_outcome(
                    item@.text,
                    config.max_text_length as nat,
                    reply,
                )
            },
{
    let k: u32 = match item.k {
        Some(k) => k,
        None => DEFAULT_K,
    };
    let threshold: u32 = match item.threshold {
        Some(threshold) => threshold,
        None => config.default_threshold,
    };
    let r = predict_one_safe(model, item.text.as_str(), k, threshold, config.max_text_length);
    proof {
        let max = config.max_text_length as nat;
        let reply = choose|reply: ReplyView|
            {
                &&& validation_error(item.text@, max) is None ==> model_answers(
                    *model,
                    query_for(item.text@, k, threshold),
                    reply,
                )
                &&& outcome_view(r) == #[trigger] item_outcome(item.text@, max, reply)
            };
        assert(outcome_view(r) == item_outcome(item@.text, max, reply));
    }
    r
}

/// Classifies every item of a batch, in order.  No item's failure touches
/// another: the result at each place is made of the item at that place and
/// of the model's answer to it alone.  The model need only accept the
/// queries of the accepted items.
pub fn predict_batch<M: Fn(&Query) -> Reply>(
    model: &M,
    items: &Vec<PredictionItem>,
    config: &ServerConfig,
) -> (outcomes: Vec<Outcome>)
    requires
        model_accepts_batch(*model, item_views(items@), *config),
    ensures
        outcomes.len() == items.len(),
        exists|replies: Seq<ReplyView>|
            {
                &&& model_answers_batch(*model, item_views(items@), replies, *config)
                &&& outcome_views(outcomes@) == #[trigger] batch_outcomes(
                    item_views(items@),
                    replies,
                    *config,
                )
            },
{
    let mut outcomes: Vec<Outcome> = Vec::with_capacity(items.len());
    let ghost mut replies: Seq<ReplyView> = Seq::empty();
    let mut i: usize = 0;
    while i < items.len()
        invariant
            i <= items.len(),
            outcomes.len() == i,
            replies.len() == i,
            model_accepts_batch(*model, item_views(items@), *config),
            forall|j: int|
                0 <= j < i && items[j]@.accepted(*config) ==> model_answers(
                    *model,
                    #[trigger] items[j]@.query(*config),
                    replies[j],
                ),
            forall|j: int|
                0 <= j < i ==> outcome_view(#[trigger] outcomes[j]) == item_outcome(
                    items[j]@.text,
                    config.max_text_length as nat,
                    replies[j],
                ),
        decreases items.len() - i,
    {
        assert(item_views(items@)[i as int] == items[i as int]@);
        let outcome = predict_item(model, &items[i], config);
        proof {
            let reply = choose|reply: ReplyView|
                {
                    &&& items[i as int]@.accepted(*config) ==> model_answers(
                        *model,
                        items[i as int]@.query(*config),
                        reply,
                    )
                    &&& outcome_view(outcome) == #[trigger] item_outcome(
                        items[i as int]@.text,
                        config.max_text_length as nat,
                        reply,
                    )
                };
            replies = replies.push(reply);
        }
        outcomes.push(outcome);
        i += 1;
    }
    proof {
        let views = item_views(items@);
        assert forall|j: int| 0 <= j < views.len() && views[j].accepted(*config) implies model_answers(
            *model,
            #[trigger] views[j].query(*config),
            replies[j],
        ) by {
            assert(views[j] == items[j]@);
        }
        assert(outcome_views(outcomes@) =~= batch_outcomes(views, replies, *config));
    }
    outcomes
}

/// Embeds every text of a batch, in order, each on its own.  The model need
/// only accept the accepted texts, in their normalised form.
pub fn embed_batch<E: Fn(&String) -> EmbeddingReply>(
    model: &E,
    texts: &Vec<String>,
    config: &ServerConfig,
) -> (outcomes: Vec<EmbeddingOutcome>)
    requires
        embedder_accepts_batch(*model, text_views(texts@), *config),
    ensures
        outcomes.len() == texts.len(),
        exists|replies: Seq<EmbeddingReplyView>|
            {
                &&& embedder_answers_batch(*model, text_views(texts@), replies, *config)
                &&& embedding_outcome_views(outcomes@) == #[trigger] embedding_batch_outcomes(
                    text_views(texts@),
                    replies,
                    *config,
                )
            },
{
    let mut outcomes: Vec<EmbeddingOutcome> = Vec::with_capacity(texts.len());
    let ghost mut replies: Seq<EmbeddingReplyView> = Seq::empty();
    let mut i: usize = 0;
    while i < texts.len()
        invariant
            i <= texts.len(),
            outcomes.len() == i,
            replies.len() == i,
            embedder_accepts_batch(*model, text_views(texts@), *config),
            forall|j: int|
                0 <= j < i && validation_error(texts[j]@, config.max_text_length as nat) is None
                    ==> embedder_answers(*model, #[trigger] normalized(texts[j]@), replies[j]),
            forall|j: int|
                0 <= j < i ==> embedding_outcome_view(#[trigger] outcomes[j])
                    == embedding_item_outcome(
                    texts[j]@,
                    config.max_text_length as nat,
                    replies[j],
                ),
        decreases texts.len() - i,
    {
        assert(text_views(texts@)[i as int] == texts[i as int]@);
        let outcome = embed_one_safe(model, texts[i].as_str(), config.max_text_length);
        proof {
            let reply = choose|reply: EmbeddingReplyView|
                {
                    &&& validation_error(texts[i as int]@, config.max_text_length as nat) is None
                        ==> embedder_answers(*model, normalized(texts[i as int]@), reply)
                    &&& embedding_outcome_view(outcome) == #[trigger] embedding_item_outcome(
                        texts[i as int]@,
                        config.max_text_length as nat,
                        reply,
                    )
                };
            replies = replies.push(reply);
        }
        outcomes.push(outcome);
        i += 1;
    }
    proof {
        let views = text_views(texts@);
        assert forall|j: int|
            0 <= j < views.len() && validation_error(
                views[j],
                config.max_text_length as nat,
            ) is None implies embedder_answers(
            *model,
            #[trigger] normalized(views[j]),
            replies[j],
        ) by {
            assert(views[j] == texts[j]@);
        }
        assert(embedding_outcome_views(outcomes@) =~= embedding_batch_outcomes(
            views,
            replies,
            *config,
        ));
    }
    outcomes
}

} // verus!
