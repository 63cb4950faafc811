//! What holds of the batch logic for every batch, every text and every
//! answer of the model.

use vstd::prelude::*;
use crate::batch::{batch_outcomes, embedding_batch_outcomes, PredictionItemView};
use crate::classify::{classified, item_outcome, query_for, ReplyView};
use crate::config::ServerConfig;
use crate::embed::{embedded, embedding_item_outcome, EmbeddingReplyView};
use crate::error::PredictErrorView;
use crate::label::{has_label_prefix, label_prefix, stripped_label};
use crate::payload::{
    embedding_payload_of, fallback_embedding, fallback_prediction, prediction_payload_of,
    PredictionView, Transport,
};
use crate::response::{embedding_response, prediction_response};
use crate::summary::{lemma_failure_count_bounded, summary_of};
use crate::text::{byte_len, ends_with_terminator, normalized, too_long_message, TERMINATOR};

verus! {

/// The response to a batch has as many payloads as the batch has items,
/// whatever the model answers; so has the response to a batch of texts to
/// embed.
pub proof fn law_response_length(
    items: Seq<PredictionItemView>,
    replies: Seq<ReplyView>,
    texts: Seq<Seq<char>>,
    embedding_replies: Seq<EmbeddingReplyView>,
    config: ServerConfig,
    transport: Transport,
)
    ensures
        prediction_response(items, replies, config, transport).len() == items.len(),
        embedding_response(texts, embedding_replies, config).len() == texts.len(),
{
}

/// The payload at each place of the response is the payload of the item at
/// that place, made of that item and of the model's answer to it.
pub proof fn law_order_preserved(
    items: Seq<PredictionItemView>,
    replies: Seq<ReplyView>,
    config: ServerConfig,
    transport: Transport,
    i: int,
)
    requires
        0 <= i < items.len(),
    ensures
        prediction_response(items, replies, config, transport)[i] == prediction_payload_of(
            item_outcome(items[i].text, config.max_text_length as nat, replies[i]),
            transport,
        ),
{
}

/// The vector at each place of the response is the vector of the text at
/// that place, made of that text and of the model's answer to it.
pub proof fn law_embedding_order_preserved(
    texts: Seq<Seq<char>>,
    replies: Seq<EmbeddingReplyView>,
    config: ServerConfig,
    i: int,
)
    requires
        0 <= i < texts.len(),
    ensures
        embedding_response(texts, replies, config)[i] == embedding_payload_of(
            embedding_item_outcome(texts[i], config.max_text_length as nat, replies[i]),
            config.default_vector_dim as nat,
        ),
{
}

/// An item's payload does not depend on its siblings: two batches that hold
/// the same text at some place of each, with the same answer of the model
/// to it, have the same payload at those places, whatever else they hold
/// and whether the other items succeed or fail.
pub proof fn law_items_independent(
    items_a: Seq<PredictionItemView>,
    replies_a: Seq<ReplyView>,
    i: int,
    items_b: Seq<PredictionItemView>,
    replies_b: Seq<ReplyView>,
    j: int,
    config: ServerConfig,
    transport: Transport,
)
    requires
        0 <= i < items_a.len(),
        0 <= j < items_b.len(),
        items_a[i].text == items_b[j].text,
        replies_a[i] == replies_b[j],
    ensures
        prediction_response(items_a, replies_a, config, transport)[i] == prediction_response(
            items_b,
            replies_b,
            config,
            transport,
        )[j],
{
}

/// A text's vector does not depend on its siblings either.
pub proof fn law_embeddings_independent(
    texts_a: Seq<Seq<char>>,
    replies_a: Seq<EmbeddingReplyView>,
    i: int,
    texts_b: Seq<Seq<char>>,
    replies_b: Seq<EmbeddingReplyView>,
    j: int,
    config: ServerConfig,
)
    requires
        0 <= i < texts_a.len(),
        0 <= j < texts_b.len(),
        texts_a[i] == texts_b[j],
        replies_a[i] == replies_b[j],
    ensures
        embedding_response(texts_a, replies_a, config)[i] == embedding_response(
            texts_b,
            replies_b,
            config,
        )[j],
{
}

/// The empty batch has the empty response, and counts nothing.
pub proof fn law_empty_batch(
    replies: Seq<ReplyView>,
    embedding_replies: Seq<EmbeddingReplyView>,
    config: ServerConfig,
    transport: Transport,
)
    ensures
        prediction_response(Seq::<PredictionItemView>::empty(), replies, config, transport)
            == Seq::<PredictionView>::empty(),
        embedding_response(Seq::<Seq<char>>::empty(), embedding_replies, config) == Seq::<
            Seq<u32>,
        >::empty(),
        summary_of(batch_outcomes(Seq::<PredictionItemView>::empty(), replies, config)).processed
            == 0,
        summary_of(batch_outcomes(Seq::<PredictionItemView>::empty(), replies, config)).errors
            == 0,
        summary_of(
            embedding_batch_outcomes(Seq::<Seq<char>>::empty(), embedding_replies, config),
        ).processed == 0,
        summary_of(
            embedding_batch_outcomes(Seq::<Seq<char>>::empty(), embedding_replies, config),
        ).errors == 0,
{
    assert(prediction_response(Seq::<PredictionItemView>::empty(), replies, config, transport)
        =~= Seq::<PredictionView>::empty());
    assert(embedding_response(Seq::<Seq<char>>::empty(), embedding_replies, config) =~= Seq::<
        Seq<u32>,
    >::empty());
}

/// An empty text is refused whatever the limit and whatever the model would
/// answer; what the caller receives for it is the fallback payload.
pub proof fn law_empty_text_falls_back(
    text: Seq<char>,
    max_text_length: nat,
    reply: ReplyView,
    embedding_reply: EmbeddingReplyView,
    transport: Transport,
    dim: nat,
)
    requires
        text.len() == 0,
    ensures
        item_outcome(text, max_text_length, reply) == Err::<PredictionView, PredictErrorView>(
            PredictErrorView::InputError("Empty text input"@),
        ),
        embedding_item_outcome(text, max_text_length, embedding_reply) == Err::<
            Seq<u32>,
            PredictErrorView,
        >(PredictErrorView::InputError("Empty text input"@)),
        prediction_payload_of(item_outcome(text, max_text_length, reply), transport)
            == fallback_prediction(transport),
        embedding_payload_of(embedding_item_outcome(text, max_text_length, embedding_reply), dim)
            == fallback_embedding(dim),
{
}

/// A text of more bytes than the limit is refused whatever the model would
/// answer, with a message that names its length; what the caller receives
/// for it is the fallback payload.
pub proof fn law_long_text_falls_back(
    text: Seq<char>,
    max_text_length: nat,
    reply: ReplyView,
    embedding_reply: EmbeddingReplyView,
    transport: Transport,
    dim: nat,
)
    requires
        byte_len(text) > max_text_length,
    ensures
        item_outcome(text, max_text_length, reply) == Err::<PredictionView, PredictErrorView>(
            PredictErrorView::InputError(too_long_message(byte_len(text))),
        ),
        embedding_item_outcome(text, max_text_length, embedding_reply) == Err::<
            Seq<u32>,
            PredictErrorView,
        >(PredictErrorView::InputError(too_long_message(byte_len(text)))),
        prediction_payload_of(item_outcome(text, max_text_length, reply), transport)
            == fallback_prediction(transport),
        embedding_payload_of(embedding_item_outcome(text, max_text_length, embedding_reply), dim)
            == fallback_embedding(dim),
{
    assert(text.len() > 0) by {
        if text.len() == 0 {
            assert(text =~= Seq::<char>::empty());
        }
    }
}

/// A text that is neither empty nor over the limit gets what the model's
/// answer gives: a failure of the model becomes the fallback payload; of a
/// success the probabilities pass through and every label is answered by
/// one label.
pub proof fn law_accepted_text_follows_model(
    text: Seq<char>,
    max_text_length: nat,
    reply: ReplyView,
    embedding_reply: EmbeddingReplyView,
    transport: Transport,
    dim: nat,
)
    requires
        text.len() > 0,
        byte_len(text) <= max_text_length,
    ensures
        item_outcome(text, max_text_length, reply) == classified(reply),
        embedding_item_outcome(text, max_text_length, embedding_reply) == embedded(
            embedding_reply,
        ),
        reply is Err ==> prediction_payload_of(
            item_outcome(text, max_text_length, reply),
            transport,
        ) == fallback_prediction(transport),
        reply matches Ok(answer) ==> {
            let payload = prediction_payload_of(
                item_outcome(text, max_text_length, reply),
                transport,
            );
            &&& payload.1 == answer.1
            &&& payload.0.len() == answer.0.len()
            &&& forall|i: int|
                0 <= i < answer.0.len() ==> #[trigger] payload.0[i] == stripped_label(answer.0[i])
        },
        embedding_reply is Err ==> embedding_payload_of(
            embedding_item_outcome(text, max_text_length, embedding_reply),
            dim,
        ) == fallback_embedding(dim),
        embedding_reply matches Ok(values) ==> embedding_payload_of(
            embedding_item_outcome(text, max_text_length, embedding_reply),
            dim,
        ) == values,
{
}

/// Normalising leaves a text that ends with the terminator as it is, adds
/// exactly one terminator to any other, and changes nothing when it is done
/// a second time.
pub proof fn law_normalization_idempotent(text: Seq<char>)
    ensures
        ends_with_terminator(text) ==> normalized(text) == text,
        !ends_with_terminator(text) ==> normalized(text) == text.push(TERMINATOR),
        normalized(text).len() == text.len() + if ends_with_terminator(text) {
            0int
        } else {
            1int
        },
        normalized(text).subrange(0, text.len() as int) == text,
        ends_with_terminator(normalized(text)),
        normalized(normalized(text)) == normalized(text),
{
    assert(normalized(text).subrange(0, text.len() as int) =~= text);
}

/// A label count of zero is asked of the model as one; any other count is
/// asked as it is.  The text is asked normalised, the threshold as it came.
pub proof fn law_label_count_at_least_one(text: Seq<char>, k: u32, threshold: u32)
    ensures
        query_for(text, k, threshold).k >= 1,
        k >= 1 ==> query_for(text, k, threshold).k == k,
        query_for(text, 0, threshold).k == 1,
        query_for(text, k, threshold).text == normalized(text),
        query_for(text, k, threshold).threshold == threshold,
{
}

/// Stripping takes the one namespace prefix off the front of a label: any
/// name with the prefix before it comes back as that name, also a name that
/// itself begins with the prefix or holds it inside; and a label that does
/// not begin with the prefix comes back as it is.
pub proof fn law_label_stripped(name: Seq<char>)
    ensures
        stripped_label(label_prefix() + name) == name,
        !has_label_prefix(name) ==> stripped_label(name) == name,
        has_label_prefix(name) ==> label_prefix() + stripped_label(name) == name,
{
    let labelled = label_prefix() + name;
    assert(labelled.subrange(0, label_prefix().len() as int) =~= label_prefix());
    assert(labelled.skip(label_prefix().len() as int) =~= name);
    if has_label_prefix(name) {
        assert(label_prefix() + name.skip(label_prefix().len() as int) =~= name);
    }
}

/// Every item of a batch is counted once: as a real result or as a failure.
pub proof fn law_summary_counts_every_item(
    items: Seq<PredictionItemView>,
    replies: Seq<ReplyView>,
    texts: Seq<Seq<char>>,
    embedding_replies: Seq<EmbeddingReplyView>,
    config: ServerConfig,
)
    ensures
        summary_of(batch_outcomes(items, replies, config)).processed + summary_of(
            batch_outcomes(items, replies, config),
        ).errors == items.len(),
        summary_of(embedding_batch_outcomes(texts, embedding_replies, config)).processed
            + summary_of(embedding_batch_outcomes(texts, embedding_replies, config)).errors
            == texts.len(),
{
    lemma_failure_count_bounded(batch_outcomes(items, replies, config));
    lemma_failure_count_bounded(embedding_batch_outcomes(texts, embedding_replies, config));
}

} // verus!
