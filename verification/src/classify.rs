//! Classification of one text: what is asked of the model and what becomes
//! of its answer.

use vstd::prelude::*;
use vstd::string::StringExecFns;
use crate::error::{PredictError, PredictErrorView};
use crate::label::{strip_label, stripped_label};
use crate::payload::{
    outcome_view, prediction_payload, prediction_payload_of, prediction_view, texts_of, Outcome,
    OutcomeView, Prediction, PredictionView, Transport,
};
use crate::text::{normalize_text, normalized, validate_text, validation_error};

verus! {

/// What the model is asked for one text.
#[derive(Debug, Clone, PartialEq, Eq)]
pub struct Query {
    /// The text, normalised.
    pub text: String,
    /// How many of the best labels are wanted; at least one.
    pub k: u32,
    /// The least probability a label must have, as the bits of a
    /// single-precision number.
    pub threshold: u32,
}

/// A [`Query`] with its text as a sequence of characters.
pub struct QueryView {
    pub text: Seq<char>,
    pub k: u32,
    pub threshold: u32,
}

impl View for Query {
    type V = QueryView;

    open spec fn view(&self) -> QueryView {
        QueryView { text: self.text@, k: self.k, threshold: self.threshold }
    }
}

/// One label as the model returns it, with its probability as the bits of a
/// single-precision number.
#[derive(Debug, Clone, PartialEq, Eq)]
pub struct RawPrediction {
    pub label: String,
    pub prob: u32,
}

/// The model's answer to one query: its labels, best first, or the detail of
/// its failure.
pub type Reply = Result<Vec<RawPrediction>, String>;

/// A [`Reply`] as plain values: the labels and beside them their
/// probabilities, or the detail of the failure.
pub type ReplyView = Result<PredictionView, Seq<char>>;

/// The labels of the model's answer, in its order.
pub open spec fn raw_labels(preds: Seq<RawPrediction>) -> Seq<Seq<char>> {
    Seq::new(preds.len(), |i: int| preds[i].label@)
}

/// The probabilities of the model's answer, in its order.
pub open spec fn raw_probs(preds: Seq<RawPrediction>) -> Seq<u32> {
    Seq::new(preds.len(), |i: int| preds[i].prob)
}

/// The plain values of a model's answer.
pub open spec fn reply_view(reply: Reply) -> ReplyView {
    match reply {
        Ok(preds) => Ok((raw_labels(preds@), raw_probs(preds@))),
        Err(detail) => Err(detail@),
    }
}

/// The number of top labels actually asked of the model: never less than one.
pub open spec fn effective_k(k: u32) -> u32 {
    if k > 0 {
        k
    } else {
        1
    }
}

/// The query that an accepted text gives rise to.
pub open spec fn query_for(text: Seq<char>, k: u32, threshold: u32) -> QueryView {
    QueryView { text: normalized(text), k: effective_k(k), threshold }
}

/// True when `model` may be asked any query with the plain values `query`.
pub open spec fn model_accepts<M: Fn(&Query) -> Reply>(model: M, query: QueryView) -> bool {
    forall|q: &Query| q@ == query ==> call_requires(model, (q,))
}

/// True when `reply` holds the plain values of an answer that `model` may
/// give to a query with the plain values `query`.
pub open spec fn model_answers<M: Fn(&Query) -> Reply>(
    model: M,
    query: QueryView,
    reply: ReplyView,
) -> bool {
    exists|q: Query, r: Reply| q@ == query && call_ensures(model, (&q,), r) && reply_view(r) == reply
}

/// What becomes of the model's answer: a failure is wrapped with its detail
/// kept; of a success each label loses the one namespace prefix at its
/// front, while the probabilities and the order stay as the model gave
/// them.
pub open spec fn classified(reply: ReplyView) -> OutcomeView {
    match reply {
        Ok(answer) => Ok(
            (Seq::new(answer.0.len(), |i: int| stripped_label(answer.0[i])), answer.1),
        ),
        Err(detail) => Err(PredictErrorView::ModelError("Prediction failed: "@ + detail)),
    }
}

/// The result for one text, given what the model answers where it is asked:
/// a refused text has the validator's error whatever the model would say.
pub open spec fn item_outcome(text: Seq<char>, max_text_length: nat, reply: ReplyView) -> OutcomeView {
    match validation_error(text, max_text_length) {
        Some(e) => Err(e),
        None => classified(reply),
    }
}

/// Coerces a requested label count to at least one.
pub fn coerce_k(k: u32) -> (r: u32)
    ensures
        r == effective_k(k),
{
    if k > 0 {
        k
    } else {
        1
    }
}

/// Checks and normalises one text and settles what the model is asked for
/// it: a refused text gives the validator's error and no query.
pub fn prepare_query(text: &str, k: u32, threshold: u32, max_text_length: usize) -> (r: Result<
    Query,
    PredictError,
>)
    ensures
        match validation_error(text@, max_text_length as nat) {
            Some(e) => r matches Err(err) && err@ == e,
            None => r matches Ok(q) && q@ == query_for(text@, k, threshold),
        },
{
    match validate_text(text, max_text_length) {
        Err(e) => Err(e),
        Ok(_) => Ok(Query { text: normalize_text(text), k: coerce_k(k), threshold }),
    }
}

/// Turns the model's answer to one query into the result for the item.
pub fn finish_prediction(reply: Reply) -> (r: Outcome)
    ensures
        outcome_view(r) == classified(reply_view(reply)),
{
    match reply {
        Err(detail) => {
            let mut msg = String::from_str("Prediction failed: ");
            msg.append(detail.as_str());
            Err(PredictError::ModelError(msg))
        },
        Ok(preds) => {
            let mut labels: Vec<String> = Vec::with_capacity(preds.len());
            let mut probs: Vec<u32> = Vec::with_capacity(preds.len());
            let mut i: usize = 0;
            while i < preds.len()
                invariant
                    i <= preds.len(),
                    labels.len() == i,
                    probs.len() == i,
                    forall|j: int| 0 <= j < i ==> labels[j]@ == stripped_label(preds[j].label@),
                    forall|j: int| 0 <= j < i ==> probs[j] == preds[j].prob,
                decreases preds.len() - i,
            {
                labels.push(strip_label(preds[i].label.as_str()));
                probs.push(preds[i].prob);
                i += 1;
            }
            assert(texts_of(labels@) =~= Seq::new(
                preds.len() as nat,
                |i: int| stripped_label(raw_labels(preds@)[i]),
            ));
            assert(probs@ =~= raw_probs(preds@));
            Ok((labels, probs))
        },
    }
}

/// Classifies one text: the text is checked, normalised and handed to the
/// model with a label count of at least one; the model's answer is turned
/// into the result.  A refused text never reaches the model: the model need
/// only accept the query of an accepted text, and nothing is asked of it
/// for any other.
pub fn predict_one_safe<M: Fn(&Query) -> Reply>(
    model: &M,
    text: &str,
    k: u32,
    threshold: u32,
    max_text_length: usize,
) -> (r: Outcome)
    requires
        validation_error(text@, max_text_length as nat) is None ==> model_accepts(
            *model,
            query_for(text@, k, threshold),
        ),
    ensures
        validation_error(text@, max_text_length as nat) matches Some(e) ==> outcome_view(r)
            == Err::<PredictionView, PredictErrorView>(e),
        exists|reply: ReplyView|
            {
                &&& validation_error(text@, max_text_length as nat) is None ==> model_answers(
                    *model,
                    query_for(text@, k, threshold),
                    reply,
                )
                &&& outcome_view(r) == #[trigger] item_outcome(
                    text@,
                    max_text_length as nat,
                    reply,
                )
            },
{
    match prepare_query(text, k, threshold, max_text_length) {
        Err(e) => {
            assert(outcome_view(Err(e)) == item_outcome(
                text@,
                max_text_length as nat,
                Err(Seq::<char>::empty()),
            ));
            Err(e)
        },
        Ok(q) => {
            let reply = model(&q);
            let ghost answer = reply_view(reply);
            let r = finish_prediction(reply);
            assert(outcome_view(r) == item_outcome(text@, max_text_length as nat, answer));
            r
        },
    }
}

/// Classifies one text and always hands back a payload: the real result, or
/// the fallback label `"error"` with probability zero where the text was
/// refused or the model failed.  The model need only accept the query of an
/// accepted text.
pub fn predict_one<M: Fn(&Query) -> Reply>(
    model: &M,
    text: &str,
    k: u32,
    threshold: u32,
    max_text_length: usize,
) -> (payload: Prediction)
    requires
        validation_error(text@, max_text_length as nat) is None ==> model_accepts(
            *model,
            query_for(text@, k, threshold),
        ),
    ensures
        exists|reply: ReplyView|
            {
                &&& validation_error(text@, max_text_length as nat) is None ==> model_answers(
                    *model,
                    query_for(text@, k, threshold),
                    reply,
                )
                &&& prediction_view(payload) == prediction_payload_of(
                    #[trigger] item_outcome(text@, max_text_length as nat, reply),
                    Transport::Http,
                )
            },
{
    prediction_payload(predict_one_safe(model, text, k, threshold, max_text_length), Transport::Http)
}

} // verus!
