//! The two kinds of per-item failure and how they read.

use vstd::prelude::*;
use vstd::string::StringExecFns;

verus! {

/// Why one item of a batch has no real result.
#[derive(Debug, Clone, PartialEq, Eq)]
pub enum PredictError {
    /// The model's own call failed; the message keeps its detail.
    ModelError(String),
    /// The text handed in broke a rule before the model was asked.
    InputError(String),
}

/// A [`PredictError`] with its message as a sequence of characters.
pub enum PredictErrorView {
    ModelError(Seq<char>),
    InputError(Seq<char>),
}

impl View for PredictError {
    type V = PredictErrorView;

    open spec fn view(&self) -> PredictErrorView {
        match self {
            PredictError::ModelError(msg) => PredictErrorView::ModelError(msg@),
            PredictError::InputError(msg) => PredictErrorView::InputError(msg@),
        }
    }
}

impl PredictErrorView {
    /// The text a reader sees for this error: the kind, a colon, the message.
    pub open spec fn rendered(self) -> Seq<char> {
        match self {
            PredictErrorView::ModelError(msg) => "Model error: "@ + msg,
            PredictErrorView::InputError(msg) => "Input error: "@ + msg,
        }
    }
}

impl PredictError {
    /// The message carried by the error, without its kind.
    pub fn message(&self) -> (msg: &String)
        ensures
            self@ matches PredictErrorView::ModelError(m) ==> msg@ == m,
            self@ matches PredictErrorView::InputError(m) ==> msg@ == m,
    {
        match self {
            PredictError::ModelError(msg) => msg,
            PredictError::InputError(msg) => msg,
        }
    }

    /// True for a failure of the caller's input, false for one of the model.
    pub fn is_input_error(&self) -> (b: bool)
        ensures
            b == (self@ is InputError),
    {
        match self {
            PredictError::ModelError(_) => false,
            PredictError::InputError(_) => true,
        }
    }

    /// Renders the error for a log line or a reader.
    pub fn to_string(&self) -> (s: String)
        ensures
            s@ == self@.rendered(),
    {
        match self {
            PredictError::ModelError(msg) => {
                let mut s = String::from_str("Model error: ");
                s.append(msg.as_str());
                s
            },
            PredictError::InputError(msg) => {
                let mut s = String::from_str("Input error: ");
                s.append(msg.as_str());
                s
            },
        }
    }
}

} // verus!
