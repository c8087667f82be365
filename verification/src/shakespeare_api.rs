//! The style-translator side of the pipeline: the fields read from the
//! translation response and the trust-but-verify classification of that
//! response into a translation outcome.

use vstd::prelude::*;

use crate::services::translation::{
    translation_result_view, TranslationError, TranslationErrorView,
};
use crate::text::str_eq;

verus! {

/// Mathematical view of [`Translation`].
pub struct TranslationView {
    pub translated: Seq<char>,
    pub translation: Seq<char>,
}

/// The contents of a translation response: the transformed text and the
/// marker naming which translation style was actually applied.
#[derive(Debug)]
pub struct Translation {
    pub translated: String,
    pub translation: String,
}

impl DeepView for Translation {
    type V = TranslationView;

    open spec fn deep_view(&self) -> TranslationView {
        TranslationView { translated: self.translated@, translation: self.translation@ }
    }
}

/// Mathematical view of [`TranslationResponse`].
pub struct TranslationResponseView {
    pub contents: TranslationView,
}

/// The fields read from the translation service's response.
#[derive(Debug)]
pub struct TranslationResponse {
    pub contents: Translation,
}

impl DeepView for TranslationResponse {
    type V = TranslationResponseView;

    open spec fn deep_view(&self) -> TranslationResponseView {
        TranslationResponseView { contents: self.contents.deep_view() }
    }
}

/// The marker expected of a faithful response: the style actually applied
/// must be the requested one.
pub open spec fn expected_style() -> Seq<char> {
    "shakespeare"@
}

/// The translation outcome determined by an upstream response: a success
/// status with a readable body whose style marker confirms the requested
/// style yields the translated text; a success status with an unreadable
/// body or a different marker is a failed translation; any other status is
/// unavailability.
pub open spec fn translation_outcome(
    status: u16,
    response: Option<TranslationResponseView>,
) -> Result<Seq<char>, TranslationErrorView> {
    if 200 <= status < 300 {
        match response {
            Some(t) => if t.contents.translation == expected_style() {
                Ok(t.contents.translated)
            } else {
                Err(TranslationErrorView::TranslationFailed)
            },
            None => Err(TranslationErrorView::TranslationFailed),
        }
    } else {
        Err(TranslationErrorView::ServiceUnavailable)
    }
}

/// Classify an upstream translation response into the translator's result.
///
/// `status` is the HTTP status code of the response; `response` is its
/// parsed body, or `None` when the body could not be read as a translation
/// response.
pub fn evaluate_translation_response(status: u16, response: Option<TranslationResponse>) -> (r:
    Result<String, TranslationError>)
    ensures
        translation_result_view(r) == translation_outcome(status, response.deep_view()),
{
    if 200 <= status && status < 300 {
        match response {
            Some(t) => {
                if str_eq(t.contents.translation.as_str(), "shakespeare") {
                    Ok(t.contents.translated)
                } else {
                    Err(TranslationError::TranslationFailed)
                }
            },
            None => Err(TranslationError::TranslationFailed),
        }
    } else {
        Err(TranslationError::ServiceUnavailable)
    }
}

} // verus!
