//! The style-translator capability: a service that can transform a selected
//! description, or fail with a typed error.

use vstd::prelude::*;

verus! {

/// Mathematical view of [`TranslationError`].
pub enum TranslationErrorView {
    ServiceUnavailable,
    TranslationFailed,
}

/// Failure of the style translator.
#[derive(Debug, PartialEq, Eq)]
pub enum TranslationError {
    /// The service could not produce a result for any reason other than the
    /// record not existing.
    ServiceUnavailable,
    /// It was not possible to translate the text.
    TranslationFailed,
}

impl View for TranslationError {
    type V = TranslationErrorView;

    open spec fn view(&self) -> TranslationErrorView {
        match self {
            TranslationError::ServiceUnavailable => TranslationErrorView::ServiceUnavailable,
            TranslationError::TranslationFailed => TranslationErrorView::TranslationFailed,
        }
    }
}

impl TranslationError {
    /// The human-readable rendering of this failure.
    pub fn message(&self) -> (r: String)
        ensures
            self is ServiceUnavailable ==> r@ == "The translation service is currently unavailable."@,
            self is TranslationFailed ==> r@ == "The text could not be translated."@,
    {
        match self {
            TranslationError::ServiceUnavailable => String::from_str(
                "The translation service is currently unavailable.",
            ),
            TranslationError::TranslationFailed => String::from_str(
                "The text could not be translated.",
            ),
        }
    }
}

/// The translation result as the contracts speak of it: views on both sides.
pub open spec fn translation_result_view(r: Result<String, TranslationError>) -> Result<
    Seq<char>,
    TranslationErrorView,
> {
    match r {
        Ok(text) => Ok(text@),
        Err(e) => Err(e@),
    }
}

/// A service that can translate the description of a species.
///
/// Each implementation fixes, through [`TranslationService::translate_spec`],
/// what outcome it yields for a given source text, and its
/// `attempt_translation` must return exactly that outcome.
pub trait TranslationService: Sized {
    /// The outcome this translator yields for the given source text.
    spec fn translate_spec(&self, text: Seq<char>) -> Result<Seq<char>, TranslationErrorView>;

    /// Attempt to translate a description.
    fn attempt_translation(&self, text: &str) -> (r: Result<String, TranslationError>)
        ensures
            translation_result_view(r) == self.translate_spec(text@),
    ;
}

} // verus!
