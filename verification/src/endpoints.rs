//! The request orchestration pipeline: validate the requested name, fetch
//! the description, translate it, and surface one unified error taxonomy
//! with fixed HTTP-status semantics.

use vstd::prelude::*;

use crate::model::{ErrorMessage, PokemonData, PokemonDataView};
use crate::services::pokemon::{PokemonService, PokemonServiceError, PokemonServiceErrorView};
use crate::services::translation::{TranslationError, TranslationErrorView, TranslationService};
use crate::text::{valid_name, validate_name};

verus! {

/// Mathematical view of [`ServiceError`].
pub enum ServiceErrorView {
    NoSuchPokemon { name: Seq<char> },
    TranslationFailed,
    ServiceUnavailable,
}

/// Combined error type for the service, convertible to an HTTP error
/// response.
#[derive(Debug, Clone, PartialEq, Eq)]
pub enum ServiceError {
    /// No species of that name exists (404).
    NoSuchPokemon(String),
    /// The description could not be translated (500).
    TranslationFailed,
    /// One of the upstream services could not provide a reply (503).
    ServiceUnavailable,
}

impl View for ServiceError {
    type V = ServiceErrorView;

    open spec fn view(&self) -> ServiceErrorView {
        match self {
            ServiceError::NoSuchPokemon(name) => ServiceErrorView::NoSuchPokemon { name: name@ },
            ServiceError::TranslationFailed => ServiceErrorView::TranslationFailed,
            ServiceError::ServiceUnavailable => ServiceErrorView::ServiceUnavailable,
        }
    }
}

/// How each provider failure enters the unified taxonomy: both variants keep
/// their meaning unchanged.
pub open spec fn unified_of_fetch(e: PokemonServiceErrorView) -> ServiceErrorView {
    match e {
        PokemonServiceErrorView::ServiceUnavailable => ServiceErrorView::ServiceUnavailable,
        PokemonServiceErrorView::NoSuchPokemon { name } => ServiceErrorView::NoSuchPokemon { name },
    }
}

/// How each translator failure enters the unified taxonomy: unavailability
/// stays unavailability, a failed translation becomes the 500-class error.
pub open spec fn unified_of_translation(e: TranslationErrorView) -> ServiceErrorView {
    match e {
        TranslationErrorView::ServiceUnavailable => ServiceErrorView::ServiceUnavailable,
        TranslationErrorView::TranslationFailed => ServiceErrorView::TranslationFailed,
    }
}

impl From<PokemonServiceError> for ServiceError {
    fn from(e: PokemonServiceError) -> (r: Self) {
        match e {
            PokemonServiceError::ServiceUnavailable => ServiceError::ServiceUnavailable,
            PokemonServiceError::NoSuchPokemon(name) => ServiceError::NoSuchPokemon(name),
        }
    }
}

impl vstd::std_specs::convert::FromSpecImpl<PokemonServiceError> for ServiceError {
    open spec fn obeys_from_spec() -> bool {
        true
    }

    open spec fn from_spec(e: PokemonServiceError) -> Self {
        match e {
            PokemonServiceError::ServiceUnavailable => ServiceError::ServiceUnavailable,
            PokemonServiceError::NoSuchPokemon(name) => ServiceError::NoSuchPokemon(name),
        }
    }
}

impl From<TranslationError> for ServiceError {
    fn from(e: TranslationError) -> (r: Self) {
        match e {
            TranslationError::ServiceUnavailable => ServiceError::ServiceUnavailable,
            TranslationError::TranslationFailed => ServiceError::TranslationFailed,
        }
    }
}

impl vstd::std_specs::convert::FromSpecImpl<TranslationError> for ServiceError {
    open spec fn obeys_from_spec() -> bool {
        true
    }

    open spec fn from_spec(e: TranslationError) -> Self {
        match e {
            TranslationError::ServiceUnavailable => ServiceError::ServiceUnavailable,
            TranslationError::TranslationFailed => ServiceError::TranslationFailed,
        }
    }
}

/// The fixed HTTP status of each unified error: absence is 404, a failed
/// translation 500, unavailability 503.
pub open spec fn status_of(e: ServiceErrorView) -> u16 {
    match e {
        ServiceErrorView::NoSuchPokemon { .. } => 404,
        ServiceErrorView::TranslationFailed => 500,
        ServiceErrorView::ServiceUnavailable => 503,
    }
}

impl ServiceError {
    /// The HTTP status code of this error.
    pub fn status_code(&self) -> (code: u16)
        ensures
            code == status_of(self@),
    {
        match self {
            ServiceError::NoSuchPokemon(_) => 404,
            ServiceError::TranslationFailed => 500,
            ServiceError::ServiceUnavailable => 503,
        }
    }

    /// The human-readable rendering of this error.
    pub fn message(&self) -> (r: String)
        ensures
            self is NoSuchPokemon ==> r@ == "no record with that name"@,
            self is TranslationFailed ==> r@ == "translation could not be completed"@,
            self is ServiceUnavailable ==> r@ == "dependent service is currently unavailable"@,
    {
        match self {
            ServiceError::NoSuchPokemon(_) => String::from_str("no record with that name"),
            ServiceError::TranslationFailed => String::from_str(
                "translation could not be completed",
            ),
            ServiceError::ServiceUnavailable => String::from_str(
                "dependent service is currently unavailable",
            ),
        }
    }

    /// Map this error to its transport-facing form: the fixed status code
    /// and the wire-facing message wrapper.
    pub fn to_response(&self) -> (r: (u16, ErrorMessage))
        ensures
            r.0 == status_of(self@),
            self is NoSuchPokemon ==> r.1.message@ == "no record with that name"@,
            self is TranslationFailed ==> r.1.message@ == "translation could not be completed"@,
            self is ServiceUnavailable ==> r.1.message@
                == "dependent service is currently unavailable"@,
    {
        (self.status_code(), ErrorMessage::new(self.message()))
    }
}

/// The status mapping is total and produces exactly the three codes 404, 500
/// and 503, one for each unified error kind and never any other code.
pub proof fn lemma_status_codes(e: ServiceErrorView)
    ensures
        status_of(e) == 404 || status_of(e) == 500 || status_of(e) == 503,
        status_of(e) == 404 <==> e is NoSuchPokemon,
        status_of(e) == 500 <==> e is TranslationFailed,
        status_of(e) == 503 <==> e is ServiceUnavailable,
{
}

/// The outcome of one request against the given providers: an ill-shaped
/// name is absence; otherwise the fetch outcome decides, and on fetched data
/// the translation outcome decides; both calls' success yields the payload
/// of the canonical name and the translated text.
pub open spec fn handle_spec<P: PokemonService, T: TranslationService>(
    pokemon: P,
    translation: T,
    name: Seq<char>,
) -> Result<PokemonDataView, ServiceErrorView> {
    if !valid_name(name) {
        Err(ServiceErrorView::NoSuchPokemon { name })
    } else {
        match pokemon.fetch_spec(name) {
            Err(e) => Err(unified_of_fetch(e)),
            Ok(data) => match translation.translate_spec(data.description) {
                Err(e) => Err(unified_of_translation(e)),
                Ok(t) => Ok(PokemonDataView { name: data.name, description: t }),
            },
        }
    }
}

/// The request result as the contracts speak of it: views on both sides.
pub open spec fn handle_result_view(r: Result<PokemonData, ServiceError>) -> Result<
    PokemonDataView,
    ServiceErrorView,
> {
    match r {
        Ok(data) => Ok(data@),
        Err(e) => Err(e@),
    }
}

/// Handle one request: validate the name, fetch the description, translate
/// it, and construct the payload; strictly sequential, with no step
/// attempted after a prior failure and no partial success.
pub fn handle_request<P: PokemonService, T: TranslationService>(
    name: &str,
    pokemon_service: &P,
    translation_service: &T,
) -> (r: Result<PokemonData, ServiceError>)
    ensures
        handle_result_view(r) == handle_spec(*pokemon_service, *translation_service, name@),
{
    if !validate_name(name) {
        return Err(ServiceError::NoSuchPokemon(String::from_str(name)));
    }
    match pokemon_service.get_pokemon(name) {
        Err(e) => Err(ServiceError::from(e)),
        Ok(data) => match translation_service.attempt_translation(data.description.as_str()) {
            Err(e) => Err(ServiceError::from(e)),
            Ok(translated) => Ok(PokemonData { name: data.name, description: translated }),
        },
    }
}

/// An identifier failing the shape rule yields absence under the requested
/// name, whatever the providers would do: no upstream outcome enters the
/// result.
pub proof fn lemma_invalid_name_not_found<P: PokemonService, T: TranslationService>(
    pokemon: P,
    translation: T,
    name: Seq<char>,
)
    requires
        !valid_name(name),
    ensures
        handle_spec(pokemon, translation, name) == Err::<PokemonDataView, ServiceErrorView>(
            ServiceErrorView::NoSuchPokemon { name },
        ),
{
}

/// When the fetch fails with unavailability, the request fails with
/// unavailability, whatever the translator would do: translation never
/// enters the result.
pub proof fn lemma_fetch_unavailable<P: PokemonService, T: TranslationService>(
    pokemon: P,
    translation: T,
    name: Seq<char>,
)
    requires
        valid_name(name),
        pokemon.fetch_spec(name) == Err::<PokemonDataView, PokemonServiceErrorView>(
            PokemonServiceErrorView::ServiceUnavailable,
        ),
    ensures
        handle_spec(pokemon, translation, name) == Err::<PokemonDataView, ServiceErrorView>(
            ServiceErrorView::ServiceUnavailable,
        ),
{
}

/// When the fetch succeeds but the translation fails, the request fails
/// with the translation-failed error: the payload is never constructed.
pub proof fn lemma_translation_failed<P: PokemonService, T: TranslationService>(
    pokemon: P,
    translation: T,
    name: Seq<char>,
    data: PokemonDataView,
)
    requires
        valid_name(name),
        pokemon.fetch_spec(name) == Ok::<PokemonDataView, PokemonServiceErrorView>(data),
        translation.translate_spec(data.description) == Err::<Seq<char>, TranslationErrorView>(
            TranslationErrorView::TranslationFailed,
        ),
    ensures
        handle_spec(pokemon, translation, name) == Err::<PokemonDataView, ServiceErrorView>(
            ServiceErrorView::TranslationFailed,
        ),
{
}

/// When both calls succeed, the request yields the payload of the canonical
/// name returned by the provider and the translated text.
pub proof fn lemma_both_succeed<P: PokemonService, T: TranslationService>(
    pokemon: P,
    translation: T,
    name: Seq<char>,
    data: PokemonDataView,
    translated: Seq<char>,
)
    requires
        valid_name(name),
        pokemon.fetch_spec(name) == Ok::<PokemonDataView, PokemonServiceErrorView>(data),
        translation.translate_spec(data.description) == Ok::<Seq<char>, TranslationErrorView>(
            translated,
        ),
    ensures
        handle_spec(pokemon, translation, name) == Ok::<PokemonDataView, ServiceErrorView>(
            PokemonDataView { name: data.name, description: translated },
        ),
{
}

} // verus!
