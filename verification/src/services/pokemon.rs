//! The description-provider capability: a service that can return the
//! canonical name and selected description of a species, or a typed failure.

use vstd::prelude::*;

use crate::model::{PokemonData, PokemonDataView};

verus! {

/// Mathematical view of [`PokemonServiceError`].
pub enum PokemonServiceErrorView {
    ServiceUnavailable,
    NoSuchPokemon { name: Seq<char> },
}

/// Failure of the description provider.
#[derive(Debug, PartialEq, Eq)]
pub enum PokemonServiceError {
    /// The service could not produce a result for any reason other than the
    /// record not existing.
    ServiceUnavailable,
    /// There is no species with the specified name available to the service.
    NoSuchPokemon(String),
}

impl View for PokemonServiceError {
    type V = PokemonServiceErrorView;

    open spec fn view(&self) -> PokemonServiceErrorView {
        match self {
            PokemonServiceError::ServiceUnavailable => PokemonServiceErrorView::ServiceUnavailable,
            PokemonServiceError::NoSuchPokemon(name) => PokemonServiceErrorView::NoSuchPokemon {
                name: name@,
            },
        }
    }
}

impl PokemonServiceError {
    /// The human-readable rendering of this failure.
    pub fn message(&self) -> (r: String)
        ensures
            self is ServiceUnavailable ==> r@ == "The Pokemon service is not currently available."@,
            self matches PokemonServiceError::NoSuchPokemon(name) ==> r@
                == "There is no Pokemon with name:  \""@ + name@ + "\"."@,
    {
        match self {
            PokemonServiceError::ServiceUnavailable => String::from_str(
                "The Pokemon service is not currently available.",
            ),
            PokemonServiceError::NoSuchPokemon(name) => {
                let mut s = String::from_str("There is no Pokemon with name:  \"");
                s.append(name.as_str());
                s.append("\".");
                s
            },
        }
    }
}

/// The fetch result as the contracts speak of it: views on both sides.
pub open spec fn fetch_result_view(r: Result<PokemonData, PokemonServiceError>) -> Result<
    PokemonDataView,
    PokemonServiceErrorView,
> {
    match r {
        Ok(data) => Ok(data@),
        Err(e) => Err(e@),
    }
}

/// A service that can provide descriptions of species given their name.
///
/// Each implementation fixes, through [`PokemonService::fetch_spec`], what
/// outcome it yields for a given request, and its `get_pokemon` must return
/// exactly that outcome.
pub trait PokemonService: Sized {
    /// The outcome this provider yields for the given requested name.
    spec fn fetch_spec(&self, name: Seq<char>) -> Result<PokemonDataView, PokemonServiceErrorView>;

    /// Attempt to get the description for a species with the specified name.
    fn get_pokemon(&self, name: &str) -> (r: Result<PokemonData, PokemonServiceError>)
        ensures
            fetch_result_view(r) == self.fetch_spec(name@),
    ;
}

} // verus!
