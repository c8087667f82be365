//! Data returned to callers of the service endpoint: the successful payload
//! and the wire-facing error wrapper.

use vstd::prelude::*;

verus! {

/// Mathematical view of [`PokemonData`]: the confirmed species name and the
/// final description, as character sequences.
pub struct PokemonDataView {
    pub name: Seq<char>,
    pub description: Seq<char>,
}

/// The payload of a successful request: the species name as confirmed by the
/// description provider, and the selected, normalized and translated
/// description.
#[derive(Debug, Clone, PartialEq, Eq)]
pub struct PokemonData {
    pub name: String,
    pub description: String,
}

impl View for PokemonData {
    type V = PokemonDataView;

    open spec fn view(&self) -> PokemonDataView {
        PokemonDataView { name: self.name@, description: self.description@ }
    }
}

impl DeepView for PokemonData {
    type V = PokemonDataView;

    open spec fn deep_view(&self) -> PokemonDataView {
        self.view()
    }
}

/// Wire-facing wrapper for error responses, holding one human-readable
/// message.
#[derive(Debug)]
pub struct ErrorMessage {
    pub message: String,
}

impl ErrorMessage {
    pub fn new(message: String) -> (r: Self)
        ensures
            r.message@ == message@,
    {
        ErrorMessage { message }
    }
}

} // verus!
