//! The description-provider side of the pipeline: the fields read from the
//! upstream species record, the deterministic selection of one description
//! among its entries, and the classification of an upstream response into a
//! fetch outcome.

use vstd::prelude::*;

use crate::model::{PokemonData, PokemonDataView};
use crate::services::pokemon::{fetch_result_view, PokemonServiceError, PokemonServiceErrorView};
use crate::text::{clean_flavor_text, normalize_ws, str_eq};

verus! {

/// Mathematical view of [`Language`].
pub struct LanguageView {
    pub name: Seq<char>,
}

/// The language tag of one description entry.
#[derive(Debug)]
pub struct Language {
    pub name: String,
}

impl DeepView for Language {
    type V = LanguageView;

    open spec fn deep_view(&self) -> LanguageView {
        LanguageView { name: self.name@ }
    }
}

/// Mathematical view of [`Version`].
pub struct VersionView {
    pub name: Seq<char>,
}

/// The provenance tag of one description entry; not used for selection.
#[derive(Debug)]
pub struct Version {
    pub name: String,
}

impl DeepView for Version {
    type V = VersionView;

    open spec fn deep_view(&self) -> VersionView {
        VersionView { name: self.name@ }
    }
}

/// Mathematical view of [`FlavorEntry`].
pub struct FlavorEntryView {
    pub flavor_text: Seq<char>,
    pub language: LanguageView,
    pub version: VersionView,
}

/// One raw candidate description from the upstream species record: free text
/// with a language tag and a provenance tag.
#[derive(Debug)]
pub struct FlavorEntry {
    pub flavor_text: String,
    pub language: Language,
    pub version: Version,
}

impl DeepView for FlavorEntry {
    type V = FlavorEntryView;

    open spec fn deep_view(&self) -> FlavorEntryView {
        FlavorEntryView {
            flavor_text: self.flavor_text@,
            language: self.language.deep_view(),
            version: self.version.deep_view(),
        }
    }
}

/// Mathematical view of [`PokemonSpecies`].
pub struct PokemonSpeciesView {
    pub name: Seq<char>,
    pub flavor_text_entries: Seq<FlavorEntryView>,
}

/// The fields read from the upstream species record: the canonical name and
/// the ordered list of description entries. Every other upstream field is
/// ignored.
#[derive(Debug)]
pub struct PokemonSpecies {
    pub name: String,
    pub flavor_text_entries: Vec<FlavorEntry>,
}

impl DeepView for PokemonSpecies {
    type V = PokemonSpeciesView;

    open spec fn deep_view(&self) -> PokemonSpeciesView {
        PokemonSpeciesView {
            name: self.name@,
            flavor_text_entries: self.flavor_text_entries.deep_view(),
        }
    }
}

/// The fixed preferred language tag: only English descriptions are
/// considered.
pub open spec fn english_tag() -> Seq<char> {
    "en"@
}

/// The selection rule on entry sequences: scanning in reverse of the
/// original order, the normalized text of the first entry whose language tag
/// equals `lang`; `None` when no entry matches.
pub open spec fn select_spec(entries: Seq<FlavorEntryView>, lang: Seq<char>) -> Option<Seq<char>>
    decreases entries.len(),
{
    if entries.len() == 0 {
        None
    } else if entries.last().language.name == lang {
        Some(normalize_ws(entries.last().flavor_text))
    } else {
        select_spec(entries.drop_last(), lang)
    }
}

/// Choose the last entry, by original order, whose language tag is English,
/// and return its text with white space collapsed; `None` when no entry is
/// in English.
pub fn select_description(entries: Vec<FlavorEntry>) -> (r: Option<String>)
    ensures
        (match r {
            Some(s) => Some(s@),
            None => None,
        }) == select_spec(entries.deep_view(), english_tag()),
{
    let ghost all = entries.deep_view();
    let mut i: usize = entries.len();
    proof {
        assert(all.take(entries.len() as int) =~= all);
    }
    while i > 0
        invariant
            i <= entries.len(),
            all == entries.deep_view(),
            select_spec(all, english_tag()) == select_spec(all.take(i as int), english_tag()),
        decreases i,
    {
        i = i - 1;
        let ghost prefix = all.take(i as int + 1);
        proof {
            assert(prefix.last() == all[i as int]);
            assert(prefix.drop_last() =~= all.take(i as int));
        }
        if str_eq(entries[i].language.name.as_str(), "en") {
            return Some(clean_flavor_text(entries[i].flavor_text.as_str()));
        }
    }
    proof {
        assert(all.take(0) =~= Seq::<FlavorEntryView>::empty());
    }
    None
}

/// The selected entry is always the last match by original order: if `j` is
/// the last index whose language tag equals `lang`, selection returns that
/// entry's normalized text.
pub proof fn lemma_select_is_last_match(entries: Seq<FlavorEntryView>, lang: Seq<char>, j: int)
    requires
        0 <= j < entries.len(),
        entries[j].language.name == lang,
        forall|k: int| j < k < entries.len() ==> (#[trigger] entries[k].language.name) != lang,
    ensures
        select_spec(entries, lang) == Some(normalize_ws(entries[j].flavor_text)),
    decreases entries.len(),
{
    if j == entries.len() - 1 {
    } else {
        assert(entries.drop_last()[j] == entries[j]);
        assert(forall|k: int|
            j < k < entries.drop_last().len() ==> (#[trigger] entries.drop_last()[k]).language.name
                != lang);
        lemma_select_is_last_match(entries.drop_last(), lang, j);
    }
}

/// The fetch outcome determined by an upstream response: a success status
/// with a readable record yields the selected description or, when no entry
/// matches, absence under the record's canonical name; a success status with
/// an unreadable body counts as unavailability; a not-found status is
/// absence under the requested name; any other status is unavailability.
pub open spec fn species_outcome(
    requested: Seq<char>,
    status: u16,
    species: Option<PokemonSpeciesView>,
) -> Result<PokemonDataView, PokemonServiceErrorView> {
    if 200 <= status < 300 {
        match species {
            Some(sp) => match select_spec(sp.flavor_text_entries, english_tag()) {
                Some(d) => Ok(PokemonDataView { name: sp.name, description: d }),
                None => Err(PokemonServiceErrorView::NoSuchPokemon { name: sp.name }),
            },
            None => Err(PokemonServiceErrorView::ServiceUnavailable),
        }
    } else if status == 404 {
        Err(PokemonServiceErrorView::NoSuchPokemon { name: requested })
    } else {
        Err(PokemonServiceErrorView::ServiceUnavailable)
    }
}

/// Classify an upstream species response into the provider's fetch result.
///
/// `status` is the HTTP status code of the response; `species` is its parsed
/// body, or `None` when the body could not be read as a species record.
pub fn evaluate_species_response(
    requested: &str,
    status: u16,
    species: Option<PokemonSpecies>,
) -> (r: Result<PokemonData, PokemonServiceError>)
    ensures
        fetch_result_view(r) == species_outcome(requested@, status, species.deep_view()),
{
    if 200 <= status && status < 300 {
        match species {
            Some(sp) => {
                let PokemonSpecies { name, flavor_text_entries } = sp;
                match select_description(flavor_text_entries) {
                    Some(description) => Ok(PokemonData { name, description }),
                    None => Err(PokemonServiceError::NoSuchPokemon(name)),
                }
            },
            None => Err(PokemonServiceError::ServiceUnavailable),
        }
    } else if status == 404 {
        Err(PokemonServiceError::NoSuchPokemon(String::from_str(requested)))
    } else {
        Err(PokemonServiceError::ServiceUnavailable)
    }
}

/// When no entry's language tag equals `lang`, selection returns nothing.
pub proof fn lemma_select_none(entries: Seq<FlavorEntryView>, lang: Seq<char>)
    requires
        forall|k: int| 0 <= k < entries.len() ==> (#[trigger] entries[k].language.name) != lang,
    ensures
        select_spec(entries, lang) is None,
    decreases entries.len(),
{
    if entries.len() > 0 {
        assert(forall|k: int|
            0 <= k < entries.drop_last().len() ==> (#[trigger] entries.drop_last()[k]).language.name
                != lang);
        lemma_select_none(entries.drop_last(), lang);
    }
}

} // verus!
