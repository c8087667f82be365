//! In-memory implementations of the two capability interfaces. They stand in
//! for the remote providers wherever no network is wanted: tests drive the
//! orchestrator through them, and their contracts show what any
//! implementation of the interfaces must deliver.

use vstd::prelude::*;

use crate::model::{PokemonData, PokemonDataView};
use crate::services::pokemon::{
    fetch_result_view, PokemonService, PokemonServiceError, PokemonServiceErrorView,
};
use crate::services::translation::{
    translation_result_view, TranslationError, TranslationErrorView, TranslationService,
};
use crate::text::push_char;

verus! {

/// First record whose name equals `name`, scanning in original order.
pub open spec fn lookup(entries: Seq<PokemonDataView>, name: Seq<char>) -> Option<PokemonDataView>
    decreases entries.len(),
{
    if entries.len() == 0 {
        None
    } else if entries[0].name == name {
        Some(entries[0])
    } else {
        lookup(entries.drop_first(), name)
    }
}

/// A description provider backed by a fixed table of records.
pub enum FakePokeService {
    /// Every request fails with unavailability.
    Unavailable,
    /// Requests are answered from the records held here.
    Containing(Vec<PokemonData>),
}

impl FakePokeService {
    /// A provider holding exactly one record.
    pub fn with(name: &str, description: &str) -> (r: Self)
        ensures
            forall|n: Seq<char>| #[trigger]
                r.fetch_spec(n) == if n == name@ {
                    Ok::<PokemonDataView, PokemonServiceErrorView>(
                        PokemonDataView { name: name@, description: description@ },
                    )
                } else {
                    Err::<PokemonDataView, PokemonServiceErrorView>(
                        PokemonServiceErrorView::NoSuchPokemon { name: n },
                    )
                },
    {
        let mut records: Vec<PokemonData> = Vec::new();
        records.push(
            PokemonData {
                name: String::from_str(name),
                description: String::from_str(description),
            },
        );
        let ghost entries = records.deep_view();
        let r = FakePokeService::Containing(records);
        proof {
            assert(entries.len() == 1);
            assert(entries[0] == PokemonDataView { name: name@, description: description@ });
            assert forall|n: Seq<char>| #[trigger]
                r.fetch_spec(n) == if n == name@ {
                    Ok::<PokemonDataView, PokemonServiceErrorView>(
                        PokemonDataView { name: name@, description: description@ },
                    )
                } else {
                    Err::<PokemonDataView, PokemonServiceErrorView>(
                        PokemonServiceErrorView::NoSuchPokemon { name: n },
                    )
                } by {
                assert(entries.drop_first().len() == 0);
                if n == name@ {
                    assert(lookup(entries, n) == Some(entries[0]));
                } else {
                    assert(lookup(entries, n) == lookup(entries.drop_first(), n));
                    assert(lookup(entries.drop_first(), n) is None);
                }
            }
        }
        r
    }
}

impl PokemonService for FakePokeService {
    open spec fn fetch_spec(&self, name: Seq<char>) -> Result<
        PokemonDataView,
        PokemonServiceErrorView,
    > {
        match self {
            FakePokeService::Unavailable => Err(PokemonServiceErrorView::ServiceUnavailable),
            FakePokeService::Containing(records) => match lookup(records.deep_view(), name) {
                Some(data) => Ok(data),
                None => Err(PokemonServiceErrorView::NoSuchPokemon { name }),
            },
        }
    }

    fn get_pokemon(&self, name: &str) -> (r: Result<PokemonData, PokemonServiceError>)
        ensures
            fetch_result_view(r) == self.fetch_spec(name@),
    {
        match self {
            FakePokeService::Unavailable => Err(PokemonServiceError::ServiceUnavailable),
            FakePokeService::Containing(records) => {
                let ghost all = records.deep_view();
                let mut i: usize = 0;
                proof {
                    assert(all.skip(0) =~= all);
                }
                #[verifier::loop_isolation(false)]
                while i < records.len()
                    invariant
                        i <= records.len(),
                        all == records.deep_view(),
                        lookup(all, name@) == lookup(all.skip(i as int), name@),
                    decreases records.len() - i,
                {
                    proof {
                        assert(all.skip(i as int)[0] == all[i as int]);
                        assert(all.skip(i as int).drop_first() =~= all.skip(i as int + 1));
                    }
                    if crate::text::str_eq(records[i].name.as_str(), name) {
                        let found = PokemonData {
                            name: records[i].name.clone(),
                            description: records[i].description.clone(),
                        };
                        proof {
                            assert(all[i as int] == records@[i as int].deep_view());
                            assert(found@ == all[i as int]);
                            assert(lookup(all.skip(i as int), name@) == Some(all[i as int]));
                        }
                        return Ok(found);
                    }
                    i = i + 1;
                }
                proof {
                    assert(all.skip(records.len() as int) =~= Seq::<PokemonDataView>::empty());
                }
                Err(PokemonServiceError::NoSuchPokemon(String::from_str(name)))
            },
        }
    }
}

/// The character transformation applied by [`FakeTranslationService::Succeed`]:
/// ASCII lower-case letters become upper case, everything else is unchanged.
pub open spec fn ascii_upper_char(c: char) -> char {
    if 0x61 <= c as u32 && c as u32 <= 0x7a {
        ((c as u32) - 0x20) as char
    } else {
        c
    }
}

/// [`ascii_upper_char`] applied to every character.
pub open spec fn ascii_upper(s: Seq<char>) -> Seq<char> {
    Seq::new(s.len(), |i: int| ascii_upper_char(s[i]))
}

/// Upper-case every ASCII letter of `text`.
pub fn ascii_uppercase(text: &str) -> (r: String)
    ensures
        r@ == ascii_upper(text@),
{
    let n = text.unicode_len();
    let mut out = String::new();
    let mut i: usize = 0;
    while i < n
        invariant
            n == text@.len(),
            i <= n,
            out@ =~= ascii_upper(text@).take(i as int),
        decreases n - i,
    {
        let c = text.get_char(i);
        let u = c as u32;
        if 0x61 <= u && u <= 0x7a {
            push_char(&mut out, ((u - 0x20) as u8) as char);
        } else {
            push_char(&mut out, c);
        }
        i = i + 1;
    }
    proof {
        assert(ascii_upper(text@).take(n as int) =~= ascii_upper(text@));
    }
    out
}

/// A style translator with a scripted outcome.
pub enum FakeTranslationService {
    /// Every request fails with unavailability.
    Unavailable,
    /// Every request fails with a failed translation.
    Fail,
    /// Every request succeeds, upper-casing the text.
    Succeed,
}

impl TranslationService for FakeTranslationService {
    open spec fn translate_spec(&self, text: Seq<char>) -> Result<Seq<char>, TranslationErrorView> {
        match self {
            FakeTranslationService::Unavailable => Err(TranslationErrorView::ServiceUnavailable),
            FakeTranslationService::Fail => Err(TranslationErrorView::TranslationFailed),
            FakeTranslationService::Succeed => Ok(ascii_upper(text)),
        }
    }

    fn attempt_translation(&self, text: &str) -> (r: Result<String, TranslationError>)
        ensures
            translation_result_view(r) == self.translate_spec(text@),
    {
        match self {
            FakeTranslationService::Unavailable => Err(TranslationError::ServiceUnavailable),
            FakeTranslationService::Fail => Err(TranslationError::TranslationFailed),
            FakeTranslationService::Succeed => Ok(ascii_uppercase(text)),
        }
    }
}

} // verus!
