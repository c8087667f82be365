//! The request pipeline against scripted providers, the classification of
//! upstream responses, and the unified error mapping.

use pokemon_translator::endpoints::{handle_request, ServiceError};
use pokemon_translator::fakes::{FakePokeService, FakeTranslationService};
use pokemon_translator::model::{ErrorMessage, PokemonData};
use pokemon_translator::poke_api::{
    evaluate_species_response, FlavorEntry, Language, PokemonSpecies, Version,
};
use pokemon_translator::services::pokemon::PokemonServiceError;
use pokemon_translator::services::translation::TranslationError;
use pokemon_translator::shakespeare_api::{
    evaluate_translation_response, Translation, TranslationResponse,
};

#[test]
fn combined_services_nominal() {
    let poke_service = FakePokeService::with("name", "A description.");
    let trans_service = FakeTranslationService::Succeed;

    let result = handle_request("name", &poke_service, &trans_service);

    assert_eq!(
        result,
        Ok(PokemonData {
            name: "name".to_string(),
            description: "A DESCRIPTION.".to_string()
        })
    );
}

#[test]
fn pokemon_service_unavailable() {
    let poke_service = FakePokeService::Unavailable;
    let trans_service = FakeTranslationService::Succeed;

    let result = handle_request("name", &poke_service, &trans_service);

    assert_eq!(result, Err(ServiceError::ServiceUnavailable));
}

#[test]
fn translations_unavailable() {
    let poke_service = FakePokeService::with("name", "A description.");
    let trans_service = FakeTranslationService::Unavailable;

    let result = handle_request("name", &poke_service, &trans_service);

    assert_eq!(result, Err(ServiceError::ServiceUnavailable));
}

#[test]
fn translation_failed() {
    let poke_service = FakePokeService::with("name", "A description.");
    let trans_service = FakeTranslationService::Fail;

    let result = handle_request("name", &poke_service, &trans_service);

    assert_eq!(result, Err(ServiceError::TranslationFailed));
}

#[test]
fn pokemon_not_found() {
    let poke_service = FakePokeService::with("name", "A description.");
    let trans_service = FakeTranslationService::Succeed;

    let result = handle_request("other", &poke_service, &trans_service);

    assert_eq!(
        result,
        Err(ServiceError::NoSuchPokemon("other".to_string()))
    );
}

#[test]
fn ill_shaped_name_is_not_found() {
    let poke_service = FakePokeService::with("bad name", "A description.");
    let trans_service = FakeTranslationService::Succeed;

    let result = handle_request("bad name", &poke_service, &trans_service);

    assert_eq!(
        result,
        Err(ServiceError::NoSuchPokemon("bad name".to_string()))
    );
}

#[test]
fn error_http_status_codes() {
    assert_eq!(ServiceError::ServiceUnavailable.status_code(), 503);
    assert_eq!(ServiceError::TranslationFailed.status_code(), 500);
    assert_eq!(
        ServiceError::NoSuchPokemon("name".to_string()).status_code(),
        404
    );
}

#[test]
fn error_responses() {
    let (code, msg) = ServiceError::NoSuchPokemon("name".to_string()).to_response();
    assert_eq!(code, 404);
    assert_eq!(msg.message, "no record with that name");

    let (code, msg) = ServiceError::TranslationFailed.to_response();
    assert_eq!(code, 500);
    assert_eq!(msg.message, "translation could not be completed");

    let (code, msg) = ServiceError::ServiceUnavailable.to_response();
    assert_eq!(code, 503);
    assert_eq!(msg.message, "dependent service is currently unavailable");
}

#[test]
fn error_message_wraps_text() {
    let msg = ErrorMessage::new("anything".to_string());
    assert_eq!(msg.message, "anything");
}

#[test]
fn service_error_messages() {
    assert_eq!(
        PokemonServiceError::ServiceUnavailable.message(),
        "The Pokemon service is not currently available."
    );
    assert_eq!(
        PokemonServiceError::NoSuchPokemon("mew".to_string()).message(),
        "There is no Pokemon with name:  \"mew\"."
    );
    assert_eq!(
        TranslationError::ServiceUnavailable.message(),
        "The translation service is currently unavailable."
    );
    assert_eq!(
        TranslationError::TranslationFailed.message(),
        "The text could not be translated."
    );
}

fn sample_species() -> PokemonSpecies {
    PokemonSpecies {
        name: "pikachu".to_string(),
        flavor_text_entries: vec![
            FlavorEntry {
                flavor_text: "An old\nentry.".to_string(),
                language: Language {
                    name: "en".to_string(),
                },
                version: Version {
                    name: "a".to_string(),
                },
            },
            FlavorEntry {
                flavor_text: "A mouse.".to_string(),
                language: Language {
                    name: "en".to_string(),
                },
                version: Version {
                    name: "b".to_string(),
                },
            },
            FlavorEntry {
                flavor_text: "Eine Maus.".to_string(),
                language: Language {
                    name: "de".to_string(),
                },
                version: Version {
                    name: "b".to_string(),
                },
            },
        ],
    }
}

#[test]
fn species_response_success_selects_description() {
    let result = evaluate_species_response("PIKACHU", 200, Some(sample_species()));
    assert_eq!(
        result,
        Ok(PokemonData {
            name: "pikachu".to_string(),
            description: "A mouse.".to_string()
        })
    );
}

#[test]
fn species_response_without_usable_entry_is_absence() {
    let species = PokemonSpecies {
        name: "pikachu".to_string(),
        flavor_text_entries: vec![FlavorEntry {
            flavor_text: "Eine Maus.".to_string(),
            language: Language {
                name: "de".to_string(),
            },
            version: Version {
                name: "b".to_string(),
            },
        }],
    };
    let result = evaluate_species_response("pikachu", 200, Some(species));
    assert_eq!(
        result,
        Err(PokemonServiceError::NoSuchPokemon("pikachu".to_string()))
    );
}

#[test]
fn species_response_unreadable_body_is_unavailable() {
    let result = evaluate_species_response("pikachu", 200, None);
    assert_eq!(result, Err(PokemonServiceError::ServiceUnavailable));
}

#[test]
fn species_response_not_found_status() {
    let result = evaluate_species_response("missingno", 404, None);
    assert_eq!(
        result,
        Err(PokemonServiceError::NoSuchPokemon("missingno".to_string()))
    );
}

#[test]
fn species_response_other_status_is_unavailable() {
    let result = evaluate_species_response("pikachu", 500, None);
    assert_eq!(result, Err(PokemonServiceError::ServiceUnavailable));
}

fn sample_translation(marker: &str) -> TranslationResponse {
    TranslationResponse {
        contents: Translation {
            translated: "A mouse, forsooth.".to_string(),
            translation: marker.to_string(),
        },
    }
}

#[test]
fn translation_response_confirmed_style() {
    let result = evaluate_translation_response(200, Some(sample_translation("shakespeare")));
    assert_eq!(result, Ok("A mouse, forsooth.".to_string()));
}

#[test]
fn translation_response_other_style_fails() {
    let result = evaluate_translation_response(200, Some(sample_translation("yoda")));
    assert_eq!(result, Err(TranslationError::TranslationFailed));
}

#[test]
fn translation_response_unreadable_body_fails() {
    let result = evaluate_translation_response(200, None);
    assert_eq!(result, Err(TranslationError::TranslationFailed));
}

#[test]
fn translation_response_other_status_is_unavailable() {
    let result = evaluate_translation_response(503, Some(sample_translation("shakespeare")));
    assert_eq!(result, Err(TranslationError::ServiceUnavailable));
}

#[test]
fn nominal_pipeline_example() {
    let poke_service = FakePokeService::with("pikachu", "a mouse.");
    let trans_service = FakeTranslationService::Succeed;

    let result = handle_request("pikachu", &poke_service, &trans_service);

    assert_eq!(
        result,
        Ok(PokemonData {
            name: "pikachu".to_string(),
            description: "A MOUSE.".to_string()
        })
    );
}
